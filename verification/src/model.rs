use vstd::prelude::*;
use crate::error::Error;

verus! {

/// The view of what an optional value holds.
pub open spec fn view_of<T: View>(value: Option<T>) -> Option<T::V> {
    match value {
        Some(inner) => Some(inner@),
        None => None,
    }
}

/// The view of what an operation returned: the view of its value, or its
/// error.
pub open spec fn outcome_of<T: View>(result: Result<T, Error>) -> Result<T::V, Error> {
    match result {
        Ok(value) => Ok(value@),
        Err(error) => Err(error),
    }
}

/// What an operation that returns no value returned: that it went
/// through, or its error.
pub open spec fn done<T>(result: Result<T, Error>) -> Result<(), Error> {
    match result {
        Ok(_) => Ok(()),
        Err(error) => Err(error),
    }
}

/// What a map holds under a key, if anything.
pub open spec fn lookup<K, V>(map: Map<K, V>, key: K) -> Option<V> {
    if map.contains_key(key) {
        Some(map[key])
    } else {
        None
    }
}

} // verus!
