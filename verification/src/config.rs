use vstd::prelude::*;
use crate::address::Address;
use crate::error::Error;
use crate::model::{outcome_of, view_of};

verus! {

/// The configuration of the engine. It is set once and never changed.
#[derive(Debug)]
pub struct AdminConfig {
    /// The administrator, who sets the configuration.
    pub admin: Address,
    /// The account that finances payments and receives repayments.
    pub liquidity_pool: Address,
}

/// What a configuration is, as a mathematical value.
pub struct AdminConfigView {
    pub admin: Seq<char>,
    pub liquidity_pool: Seq<char>,
}

impl View for AdminConfig {
    type V = AdminConfigView;

    open spec fn view(&self) -> AdminConfigView {
        AdminConfigView { admin: self.admin@, liquidity_pool: self.liquidity_pool@ }
    }
}

impl Clone for AdminConfig {
    fn clone(&self) -> (copy: AdminConfig)
        ensures
            copy == *self,
    {
        AdminConfig { admin: self.admin.clone(), liquidity_pool: self.liquidity_pool.clone() }
    }
}

/// The liquidity pool that a configuration names, if there is one.
pub open spec fn pool_of(config: Option<AdminConfigView>) -> Option<Seq<char>> {
    match config {
        Some(config) => Some(config.liquidity_pool),
        None => None,
    }
}

/// What initializing yields, given the configuration so far: an error on
/// every attempt after the first, else the configuration to keep.
pub open spec fn initialize_outcome(
    existing: Option<AdminConfigView>,
    authorized: bool,
    admin: Seq<char>,
    liquidity_pool: Seq<char>,
) -> Result<AdminConfigView, Error> {
    if existing is Some {
        Err(Error::AlreadyInitialized)
    } else if !authorized {
        Err(Error::Unauthorized)
    } else {
        Ok(AdminConfigView { admin, liquidity_pool })
    }
}

/// Decides the initialization. `existing` is the configuration so far and
/// `authorized` says whether `admin` has authorized the call.
pub fn initialize(
    existing: Option<&AdminConfig>,
    authorized: bool,
    admin: &Address,
    liquidity_pool: &Address,
) -> (result: Result<AdminConfig, Error>)
    ensures
        outcome_of(result) == initialize_outcome(
            view_of(existing),
            authorized,
            admin@,
            liquidity_pool@,
        ),
{
    if existing.is_some() {
        return Err(Error::AlreadyInitialized);
    }
    if !authorized {
        return Err(Error::Unauthorized);
    }
    Ok(AdminConfig { admin: admin.clone(), liquidity_pool: liquidity_pool.clone() })
}

} // verus!
