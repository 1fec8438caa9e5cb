use vstd::prelude::*;
use crate::address::Address;
use crate::subscription::SubscriptionKey;

verus! {

/// The name of an entry among all that the engine keeps.
#[derive(Debug)]
pub enum DataKey {
    /// The subscription of a pair.
    Subscription(SubscriptionKey),
    /// What a user owes.
    UserDebt(Address),
    /// The account of the liquidity pool.
    LiquidityPool,
    /// The administrator.
    Admin,
    /// The mark that the configuration has been set.
    Initialized,
}

/// What a key is, as a mathematical value.
pub enum DataKeyView {
    Subscription((Seq<char>, Seq<char>)),
    UserDebt(Seq<char>),
    LiquidityPool,
    Admin,
    Initialized,
}

impl View for DataKey {
    type V = DataKeyView;

    open spec fn view(&self) -> DataKeyView {
        match self {
            DataKey::Subscription(key) => DataKeyView::Subscription(key@),
            DataKey::UserDebt(user) => DataKeyView::UserDebt(user@),
            DataKey::LiquidityPool => DataKeyView::LiquidityPool,
            DataKey::Admin => DataKeyView::Admin,
            DataKey::Initialized => DataKeyView::Initialized,
        }
    }
}

impl Clone for DataKey {
    fn clone(&self) -> (copy: DataKey)
        ensures
            copy == *self,
    {
        match self {
            DataKey::Subscription(key) => DataKey::Subscription(key.clone()),
            DataKey::UserDebt(user) => DataKey::UserDebt(user.clone()),
            DataKey::LiquidityPool => DataKey::LiquidityPool,
            DataKey::Admin => DataKey::Admin,
            DataKey::Initialized => DataKey::Initialized,
        }
    }
}

} // verus!
