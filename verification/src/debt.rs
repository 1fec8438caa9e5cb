use vstd::prelude::*;
use crate::address::Address;
use crate::error::Error;
use crate::model::{outcome_of, view_of};
use crate::transfer::{Transfer, TransferMode, TransferView};

verus! {

/// What a subscriber owes the liquidity pool for payments that the pool
/// has made in the subscriber's place.
#[derive(Debug)]
pub struct UserDebt {
    /// The sum of the financed payments that have not been repaid.
    pub amount: i128,
    /// The token of the payment that was financed last.
    pub token: Address,
}

/// What a debt is, as a mathematical value.
pub struct UserDebtView {
    pub amount: i128,
    pub token: Seq<char>,
}

impl View for UserDebt {
    type V = UserDebtView;

    open spec fn view(&self) -> UserDebtView {
        UserDebtView { amount: self.amount, token: self.token@ }
    }
}

impl Clone for UserDebt {
    fn clone(&self) -> (copy: UserDebt)
        ensures
            copy == *self,
    {
        UserDebt { amount: self.amount, token: self.token.clone() }
    }
}

/// The result of a repayment.
#[derive(Debug)]
pub struct Repayment {
    /// What is still owed; zero when the debt is cleared.
    pub remaining: i128,
    /// The record to keep for the user, or `None` when the record is to be
    /// deleted because nothing is owed any more.
    pub debt: Option<UserDebt>,
    /// The movement of the repaid funds from the user to the liquidity
    /// pool.
    pub transfer: Transfer,
}

/// What a repayment is, as a mathematical value.
pub struct RepaymentView {
    pub remaining: i128,
    pub debt: Option<UserDebtView>,
    pub transfer: TransferView,
}

impl View for Repayment {
    type V = RepaymentView;

    open spec fn view(&self) -> RepaymentView {
        RepaymentView {
            remaining: self.remaining,
            debt: view_of(self.debt),
            transfer: self.transfer@,
        }
    }
}

/// The amount owed under a record that may be absent: an absent record
/// owes nothing.
pub open spec fn owed(existing: Option<UserDebtView>) -> i128 {
    match existing {
        Some(debt) => debt.amount,
        None => 0,
    }
}

/// What recording a financed amount yields: the record to keep, which owes
/// the sum and names the token of this financing, or an overflow.
pub open spec fn record_debt_outcome(
    existing: Option<UserDebtView>,
    amount: i128,
    token: Seq<char>,
) -> Result<UserDebtView, Error> {
    if owed(existing) + amount > i128::MAX || owed(existing) + amount < i128::MIN {
        Err(Error::Overflow)
    } else {
        Ok(UserDebtView { amount: (owed(existing) + amount) as i128, token })
    }
}

/// What a repayment yields, given the record that the user has and the
/// liquidity pool that is configured: the first of the reasons against it,
/// or the remainder, the record to keep and the transfer to make.
pub open spec fn repay_outcome(
    existing: Option<UserDebtView>,
    liquidity_pool: Option<Seq<char>>,
    authorized: bool,
    user: Seq<char>,
    amount: i128,
) -> Result<RepaymentView, Error> {
    if !authorized {
        Err(Error::Unauthorized)
    } else if amount <= 0 {
        Err(Error::InvalidRepayment)
    } else if existing is None {
        Err(Error::DebtNotFound)
    } else if amount > existing->Some_0.amount {
        Err(Error::ExceedsDebt)
    } else if liquidity_pool is None {
        Err(Error::NotInitialized)
    } else {
        let debt = existing->Some_0;
        let remaining = (debt.amount - amount) as i128;
        Ok(
            RepaymentView {
                remaining,
                debt: if remaining == 0 {
                    None
                } else {
                    Some(UserDebtView { amount: remaining, token: debt.token })
                },
                transfer: TransferView {
                    token: debt.token,
                    from: user,
                    to: liquidity_pool->Some_0,
                    amount,
                    mode: TransferMode::Direct,
                },
            },
        )
    }
}

/// Adds a financed `amount` to what a user owes. `existing` is the record
/// that the user has so far. The record returned names `token`, whatever
/// token the earlier record named.
pub fn record_debt(existing: Option<&UserDebt>, amount: i128, token: &Address) -> (result: Result<
    UserDebt,
    Error,
>)
    ensures
        outcome_of(result) == record_debt_outcome(view_of(existing), amount, token@),
{
    let so_far: i128 = match existing {
        Some(debt) => debt.amount,
        None => 0,
    };
    match so_far.checked_add(amount) {
        Some(total) => Ok(UserDebt { amount: total, token: token.clone() }),
        None => Err(Error::Overflow),
    }
}

/// Decides a repayment of `amount` by `user`. `existing` is the record that
/// the user has, `liquidity_pool` the configured pool, and `authorized` says
/// whether the user has authorized the call. On an error nothing is to be
/// written and no transfer is to be made.
pub fn repay(
    existing: Option<&UserDebt>,
    liquidity_pool: Option<&Address>,
    authorized: bool,
    user: &Address,
    amount: i128,
) -> (result: Result<Repayment, Error>)
    ensures
        outcome_of(result) == repay_outcome(
            view_of(existing),
            view_of(liquidity_pool),
            authorized,
            user@,
            amount,
        ),
{
    if !authorized {
        return Err(Error::Unauthorized);
    }
    if amount <= 0 {
        return Err(Error::InvalidRepayment);
    }
    let debt = match existing {
        Some(debt) => debt,
        None => {
            return Err(Error::DebtNotFound);
        },
    };
    if amount > debt.amount {
        return Err(Error::ExceedsDebt);
    }
    let pool = match liquidity_pool {
        Some(pool) => pool,
        None => {
            return Err(Error::NotInitialized);
        },
    };
    let remaining: i128 = debt.amount - amount;
    let kept = if remaining == 0 {
        None
    } else {
        Some(UserDebt { amount: remaining, token: debt.token.clone() })
    };
    Ok(
        Repayment {
            remaining,
            debt: kept,
            transfer: Transfer {
                token: debt.token.clone(),
                from: user.clone(),
                to: pool.clone(),
                amount,
                mode: TransferMode::Direct,
            },
        },
    )
}

} // verus!
