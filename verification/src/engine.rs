use vstd::prelude::*;
use crate::address::Address;
use crate::debt::{record_debt, record_debt_outcome, UserDebt, UserDebtView};
use crate::error::Error;
use crate::model::{outcome_of, view_of};
use crate::subscription::{Subscription, SubscriptionView};
use crate::transfer::{Transfer, TransferMode, TransferView};

verus! {

/// What a payment from the subscriber's own balance adds to the credit
/// score.
pub const CREDIT_SCORE_INCREMENT: u32 = 10;

/// The credit score that financing demands more than.
pub const BNPL_MIN_CREDIT_SCORE: u32 = 50;

/// A payment that has been decided.
#[derive(Debug)]
pub struct Payment {
    /// The subscription as it stands after the payment.
    pub subscription: Subscription,
    /// The subscriber's debt as it stands after a financed payment; `None`
    /// when the subscriber paid, and the debt is as it was.
    pub debt: Option<UserDebt>,
    /// The movement of the funds to the merchant.
    pub transfer: Transfer,
}

/// What a payment is, as a mathematical value.
pub struct PaymentView {
    pub subscription: SubscriptionView,
    pub debt: Option<UserDebtView>,
    pub transfer: TransferView,
}

impl PaymentView {
    /// The amount that the merchant receives.
    pub open spec fn amount(self) -> i128 {
        self.transfer.amount
    }

    /// Whether the liquidity pool paid in the subscriber's place.
    pub open spec fn is_financed(self) -> bool {
        self.debt is Some
    }
}

impl View for Payment {
    type V = PaymentView;

    open spec fn view(&self) -> PaymentView {
        PaymentView {
            subscription: self.subscription@,
            debt: view_of(self.debt),
            transfer: self.transfer@,
        }
    }
}

impl Payment {
    /// The amount that the merchant receives.
    pub fn amount(&self) -> (amount: i128)
        ensures
            amount == self@.amount(),
    {
        self.transfer.amount
    }

    /// Whether the liquidity pool paid in the subscriber's place.
    pub fn is_financed(&self) -> (financed: bool)
        ensures
            financed == self@.is_financed(),
    {
        self.debt.is_some()
    }
}

/// Whether a credit score admits financing: it must exceed the threshold,
/// which itself is not enough.
pub open spec fn admits_financing(credit_score: u32) -> bool {
    credit_score > BNPL_MIN_CREDIT_SCORE
}

/// The payment that the subscriber makes out of a balance that covers it:
/// the amount goes from the subscriber to the merchant, the credit score
/// grows by the fixed increment and the schedule advances to `now`.
pub open spec fn direct_payment(subscription: SubscriptionView, now: u64) -> Result<
    PaymentView,
    Error,
> {
    if subscription.credit_score + CREDIT_SCORE_INCREMENT > u32::MAX {
        Err(Error::Overflow)
    } else {
        Ok(
            PaymentView {
                subscription: SubscriptionView {
                    credit_score: (subscription.credit_score + CREDIT_SCORE_INCREMENT) as u32,
                    last_payment_time: now,
                    ..subscription
                },
                debt: None,
                transfer: TransferView {
                    token: subscription.token,
                    from: subscription.subscriber,
                    to: subscription.merchant,
                    amount: subscription.amount,
                    mode: TransferMode::Allowance,
                },
            },
        )
    }
}

/// The payment that the liquidity pool makes in the subscriber's place:
/// the amount goes from the pool to the merchant and is added to what the
/// subscriber owes, the schedule advances to `now`, and the credit score
/// stays as it is.
pub open spec fn financed_payment(
    subscription: SubscriptionView,
    debt: Option<UserDebtView>,
    liquidity_pool: Option<Seq<char>>,
    now: u64,
) -> Result<PaymentView, Error> {
    match liquidity_pool {
        None => Err(Error::NotInitialized),
        Some(pool) => match record_debt_outcome(debt, subscription.amount, subscription.token) {
            Err(error) => Err(error),
            Ok(charged) => Ok(
                PaymentView {
                    subscription: SubscriptionView { last_payment_time: now, ..subscription },
                    debt: Some(charged),
                    transfer: TransferView {
                        token: subscription.token,
                        from: pool,
                        to: subscription.merchant,
                        amount: subscription.amount,
                        mode: TransferMode::Allowance,
                    },
                },
            ),
        },
    }
}

/// What collecting a payment at `now` yields, given the record of the
/// pair, the debt of the subscriber, the configured liquidity pool and the
/// subscriber's balance: the first of the reasons against it, or the
/// payment. The three ways out of the balance test exclude each other and
/// leave nothing over.
pub open spec fn collect_outcome(
    existing: Option<SubscriptionView>,
    debt: Option<UserDebtView>,
    liquidity_pool: Option<Seq<char>>,
    now: u64,
    balance: i128,
) -> Result<PaymentView, Error> {
    match existing {
        None => Err(Error::SubscriptionNotFound),
        Some(subscription) => if !subscription.is_active {
            Err(Error::SubscriptionInactive)
        } else if !subscription.is_due(now) {
            Err(Error::IntervalNotElapsed)
        } else if balance >= subscription.amount {
            direct_payment(subscription, now)
        } else if admits_financing(subscription.credit_score) {
            financed_payment(subscription, debt, liquidity_pool, now)
        } else {
            Err(Error::InsufficientFundsAndCredit)
        },
    }
}

/// Decides the collection of a payment at `now`. `existing` is the record
/// of the pair, `debt` the record of what the subscriber owes,
/// `liquidity_pool` the configured pool and `balance` what the subscriber
/// holds of the subscription's token, all read at one moment. On an error
/// nothing is to be written and no transfer is to be made.
pub fn collect(
    existing: Option<&Subscription>,
    debt: Option<&UserDebt>,
    liquidity_pool: Option<&Address>,
    now: u64,
    balance: i128,
) -> (result: Result<Payment, Error>)
    ensures
        outcome_of(result) == collect_outcome(
            view_of(existing),
            view_of(debt),
            view_of(liquidity_pool),
            now,
            balance,
        ),
{
    let subscription = match existing {
        Some(subscription) => subscription,
        None => {
            return Err(Error::SubscriptionNotFound);
        },
    };
    if !subscription.is_active {
        return Err(Error::SubscriptionInactive);
    }
    if !subscription.is_due(now) {
        return Err(Error::IntervalNotElapsed);
    }
    if balance >= subscription.amount {
        let credit_score = match subscription.credit_score.checked_add(CREDIT_SCORE_INCREMENT) {
            Some(credit_score) => credit_score,
            None => {
                return Err(Error::Overflow);
            },
        };
        let mut paid = subscription.clone();
        paid.credit_score = credit_score;
        paid.last_payment_time = now;
        Ok(
            Payment {
                subscription: paid,
                debt: None,
                transfer: Transfer {
                    token: subscription.token.clone(),
                    from: subscription.subscriber.clone(),
                    to: subscription.merchant.clone(),
                    amount: subscription.amount,
                    mode: TransferMode::Allowance,
                },
            },
        )
    } else if subscription.credit_score > BNPL_MIN_CREDIT_SCORE {
        let pool = match liquidity_pool {
            Some(pool) => pool,
            None => {
                return Err(Error::NotInitialized);
            },
        };
        let charged = match record_debt(debt, subscription.amount, &subscription.token) {
            Ok(charged) => charged,
            Err(error) => {
                return Err(error);
            },
        };
        let mut paid = subscription.clone();
        paid.last_payment_time = now;
        Ok(
            Payment {
                subscription: paid,
                debt: Some(charged),
                transfer: Transfer {
                    token: subscription.token.clone(),
                    from: pool.clone(),
                    to: subscription.merchant.clone(),
                    amount: subscription.amount,
                    mode: TransferMode::Allowance,
                },
            },
        )
    } else {
        Err(Error::InsufficientFundsAndCredit)
    }
}

} // verus!
