use vstd::prelude::*;

verus! {

/// The families into which failures fall.
#[derive(Clone, Copy, Debug, PartialEq, Eq, Structural)]
pub enum ErrorKind {
    /// An argument is malformed.
    Validation,
    /// No record exists under the given key.
    NotFound,
    /// The record to create would duplicate a live one.
    Conflict,
    /// The stored state does not admit the operation.
    State,
    /// The operation came before its time.
    Temporal,
    /// The party on whose behalf the call acts has not authorized it.
    Authorization,
    /// The payer can neither pay nor be financed.
    InsufficientFundsAndCredit,
    /// A repayment is larger than what is owed.
    ExceedsDebt,
    /// A counter would leave the range of its type.
    Overflow,
}

/// Why an operation was refused. A refused operation changes nothing.
#[derive(Clone, Copy, Debug, PartialEq, Eq, Structural)]
pub enum Error {
    /// The configuration has been set before.
    AlreadyInitialized,
    /// The configuration has not been set, so no liquidity pool is known.
    NotInitialized,
    /// The required party has not authorized the call.
    Unauthorized,
    /// The amount of a subscription is zero or negative.
    InvalidAmount,
    /// The interval of a subscription is zero.
    InvalidInterval,
    /// The pair already has an active subscription.
    ActiveSubscriptionExists,
    /// The pair has no subscription.
    SubscriptionNotFound,
    /// The subscription has been cancelled.
    SubscriptionInactive,
    /// The next payment is not due yet.
    IntervalNotElapsed,
    /// The balance does not cover the payment and the credit score does
    /// not admit financing.
    InsufficientFundsAndCredit,
    /// The amount of a repayment is zero or negative.
    InvalidRepayment,
    /// The user owes nothing.
    DebtNotFound,
    /// The repayment is larger than the debt.
    ExceedsDebt,
    /// The credit score or the debt would overflow.
    Overflow,
}

impl Error {
    /// The family of this error.
    pub open spec fn spec_kind(self) -> ErrorKind {
        match self {
            Error::AlreadyInitialized => ErrorKind::State,
            Error::NotInitialized => ErrorKind::State,
            Error::Unauthorized => ErrorKind::Authorization,
            Error::InvalidAmount => ErrorKind::Validation,
            Error::InvalidInterval => ErrorKind::Validation,
            Error::ActiveSubscriptionExists => ErrorKind::Conflict,
            Error::SubscriptionNotFound => ErrorKind::NotFound,
            Error::SubscriptionInactive => ErrorKind::State,
            Error::IntervalNotElapsed => ErrorKind::Temporal,
            Error::InsufficientFundsAndCredit => ErrorKind::InsufficientFundsAndCredit,
            Error::InvalidRepayment => ErrorKind::Validation,
            Error::DebtNotFound => ErrorKind::NotFound,
            Error::ExceedsDebt => ErrorKind::ExceedsDebt,
            Error::Overflow => ErrorKind::Overflow,
        }
    }

    /// The text that describes this error to a person.
    pub open spec fn spec_message(self) -> &'static str {
        match self {
            Error::AlreadyInitialized => "Contract already initialized",
            Error::NotInitialized => "Liquidity pool not initialized",
            Error::Unauthorized => "Caller is not authorized",
            Error::InvalidAmount => "Amount must be positive",
            Error::InvalidInterval => "Interval must be greater than 0",
            Error::ActiveSubscriptionExists => "Active subscription already exists",
            Error::SubscriptionNotFound => "Subscription not found",
            Error::SubscriptionInactive => "Subscription is not active",
            Error::IntervalNotElapsed => "Payment interval has not passed yet",
            Error::InsufficientFundsAndCredit => "Insufficient balance and credit score too low for BNPL",
            Error::InvalidRepayment => "Repayment amount must be positive",
            Error::DebtNotFound => "No debt found for user",
            Error::ExceedsDebt => "Repayment amount exceeds debt",
            Error::Overflow => "Arithmetic overflow",
        }
    }

    /// The family of this error.
    #[verifier::when_used_as_spec(spec_kind)]
    pub fn kind(self) -> (kind: ErrorKind)
        ensures
            kind == self.spec_kind(),
    {
        match self {
            Error::AlreadyInitialized | Error::NotInitialized | Error::SubscriptionInactive => {
                ErrorKind::State
            },
            Error::Unauthorized => ErrorKind::Authorization,
            Error::InvalidAmount | Error::InvalidInterval | Error::InvalidRepayment => {
                ErrorKind::Validation
            },
            Error::ActiveSubscriptionExists => ErrorKind::Conflict,
            Error::SubscriptionNotFound | Error::DebtNotFound => ErrorKind::NotFound,
            Error::IntervalNotElapsed => ErrorKind::Temporal,
            Error::InsufficientFundsAndCredit => ErrorKind::InsufficientFundsAndCredit,
            Error::ExceedsDebt => ErrorKind::ExceedsDebt,
            Error::Overflow => ErrorKind::Overflow,
        }
    }

    /// The text that describes this error to a person.
    #[verifier::when_used_as_spec(spec_message)]
    pub fn message(self) -> (text: &'static str)
        ensures
            text == self.spec_message(),
    {
        match self {
            Error::AlreadyInitialized => "Contract already initialized",
            Error::NotInitialized => "Liquidity pool not initialized",
            Error::Unauthorized => "Caller is not authorized",
            Error::InvalidAmount => "Amount must be positive",
            Error::InvalidInterval => "Interval must be greater than 0",
            Error::ActiveSubscriptionExists => "Active subscription already exists",
            Error::SubscriptionNotFound => "Subscription not found",
            Error::SubscriptionInactive => "Subscription is not active",
            Error::IntervalNotElapsed => "Payment interval has not passed yet",
            Error::InsufficientFundsAndCredit => "Insufficient balance and credit score too low for BNPL",
            Error::InvalidRepayment => "Repayment amount must be positive",
            Error::DebtNotFound => "No debt found for user",
            Error::ExceedsDebt => "Repayment amount exceeds debt",
            Error::Overflow => "Arithmetic overflow",
        }
    }
}

} // verus!
