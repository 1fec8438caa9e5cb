use vstd::prelude::*;
use crate::contract::ContractState;
use crate::debt::owed;
use crate::engine::{admits_financing, CREDIT_SCORE_INCREMENT};
use crate::error::{Error, ErrorKind};
use crate::subscription::{can_process_spec, fresh_subscription};
use crate::transfer::TransferMode;

verus! {

/// Every operation keeps a valid state valid: subscriptions stay under
/// their own pairs with positive amounts and intervals, and no debt of
/// zero is ever kept.
pub proof fn law_operations_keep_state_valid(
    state: ContractState,
    authorized: bool,
    subscriber: Seq<char>,
    merchant: Seq<char>,
    token: Seq<char>,
    amount: i128,
    interval: u64,
    now: u64,
    balance: i128,
    admin: Seq<char>,
    liquidity_pool: Seq<char>,
)
    requires
        state.valid(),
    ensures
        ContractState::empty().valid(),
        state.after_initialize(authorized, admin, liquidity_pool).valid(),
        state.after_create(authorized, subscriber, merchant, token, amount, interval).valid(),
        state.after_collect(subscriber, merchant, now, balance).valid(),
        state.after_cancel(authorized, subscriber, merchant).valid(),
        state.after_repay(authorized, subscriber, amount).valid(),
{
}

/// An operation that returns an error leaves the state as it was.
pub proof fn law_errors_change_nothing(
    state: ContractState,
    authorized: bool,
    subscriber: Seq<char>,
    merchant: Seq<char>,
    token: Seq<char>,
    amount: i128,
    interval: u64,
    now: u64,
    balance: i128,
    admin: Seq<char>,
    liquidity_pool: Seq<char>,
)
    ensures
        state.initialize(authorized, admin, liquidity_pool) is Err ==> state.after_initialize(
            authorized,
            admin,
            liquidity_pool,
        ) == state,
        state.create(authorized, subscriber, merchant, token, amount, interval) is Err
            ==> state.after_create(authorized, subscriber, merchant, token, amount, interval)
            == state,
        state.collect(subscriber, merchant, now, balance) is Err ==> state.after_collect(
            subscriber,
            merchant,
            now,
            balance,
        ) == state,
        state.cancel(authorized, subscriber, merchant) is Err ==> state.after_cancel(
            authorized,
            subscriber,
            merchant,
        ) == state,
        state.repay(authorized, subscriber, amount) is Err ==> state.after_repay(
            authorized,
            subscriber,
            amount,
        ) == state,
{
}

/// Initialization works once: after it has gone through, every further
/// attempt is refused for the state that it finds, and the configuration
/// stays.
pub proof fn law_initialize_is_single_shot(
    state: ContractState,
    admin: Seq<char>,
    liquidity_pool: Seq<char>,
    authorized: bool,
    other_admin: Seq<char>,
    other_pool: Seq<char>,
)
    requires
        state.initialize(true, admin, liquidity_pool) is Ok,
    ensures
        ({
            let set = state.after_initialize(true, admin, liquidity_pool);
            &&& set.liquidity_pool() == Some(liquidity_pool)
            &&& set.initialize(authorized, other_admin, other_pool) == Err::<
                crate::config::AdminConfigView,
                Error,
            >(Error::AlreadyInitialized)
            &&& Error::AlreadyInitialized.kind() == ErrorKind::State
            &&& set.after_initialize(authorized, other_admin, other_pool) == set
        }),
{
}

/// A subscription whose amount is not positive or whose interval is zero
/// is never created: the call fails and writes nothing. When the
/// subscriber has authorized it, the failure is a validation error.
pub proof fn law_create_refuses_invalid_terms(
    state: ContractState,
    authorized: bool,
    subscriber: Seq<char>,
    merchant: Seq<char>,
    token: Seq<char>,
    amount: i128,
    interval: u64,
)
    requires
        amount <= 0 || interval == 0,
    ensures
        state.create(authorized, subscriber, merchant, token, amount, interval) is Err,
        authorized ==> state.create(
            authorized,
            subscriber,
            merchant,
            token,
            amount,
            interval,
        )->Err_0.kind() == ErrorKind::Validation,
        state.after_create(authorized, subscriber, merchant, token, amount, interval) == state,
{
}

/// Creating over an active subscription fails with a conflict and leaves
/// the active subscription as it is.
pub proof fn law_create_over_active_conflicts(
    state: ContractState,
    subscriber: Seq<char>,
    merchant: Seq<char>,
    token: Seq<char>,
    amount: i128,
    interval: u64,
)
    requires
        state.subscription(subscriber, merchant) is Some,
        state.subscription(subscriber, merchant)->Some_0.is_active,
        amount > 0,
        interval > 0,
    ensures
        state.create(true, subscriber, merchant, token, amount, interval) == Err::<
            crate::subscription::SubscriptionView,
            Error,
        >(Error::ActiveSubscriptionExists),
        Error::ActiveSubscriptionExists.kind() == ErrorKind::Conflict,
        state.after_create(true, subscriber, merchant, token, amount, interval) == state,
{
}

/// Creating after a cancellation succeeds, and the new subscription starts
/// over: it is active, has never been paid and has no credit.
pub proof fn law_create_after_cancel_starts_over(
    state: ContractState,
    subscriber: Seq<char>,
    merchant: Seq<char>,
    token: Seq<char>,
    amount: i128,
    interval: u64,
)
    requires
        state.cancel(true, subscriber, merchant) is Ok,
        amount > 0,
        interval > 0,
    ensures
        ({
            let cancelled = state.after_cancel(true, subscriber, merchant);
            let created = cancelled.after_create(
                true,
                subscriber,
                merchant,
                token,
                amount,
                interval,
            );
            &&& cancelled.create(true, subscriber, merchant, token, amount, interval) == Ok::<
                crate::subscription::SubscriptionView,
                Error,
            >(fresh_subscription(subscriber, merchant, token, amount, interval))
            &&& created.subscription(subscriber, merchant) == Some(
                fresh_subscription(subscriber, merchant, token, amount, interval),
            )
            &&& created.subscription(subscriber, merchant)->Some_0.last_payment_time == 0
            &&& created.subscription(subscriber, merchant)->Some_0.credit_score == 0
            &&& created.subscription(subscriber, merchant)->Some_0.is_active
        }),
{
}

/// The first collection on a subscription that has just been created
/// never has to wait, whatever the time is, and it succeeds whenever the
/// balance covers the amount.
pub proof fn law_first_collect_needs_no_wait(
    state: ContractState,
    subscriber: Seq<char>,
    merchant: Seq<char>,
    token: Seq<char>,
    amount: i128,
    interval: u64,
    now: u64,
    balance: i128,
)
    requires
        state.create(true, subscriber, merchant, token, amount, interval) is Ok,
    ensures
        ({
            let created = state.after_create(true, subscriber, merchant, token, amount, interval);
            let collected = created.collect(subscriber, merchant, now, balance);
            &&& can_process_spec(created.subscription(subscriber, merchant), now)
            &&& collected is Ok <==> balance >= amount
            &&& collected is Err ==> collected->Err_0 == Error::InsufficientFundsAndCredit
        }),
{
}

/// When the balance covers the amount, collecting on an active
/// subscription that is due moves exactly the amount from the subscriber
/// to the merchant, raises the credit score by exactly the increment, sets
/// the time of the last payment to now and leaves every debt as it is.
pub proof fn law_direct_payment(
    state: ContractState,
    subscriber: Seq<char>,
    merchant: Seq<char>,
    now: u64,
    balance: i128,
)
    requires
        state.valid(),
        state.subscription(subscriber, merchant) is Some,
        state.subscription(subscriber, merchant)->Some_0.can_process(now),
        balance >= state.subscription(subscriber, merchant)->Some_0.amount,
        state.subscription(subscriber, merchant)->Some_0.credit_score + CREDIT_SCORE_INCREMENT
            <= u32::MAX,
    ensures
        ({
            let before = state.subscription(subscriber, merchant)->Some_0;
            let collected = state.collect(subscriber, merchant, now, balance);
            let next = state.after_collect(subscriber, merchant, now, balance);
            let after = next.subscription(subscriber, merchant);
            &&& collected is Ok
            &&& collected->Ok_0.amount() == before.amount
            &&& !collected->Ok_0.is_financed()
            &&& collected->Ok_0.transfer.from == subscriber
            &&& collected->Ok_0.transfer.to == merchant
            &&& collected->Ok_0.transfer.token == before.token
            &&& collected->Ok_0.transfer.amount == before.amount
            &&& collected->Ok_0.transfer.mode == TransferMode::Allowance
            &&& after == Some(collected->Ok_0.subscription)
            &&& after->Some_0.credit_score == before.credit_score + 10
            &&& after->Some_0.last_payment_time == now
            &&& after->Some_0.is_active
            &&& after->Some_0.amount == before.amount
            &&& after->Some_0.interval == before.interval
            &&& after->Some_0.token == before.token
            &&& next.debts == state.debts
            &&& next.config == state.config
        }),
{
}

/// After a collection at a time other than zero, the next one fails as
/// too early at every time before the time of that collection plus the
/// interval, and is due at exactly that time and ever after: there it
/// succeeds whenever the balance covers the amount.
pub proof fn law_next_collect_waits_one_interval(
    state: ContractState,
    subscriber: Seq<char>,
    merchant: Seq<char>,
    now: u64,
    balance: i128,
    later: u64,
    later_balance: i128,
)
    requires
        state.valid(),
        state.collect(subscriber, merchant, now, balance) is Ok,
        now > 0,
    ensures
        ({
            let next = state.after_collect(subscriber, merchant, now, balance);
            let paid = next.subscription(subscriber, merchant)->Some_0;
            let again = next.collect(subscriber, merchant, later, later_balance);
            &&& later < now + paid.interval ==> again == Err::<crate::engine::PaymentView, Error>(
                Error::IntervalNotElapsed,
            )
            &&& Error::IntervalNotElapsed.kind() == ErrorKind::Temporal
            &&& later < now + paid.interval ==> !can_process_spec(Some(paid), later)
            &&& later >= now + paid.interval ==> can_process_spec(Some(paid), later)
            &&& later >= now + paid.interval && later_balance >= paid.amount && paid.credit_score
                + CREDIT_SCORE_INCREMENT <= u32::MAX ==> again is Ok
        }),
{
}

/// When the balance does not cover the amount and the credit score
/// exceeds the threshold, collecting on an active subscription that is due
/// moves the amount from the liquidity pool to the merchant, adds it to
/// what the subscriber owes, names the subscription's token in the debt,
/// sets the time of the last payment to now and leaves the credit score
/// as it is.
pub proof fn law_financed_payment(
    state: ContractState,
    subscriber: Seq<char>,
    merchant: Seq<char>,
    now: u64,
    balance: i128,
)
    requires
        state.valid(),
        state.subscription(subscriber, merchant) is Some,
        state.subscription(subscriber, merchant)->Some_0.can_process(now),
        balance < state.subscription(subscriber, merchant)->Some_0.amount,
        admits_financing(state.subscription(subscriber, merchant)->Some_0.credit_score),
        state.liquidity_pool() is Some,
        owed(state.debt(subscriber)) + state.subscription(subscriber, merchant)->Some_0.amount
            <= i128::MAX,
    ensures
        ({
            let before = state.subscription(subscriber, merchant)->Some_0;
            let collected = state.collect(subscriber, merchant, now, balance);
            let next = state.after_collect(subscriber, merchant, now, balance);
            let after = next.subscription(subscriber, merchant);
            &&& collected is Ok
            &&& collected->Ok_0.amount() == before.amount
            &&& collected->Ok_0.is_financed()
            &&& collected->Ok_0.transfer.from == state.liquidity_pool()->Some_0
            &&& collected->Ok_0.transfer.to == merchant
            &&& collected->Ok_0.transfer.token == before.token
            &&& collected->Ok_0.transfer.amount == before.amount
            &&& collected->Ok_0.transfer.mode == TransferMode::Allowance
            &&& after == Some(collected->Ok_0.subscription)
            &&& after->Some_0.credit_score == before.credit_score
            &&& after->Some_0.last_payment_time == now
            &&& after->Some_0.is_active
            &&& next.debt(subscriber) is Some
            &&& next.debt(subscriber) == collected->Ok_0.debt
            &&& next.debt(subscriber)->Some_0.amount == owed(state.debt(subscriber))
                + before.amount
            &&& next.debt(subscriber)->Some_0.token == before.token
            &&& forall|user: Seq<char>| user != subscriber ==> next.debt(user) == state.debt(user)
            &&& next.config == state.config
        }),
{
}

/// When the balance does not cover the amount and the credit score does
/// not exceed the threshold, collecting on an active subscription that is
/// due fails for want of funds and credit. Nothing is written and no
/// transfer is asked for. A score of exactly the threshold is such a
/// score.
pub proof fn law_rejection_changes_nothing(
    state: ContractState,
    subscriber: Seq<char>,
    merchant: Seq<char>,
    now: u64,
    balance: i128,
)
    requires
        state.subscription(subscriber, merchant) is Some,
        state.subscription(subscriber, merchant)->Some_0.can_process(now),
        balance < state.subscription(subscriber, merchant)->Some_0.amount,
        state.subscription(subscriber, merchant)->Some_0.credit_score <= 50,
    ensures
        state.collect(subscriber, merchant, now, balance) == Err::<
            crate::engine::PaymentView,
            Error,
        >(Error::InsufficientFundsAndCredit),
        Error::InsufficientFundsAndCredit.kind() == ErrorKind::InsufficientFundsAndCredit,
        state.after_collect(subscriber, merchant, now, balance) == state,
{
}

/// On an active subscription that is due, the balance and the credit
/// score pick exactly one way: the subscriber pays, the pool pays, or the
/// call is refused.
pub proof fn law_collect_branches_are_exclusive(
    state: ContractState,
    subscriber: Seq<char>,
    merchant: Seq<char>,
    now: u64,
    balance: i128,
)
    requires
        state.subscription(subscriber, merchant) is Some,
        state.subscription(subscriber, merchant)->Some_0.can_process(now),
    ensures
        ({
            let before = state.subscription(subscriber, merchant)->Some_0;
            let collected = state.collect(subscriber, merchant, now, balance);
            &&& collected is Ok && !collected->Ok_0.is_financed() ==> balance >= before.amount
            &&& collected is Ok && collected->Ok_0.is_financed() ==> balance < before.amount
                && before.credit_score > 50
            &&& collected == Err::<crate::engine::PaymentView, Error>(
                Error::InsufficientFundsAndCredit,
            ) <==> balance < before.amount && before.credit_score <= 50
        }),
{
}

/// Collecting and cancelling never lower a credit score.
pub proof fn law_credit_score_never_falls(
    state: ContractState,
    authorized: bool,
    subscriber: Seq<char>,
    merchant: Seq<char>,
    now: u64,
    balance: i128,
    key: (Seq<char>, Seq<char>),
)
    requires
        state.subscriptions.contains_key(key),
    ensures
        ({
            let collected = state.after_collect(subscriber, merchant, now, balance);
            let cancelled = state.after_cancel(authorized, subscriber, merchant);
            &&& collected.subscriptions.contains_key(key)
            &&& collected.subscriptions[key].credit_score >= state.subscriptions[key].credit_score
            &&& cancelled.subscriptions.contains_key(key)
            &&& cancelled.subscriptions[key].credit_score == state.subscriptions[key].credit_score
        }),
{
}

/// Repaying more than is owed fails, and the debt stays as it is.
pub proof fn law_repay_more_than_owed_fails(state: ContractState, user: Seq<char>, amount: i128)
    requires
        state.debt(user) is Some,
        amount > state.debt(user)->Some_0.amount,
        amount > 0,
    ensures
        state.repay(true, user, amount) == Err::<crate::debt::RepaymentView, Error>(
            Error::ExceedsDebt,
        ),
        Error::ExceedsDebt.kind() == ErrorKind::ExceedsDebt,
        state.after_repay(true, user, amount) == state,
{
}

/// Repaying exactly what is owed deletes the record: afterwards the user
/// owes nothing, and a further repayment finds no debt.
pub proof fn law_repay_all_clears_debt(state: ContractState, user: Seq<char>, again: i128)
    requires
        state.valid(),
        state.debt(user) is Some,
        state.liquidity_pool() is Some,
        again > 0,
    ensures
        ({
            let debt = state.debt(user)->Some_0;
            let repaid = state.repay(true, user, debt.amount);
            let next = state.after_repay(true, user, debt.amount);
            &&& repaid is Ok
            &&& repaid->Ok_0.remaining == 0
            &&& repaid->Ok_0.transfer.from == user
            &&& repaid->Ok_0.transfer.to == state.liquidity_pool()->Some_0
            &&& repaid->Ok_0.transfer.token == debt.token
            &&& repaid->Ok_0.transfer.amount == debt.amount
            &&& repaid->Ok_0.transfer.mode == TransferMode::Direct
            &&& next.debt(user) is None
            &&& next.repay(true, user, again) == Err::<crate::debt::RepaymentView, Error>(
                Error::DebtNotFound,
            )
            &&& forall|other: Seq<char>| other != user ==> next.debt(other) == state.debt(other)
            &&& next.subscriptions == state.subscriptions
        }),
{
}

/// Repaying a part of what is owed keeps the record with the remainder,
/// in the same token.
pub proof fn law_partial_repay_keeps_remainder(state: ContractState, user: Seq<char>, amount: i128)
    requires
        state.debt(user) is Some,
        state.liquidity_pool() is Some,
        0 < amount < state.debt(user)->Some_0.amount,
    ensures
        ({
            let debt = state.debt(user)->Some_0;
            let repaid = state.repay(true, user, amount);
            let next = state.after_repay(true, user, amount);
            &&& repaid is Ok
            &&& repaid->Ok_0.remaining == debt.amount - amount
            &&& repaid->Ok_0.transfer.from == user
            &&& repaid->Ok_0.transfer.to == state.liquidity_pool()->Some_0
            &&& repaid->Ok_0.transfer.amount == amount
            &&& next.debt(user) is Some
            &&& next.debt(user)->Some_0.amount == debt.amount - amount
            &&& next.debt(user)->Some_0.token == debt.token
            &&& forall|other: Seq<char>| other != user ==> next.debt(other) == state.debt(other)
            &&& next.subscriptions == state.subscriptions
        }),
{
}

/// Cancelling makes a subscription inactive and changes nothing else of
/// it. Afterwards no payment can be collected on it at any time or
/// balance: collecting fails because of the state, and the query says
/// no. Cancelling again goes through and changes nothing.
pub proof fn law_cancel_stops_collection(
    state: ContractState,
    subscriber: Seq<char>,
    merchant: Seq<char>,
    now: u64,
    balance: i128,
)
    requires
        state.subscription(subscriber, merchant) is Some,
    ensures
        ({
            let before = state.subscription(subscriber, merchant)->Some_0;
            let next = state.after_cancel(true, subscriber, merchant);
            &&& state.cancel(true, subscriber, merchant) is Ok
            &&& next.subscription(subscriber, merchant) == Some(before.cancelled())
            &&& !next.subscription(subscriber, merchant)->Some_0.is_active
            &&& next.collect(subscriber, merchant, now, balance) == Err::<
                crate::engine::PaymentView,
                Error,
            >(Error::SubscriptionInactive)
            &&& Error::SubscriptionInactive.kind() == ErrorKind::State
            &&& next.after_collect(subscriber, merchant, now, balance) == next
            &&& !can_process_spec(next.subscription(subscriber, merchant), now)
            &&& next.cancel(true, subscriber, merchant) is Ok
            &&& next.after_cancel(true, subscriber, merchant) == next
            &&& next.debts == state.debts
            &&& next.config == state.config
        }),
{
    let next = state.after_cancel(true, subscriber, merchant);
    assert(next.after_cancel(true, subscriber, merchant).subscriptions =~= next.subscriptions);
}

} // verus!
