use vstd::prelude::*;
use crate::address::Address;
use crate::error::Error;
use crate::model::{outcome_of, view_of};

verus! {

/// The pair that identifies a subscription.
#[derive(Debug)]
pub struct SubscriptionKey {
    pub subscriber: Address,
    pub merchant: Address,
}

impl View for SubscriptionKey {
    type V = (Seq<char>, Seq<char>);

    open spec fn view(&self) -> (Seq<char>, Seq<char>) {
        (self.subscriber@, self.merchant@)
    }
}

impl SubscriptionKey {
    /// The key of the subscription of `subscriber` to `merchant`.
    pub fn new(subscriber: &Address, merchant: &Address) -> (key: SubscriptionKey)
        ensures
            key@ == (subscriber@, merchant@),
    {
        SubscriptionKey { subscriber: subscriber.clone(), merchant: merchant.clone() }
    }

    /// Whether `record` is the subscription that this key names.
    pub fn names(&self, record: &Subscription) -> (hit: bool)
        ensures
            hit == (record@.key() == self@),
    {
        record.subscriber == self.subscriber && record.merchant == self.merchant
    }
}

impl Clone for SubscriptionKey {
    fn clone(&self) -> (copy: SubscriptionKey)
        ensures
            copy == *self,
    {
        SubscriptionKey { subscriber: self.subscriber.clone(), merchant: self.merchant.clone() }
    }
}

/// A standing order of a subscriber to pay a merchant a fixed amount of one
/// token, once per interval.
#[derive(Debug)]
pub struct Subscription {
    /// Who pays.
    pub subscriber: Address,
    /// Who is paid.
    pub merchant: Address,
    /// The token in which the payments are made.
    pub token: Address,
    /// The amount of each payment, in the token's smallest unit.
    pub amount: i128,
    /// The least number of seconds between two payments.
    pub interval: u64,
    /// When the last payment was collected; zero while none has been.
    pub last_payment_time: u64,
    /// Whether payments may still be collected.
    pub is_active: bool,
    /// The trust that the subscriber has earned under this subscription.
    pub credit_score: u32,
}

/// What a subscription is, as a mathematical value.
pub struct SubscriptionView {
    pub subscriber: Seq<char>,
    pub merchant: Seq<char>,
    pub token: Seq<char>,
    pub amount: i128,
    pub interval: u64,
    pub last_payment_time: u64,
    pub is_active: bool,
    pub credit_score: u32,
}

impl SubscriptionView {
    /// The pair under which the subscription is kept.
    pub open spec fn key(self) -> (Seq<char>, Seq<char>) {
        (self.subscriber, self.merchant)
    }

    /// Amount and interval are strictly positive.
    pub open spec fn valid(self) -> bool {
        self.amount > 0 && self.interval > 0
    }

    /// A payment may be collected at `now`: none has been collected yet, or
    /// a full interval has passed since the last one.
    pub open spec fn is_due(self, now: u64) -> bool {
        self.last_payment_time == 0 || now >= self.last_payment_time + self.interval
    }

    /// The subscription is active and a payment may be collected at `now`.
    pub open spec fn can_process(self, now: u64) -> bool {
        self.is_active && self.is_due(now)
    }

    /// The subscription once it has been cancelled.
    pub open spec fn cancelled(self) -> SubscriptionView {
        SubscriptionView { is_active: false, ..self }
    }
}

impl View for Subscription {
    type V = SubscriptionView;

    open spec fn view(&self) -> SubscriptionView {
        SubscriptionView {
            subscriber: self.subscriber@,
            merchant: self.merchant@,
            token: self.token@,
            amount: self.amount,
            interval: self.interval,
            last_payment_time: self.last_payment_time,
            is_active: self.is_active,
            credit_score: self.credit_score,
        }
    }
}

impl Clone for Subscription {
    fn clone(&self) -> (copy: Subscription)
        ensures
            copy == *self,
    {
        Subscription {
            subscriber: self.subscriber.clone(),
            merchant: self.merchant.clone(),
            token: self.token.clone(),
            amount: self.amount,
            interval: self.interval,
            last_payment_time: self.last_payment_time,
            is_active: self.is_active,
            credit_score: self.credit_score,
        }
    }
}

impl Subscription {
    /// The pair under which this subscription is kept.
    pub fn key(&self) -> (key: SubscriptionKey)
        ensures
            key@ == self@.key(),
    {
        SubscriptionKey::new(&self.subscriber, &self.merchant)
    }

    /// Whether a payment may be collected at `now`, the subscription being
    /// active or not.
    pub fn is_due(&self, now: u64) -> (due: bool)
        ensures
            due == self@.is_due(now),
    {
        if self.last_payment_time == 0 {
            true
        } else if now < self.last_payment_time {
            false
        } else {
            now - self.last_payment_time >= self.interval
        }
    }
}

/// The subscription that `create` writes: active, never paid, without
/// credit.
pub open spec fn fresh_subscription(
    subscriber: Seq<char>,
    merchant: Seq<char>,
    token: Seq<char>,
    amount: i128,
    interval: u64,
) -> SubscriptionView {
    SubscriptionView {
        subscriber,
        merchant,
        token,
        amount,
        interval,
        last_payment_time: 0,
        is_active: true,
        credit_score: 0,
    }
}

/// What creating a subscription yields, given the record that the pair has
/// so far: the new record, or the first of the reasons against it.
pub open spec fn create_outcome(
    existing: Option<SubscriptionView>,
    authorized: bool,
    subscriber: Seq<char>,
    merchant: Seq<char>,
    token: Seq<char>,
    amount: i128,
    interval: u64,
) -> Result<SubscriptionView, Error> {
    if !authorized {
        Err(Error::Unauthorized)
    } else if amount <= 0 {
        Err(Error::InvalidAmount)
    } else if interval == 0 {
        Err(Error::InvalidInterval)
    } else if existing is Some && existing->Some_0.is_active {
        Err(Error::ActiveSubscriptionExists)
    } else {
        Ok(fresh_subscription(subscriber, merchant, token, amount, interval))
    }
}

/// What cancelling yields, given the record that the pair has: the record
/// to write back, or the reason against it.
pub open spec fn cancel_outcome(existing: Option<SubscriptionView>, authorized: bool) -> Result<
    SubscriptionView,
    Error,
> {
    if !authorized {
        Err(Error::Unauthorized)
    } else {
        match existing {
            None => Err(Error::SubscriptionNotFound),
            Some(subscription) => Ok(subscription.cancelled()),
        }
    }
}

/// Whether a payment can be collected at `now`, given the record that the
/// pair has.
pub open spec fn can_process_spec(existing: Option<SubscriptionView>, now: u64) -> bool {
    existing is Some && existing->Some_0.can_process(now)
}

/// Decides the creation of a subscription of `subscriber` to `merchant`.
/// `existing` is the record that the pair has so far and `authorized` says
/// whether the subscriber has authorized the call. The record returned is
/// the one to keep under the pair; on an error nothing is to be written.
pub fn create(
    existing: Option<&Subscription>,
    authorized: bool,
    subscriber: &Address,
    merchant: &Address,
    token: &Address,
    amount: i128,
    interval: u64,
) -> (result: Result<Subscription, Error>)
    ensures
        outcome_of(result) == create_outcome(
            view_of(existing),
            authorized,
            subscriber@,
            merchant@,
            token@,
            amount,
            interval,
        ),
{
    if !authorized {
        return Err(Error::Unauthorized);
    }
    if amount <= 0 {
        return Err(Error::InvalidAmount);
    }
    if interval == 0 {
        return Err(Error::InvalidInterval);
    }
    if let Some(record) = existing {
        if record.is_active {
            return Err(Error::ActiveSubscriptionExists);
        }
    }
    Ok(
        Subscription {
            subscriber: subscriber.clone(),
            merchant: merchant.clone(),
            token: token.clone(),
            amount,
            interval,
            last_payment_time: 0,
            is_active: true,
            credit_score: 0,
        },
    )
}

/// Decides the cancellation of a subscription. `existing` is the record
/// that the pair has and `authorized` says whether the subscriber has
/// authorized the call. A record that is inactive already is written back
/// as it is.
pub fn cancel(existing: Option<&Subscription>, authorized: bool) -> (result: Result<
    Subscription,
    Error,
>)
    ensures
        outcome_of(result) == cancel_outcome(view_of(existing), authorized),
{
    if !authorized {
        return Err(Error::Unauthorized);
    }
    match existing {
        None => Err(Error::SubscriptionNotFound),
        Some(record) => {
            let mut closed = record.clone();
            closed.is_active = false;
            Ok(closed)
        },
    }
}

/// Whether a payment can be collected at `now`: the pair has an active
/// subscription that is due.
pub fn can_process(existing: Option<&Subscription>, now: u64) -> (ready: bool)
    ensures
        ready == can_process_spec(view_of(existing), now),
{
    match existing {
        None => false,
        Some(record) => record.is_active && record.is_due(now),
    }
}

} // verus!
