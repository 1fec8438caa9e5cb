use vstd::prelude::*;
use crate::address::Address;
use crate::debt::{Repayment, RepaymentView};
use crate::engine::{Payment, PaymentView};
use crate::subscription::{Subscription, SubscriptionView};

verus! {

/// A notification of something that an operation has done. The engine
/// says which notification belongs to an operation; sending it is left to
/// whoever runs the engine.
#[derive(Debug)]
pub enum Event {
    /// A subscription has been created.
    SubscriptionCreated {
        subscriber: Address,
        merchant: Address,
        token: Address,
        amount: i128,
        interval: u64,
    },
    /// A subscription has been cancelled.
    SubscriptionCancelled { subscriber: Address, merchant: Address },
    /// The subscriber has paid; `credit_score` is the score after the
    /// payment.
    PaymentCollected {
        subscriber: Address,
        merchant: Address,
        token: Address,
        amount: i128,
        credit_score: u32,
    },
    /// The liquidity pool has paid in the subscriber's place; `debt` is
    /// what the subscriber owes after the payment.
    FinancingTriggered {
        subscriber: Address,
        merchant: Address,
        token: Address,
        amount: i128,
        debt: i128,
    },
    /// A user has repaid `amount`; `remaining` is what the user still owes.
    DebtRepaid { user: Address, amount: i128, remaining: i128 },
}

/// What a notification is, as a mathematical value.
pub enum EventView {
    SubscriptionCreated {
        subscriber: Seq<char>,
        merchant: Seq<char>,
        token: Seq<char>,
        amount: i128,
        interval: u64,
    },
    SubscriptionCancelled { subscriber: Seq<char>, merchant: Seq<char> },
    PaymentCollected {
        subscriber: Seq<char>,
        merchant: Seq<char>,
        token: Seq<char>,
        amount: i128,
        credit_score: u32,
    },
    FinancingTriggered {
        subscriber: Seq<char>,
        merchant: Seq<char>,
        token: Seq<char>,
        amount: i128,
        debt: i128,
    },
    DebtRepaid { user: Seq<char>, amount: i128, remaining: i128 },
}

impl View for Event {
    type V = EventView;

    open spec fn view(&self) -> EventView {
        match self {
            Event::SubscriptionCreated { subscriber, merchant, token, amount, interval } => {
                EventView::SubscriptionCreated {
                    subscriber: subscriber@,
                    merchant: merchant@,
                    token: token@,
                    amount: *amount,
                    interval: *interval,
                }
            },
            Event::SubscriptionCancelled { subscriber, merchant } => {
                EventView::SubscriptionCancelled { subscriber: subscriber@, merchant: merchant@ }
            },
            Event::PaymentCollected { subscriber, merchant, token, amount, credit_score } => {
                EventView::PaymentCollected {
                    subscriber: subscriber@,
                    merchant: merchant@,
                    token: token@,
                    amount: *amount,
                    credit_score: *credit_score,
                }
            },
            Event::FinancingTriggered { subscriber, merchant, token, amount, debt } => {
                EventView::FinancingTriggered {
                    subscriber: subscriber@,
                    merchant: merchant@,
                    token: token@,
                    amount: *amount,
                    debt: *debt,
                }
            },
            Event::DebtRepaid { user, amount, remaining } => {
                EventView::DebtRepaid { user: user@, amount: *amount, remaining: *remaining }
            },
        }
    }
}

/// The notification of the creation of `created`.
pub open spec fn created_event(created: SubscriptionView) -> EventView {
    EventView::SubscriptionCreated {
        subscriber: created.subscriber,
        merchant: created.merchant,
        token: created.token,
        amount: created.amount,
        interval: created.interval,
    }
}

/// The notification of a payment: of a collection when the subscriber
/// paid, of a financing when the pool did.
pub open spec fn payment_event(payment: PaymentView) -> EventView {
    match payment.debt {
        None => EventView::PaymentCollected {
            subscriber: payment.subscription.subscriber,
            merchant: payment.subscription.merchant,
            token: payment.subscription.token,
            amount: payment.transfer.amount,
            credit_score: payment.subscription.credit_score,
        },
        Some(charged) => EventView::FinancingTriggered {
            subscriber: payment.subscription.subscriber,
            merchant: payment.subscription.merchant,
            token: payment.subscription.token,
            amount: payment.transfer.amount,
            debt: charged.amount,
        },
    }
}

/// The notification of a repayment.
pub open spec fn repayment_event(repayment: RepaymentView) -> EventView {
    EventView::DebtRepaid {
        user: repayment.transfer.from,
        amount: repayment.transfer.amount,
        remaining: repayment.remaining,
    }
}

impl Event {
    /// The name under which notifications of this kind are published.
    pub open spec fn spec_topic(self) -> &'static str {
        match self {
            Event::SubscriptionCreated { .. } => "sub_new",
            Event::SubscriptionCancelled { .. } => "sub_end",
            Event::PaymentCollected { .. } => "payment",
            Event::FinancingTriggered { .. } => "bnpl",
            Event::DebtRepaid { .. } => "repaid",
        }
    }

    /// The name under which notifications of this kind are published.
    pub fn topic(&self) -> (topic: &'static str)
        ensures
            topic == self.spec_topic(),
    {
        match self {
            Event::SubscriptionCreated { .. } => "sub_new",
            Event::SubscriptionCancelled { .. } => "sub_end",
            Event::PaymentCollected { .. } => "payment",
            Event::FinancingTriggered { .. } => "bnpl",
            Event::DebtRepaid { .. } => "repaid",
        }
    }

    /// The notification that belongs to the creation of `created`.
    pub fn subscription_created(created: &Subscription) -> (event: Event)
        ensures
            event@ == created_event(created@),
    {
        Event::SubscriptionCreated {
            subscriber: created.subscriber.clone(),
            merchant: created.merchant.clone(),
            token: created.token.clone(),
            amount: created.amount,
            interval: created.interval,
        }
    }

    /// The notification that belongs to the cancellation of the
    /// subscription of `subscriber` to `merchant`.
    pub fn subscription_cancelled(subscriber: &Address, merchant: &Address) -> (event: Event)
        ensures
            event@ == (EventView::SubscriptionCancelled {
                subscriber: subscriber@,
                merchant: merchant@,
            }),
    {
        Event::SubscriptionCancelled { subscriber: subscriber.clone(), merchant: merchant.clone() }
    }

    /// The notification that belongs to `payment`.
    pub fn payment(payment: &Payment) -> (event: Event)
        ensures
            event@ == payment_event(payment@),
    {
        let subscription = &payment.subscription;
        match &payment.debt {
            None => Event::PaymentCollected {
                subscriber: subscription.subscriber.clone(),
                merchant: subscription.merchant.clone(),
                token: subscription.token.clone(),
                amount: payment.transfer.amount,
                credit_score: subscription.credit_score,
            },
            Some(charged) => Event::FinancingTriggered {
                subscriber: subscription.subscriber.clone(),
                merchant: subscription.merchant.clone(),
                token: subscription.token.clone(),
                amount: payment.transfer.amount,
                debt: charged.amount,
            },
        }
    }

    /// The notification that belongs to `repayment`.
    pub fn repayment(repayment: &Repayment) -> (event: Event)
        ensures
            event@ == repayment_event(repayment@),
    {
        Event::DebtRepaid {
            user: repayment.transfer.from.clone(),
            amount: repayment.transfer.amount,
            remaining: repayment.remaining,
        }
    }
}

} // verus!
