use vstd::prelude::*;
use crate::address::Address;
use crate::data_key::{DataKey, DataKeyView};
use crate::config::{initialize, initialize_outcome, pool_of, AdminConfig, AdminConfigView};
use crate::debt::{repay, repay_outcome, Repayment, RepaymentView, UserDebt, UserDebtView};
use crate::engine::{collect, collect_outcome, Payment, PaymentView};
use crate::error::Error;
use crate::ledger::DebtLedger;
use crate::model::{done, lookup, outcome_of, view_of};
use crate::registry::SubscriptionRegistry;
use crate::subscription::{
    can_process, can_process_spec, cancel, cancel_outcome, create, create_outcome, Subscription,
    SubscriptionKey, SubscriptionView,
};

verus! {

/// Everything that the engine keeps, as a mathematical value: the
/// configuration, the subscriptions by pair and the debts by user.
pub struct ContractState {
    pub config: Option<AdminConfigView>,
    pub subscriptions: Map<(Seq<char>, Seq<char>), SubscriptionView>,
    pub debts: Map<Seq<char>, UserDebtView>,
}

impl ContractState {
    /// The state before anything has happened.
    pub open spec fn empty() -> ContractState {
        ContractState { config: None, subscriptions: Map::empty(), debts: Map::empty() }
    }

    /// Every subscription is kept under its own pair and has a positive
    /// amount and a positive interval, and every debt that is kept is
    /// positive.
    pub open spec fn valid(self) -> bool {
        &&& forall|key: (Seq<char>, Seq<char>)| #[trigger]
            self.subscriptions.contains_key(key) ==> self.subscriptions[key].key() == key
                && self.subscriptions[key].valid()
        &&& forall|user: Seq<char>| #[trigger]
            self.debts.contains_key(user) ==> self.debts[user].amount > 0
    }

    /// The subscription of `subscriber` to `merchant`, if there is one.
    pub open spec fn subscription(self, subscriber: Seq<char>, merchant: Seq<char>) -> Option<
        SubscriptionView,
    > {
        lookup(self.subscriptions, (subscriber, merchant))
    }

    /// The debt of `user`, if the user owes anything.
    pub open spec fn debt(self, user: Seq<char>) -> Option<UserDebtView> {
        lookup(self.debts, user)
    }

    /// The liquidity pool, once the configuration is set.
    pub open spec fn liquidity_pool(self) -> Option<Seq<char>> {
        pool_of(self.config)
    }

    /// Whether the state has an entry under `key`. The three entries of
    /// the configuration are there together or not at all.
    pub open spec fn holds(self, key: DataKeyView) -> bool {
        match key {
            DataKeyView::Subscription(pair) => self.subscriptions.contains_key(pair),
            DataKeyView::UserDebt(user) => self.debts.contains_key(user),
            DataKeyView::LiquidityPool => self.config is Some,
            DataKeyView::Admin => self.config is Some,
            DataKeyView::Initialized => self.config is Some,
        }
    }

    /// What `initialize` returns in this state.
    pub open spec fn initialize(
        self,
        authorized: bool,
        admin: Seq<char>,
        liquidity_pool: Seq<char>,
    ) -> Result<AdminConfigView, Error> {
        initialize_outcome(self.config, authorized, admin, liquidity_pool)
    }

    /// The state that `initialize` leaves.
    pub open spec fn after_initialize(
        self,
        authorized: bool,
        admin: Seq<char>,
        liquidity_pool: Seq<char>,
    ) -> ContractState {
        match self.initialize(authorized, admin, liquidity_pool) {
            Ok(config) => ContractState { config: Some(config), ..self },
            Err(_) => self,
        }
    }

    /// What `create_subscription` returns in this state.
    pub open spec fn create(
        self,
        authorized: bool,
        subscriber: Seq<char>,
        merchant: Seq<char>,
        token: Seq<char>,
        amount: i128,
        interval: u64,
    ) -> Result<SubscriptionView, Error> {
        create_outcome(
            self.subscription(subscriber, merchant),
            authorized,
            subscriber,
            merchant,
            token,
            amount,
            interval,
        )
    }

    /// The state that `create_subscription` leaves.
    pub open spec fn after_create(
        self,
        authorized: bool,
        subscriber: Seq<char>,
        merchant: Seq<char>,
        token: Seq<char>,
        amount: i128,
        interval: u64,
    ) -> ContractState {
        match self.create(authorized, subscriber, merchant, token, amount, interval) {
            Ok(created) => ContractState {
                subscriptions: self.subscriptions.insert((subscriber, merchant), created),
                ..self
            },
            Err(_) => self,
        }
    }

    /// What `collect_payment` returns in this state.
    pub open spec fn collect(
        self,
        subscriber: Seq<char>,
        merchant: Seq<char>,
        now: u64,
        balance: i128,
    ) -> Result<PaymentView, Error> {
        collect_outcome(
            self.subscription(subscriber, merchant),
            self.debt(subscriber),
            self.liquidity_pool(),
            now,
            balance,
        )
    }

    /// The state that `collect_payment` leaves.
    pub open spec fn after_collect(
        self,
        subscriber: Seq<char>,
        merchant: Seq<char>,
        now: u64,
        balance: i128,
    ) -> ContractState {
        match self.collect(subscriber, merchant, now, balance) {
            Ok(payment) => ContractState {
                subscriptions: self.subscriptions.insert(
                    (subscriber, merchant),
                    payment.subscription,
                ),
                debts: match payment.debt {
                    Some(charged) => self.debts.insert(subscriber, charged),
                    None => self.debts,
                },
                ..self
            },
            Err(_) => self,
        }
    }

    /// What `cancel_subscription` does in this state: the record that it
    /// writes, or its error.
    pub open spec fn cancel(self, authorized: bool, subscriber: Seq<char>, merchant: Seq<char>)
        -> Result<SubscriptionView, Error> {
        cancel_outcome(self.subscription(subscriber, merchant), authorized)
    }

    /// The state that `cancel_subscription` leaves.
    pub open spec fn after_cancel(
        self,
        authorized: bool,
        subscriber: Seq<char>,
        merchant: Seq<char>,
    ) -> ContractState {
        match self.cancel(authorized, subscriber, merchant) {
            Ok(closed) => ContractState {
                subscriptions: self.subscriptions.insert((subscriber, merchant), closed),
                ..self
            },
            Err(_) => self,
        }
    }

    /// What `repay_debt` returns in this state.
    pub open spec fn repay(self, authorized: bool, user: Seq<char>, amount: i128) -> Result<
        RepaymentView,
        Error,
    > {
        repay_outcome(self.debt(user), self.liquidity_pool(), authorized, user, amount)
    }

    /// The state that `repay_debt` leaves.
    pub open spec fn after_repay(self, authorized: bool, user: Seq<char>, amount: i128)
        -> ContractState {
        match self.repay(authorized, user, amount) {
            Ok(repayment) => ContractState {
                debts: match repayment.debt {
                    Some(kept) => self.debts.insert(user, kept),
                    None => self.debts.remove(user),
                },
                ..self
            },
            Err(_) => self,
        }
    }

    /// What `get_subscription` returns in this state.
    pub open spec fn find_subscription(self, subscriber: Seq<char>, merchant: Seq<char>)
        -> Result<SubscriptionView, Error> {
        match self.subscription(subscriber, merchant) {
            Some(subscription) => Ok(subscription),
            None => Err(Error::SubscriptionNotFound),
        }
    }

    /// What `get_credit_score` returns in this state.
    pub open spec fn credit_score(self, subscriber: Seq<char>, merchant: Seq<char>) -> Result<
        u32,
        Error,
    > {
        match self.subscription(subscriber, merchant) {
            Some(subscription) => Ok(subscription.credit_score),
            None => Err(Error::SubscriptionNotFound),
        }
    }

    /// What `get_liquidity_pool` returns in this state.
    pub open spec fn find_liquidity_pool(self) -> Result<Seq<char>, Error> {
        match self.liquidity_pool() {
            Some(pool) => Ok(pool),
            None => Err(Error::NotInitialized),
        }
    }
}

/// The engine with all that it keeps.
///
/// Every operation is one unit of work: it either returns `Ok`, having
/// made every change that belongs to it, or returns an error and has
/// changed nothing. What the engine cannot do itself it takes and gives
/// as plain values: the time, the subscriber's balance and the word of the
/// party that has to authorize are arguments, and the movement of funds
/// that belongs to an operation is in its result.
#[derive(Debug)]
pub struct SoroSubContract {
    config: Option<AdminConfig>,
    subscriptions: SubscriptionRegistry,
    debts: DebtLedger,
}

impl View for SoroSubContract {
    type V = ContractState;

    closed spec fn view(&self) -> ContractState {
        ContractState {
            config: view_of(self.config),
            subscriptions: self.subscriptions@,
            debts: self.debts@,
        }
    }
}

impl SoroSubContract {
    /// The records are kept as the registry and the ledger demand.
    pub closed spec fn inv(&self) -> bool {
        self.subscriptions.wf() && self.debts.wf()
    }

    /// The engine is in order: its records are kept properly and what they
    /// say is valid.
    pub open spec fn wf(&self) -> bool {
        self.inv() && self@.valid()
    }

    /// An engine that holds nothing and is not configured.
    pub fn new() -> (contract: SoroSubContract)
        ensures
            contract.wf(),
            contract@ == ContractState::empty(),
    {
        SoroSubContract {
            config: None,
            subscriptions: SubscriptionRegistry::new(),
            debts: DebtLedger::new(),
        }
    }

    /// Sets the administrator and the liquidity pool. This works once:
    /// every later call is refused. `authorized` says whether `admin` has
    /// authorized the call.
    pub fn initialize(&mut self, authorized: bool, admin: &Address, liquidity_pool: &Address) -> (result:
        Result<(), Error>)
        requires
            old(self).wf(),
        ensures
            final(self).wf(),
            result == done(old(self)@.initialize(authorized, admin@, liquidity_pool@)),
            final(self)@ == old(self)@.after_initialize(authorized, admin@, liquidity_pool@),
    {
        match initialize(self.config.as_ref(), authorized, admin, liquidity_pool) {
            Ok(config) => {
                self.config = Some(config);
                Ok(())
            },
            Err(error) => Err(error),
        }
    }

    /// Creates the subscription of `subscriber` to `merchant`: `amount` of
    /// `token`, at most once per `interval` seconds. `authorized` says
    /// whether the subscriber has authorized the call. A cancelled
    /// subscription of the same pair is replaced, and its history with it.
    pub fn create_subscription(
        &mut self,
        authorized: bool,
        subscriber: &Address,
        merchant: &Address,
        token: &Address,
        amount: i128,
        interval: u64,
    ) -> (result: Result<Subscription, Error>)
        requires
            old(self).wf(),
        ensures
            final(self).wf(),
            outcome_of(result) == old(self)@.create(
                authorized,
                subscriber@,
                merchant@,
                token@,
                amount,
                interval,
            ),
            final(self)@ == old(self)@.after_create(
                authorized,
                subscriber@,
                merchant@,
                token@,
                amount,
                interval,
            ),
    {
        let key = SubscriptionKey::new(subscriber, merchant);
        let existing = self.subscriptions.get(&key);
        match create(existing, authorized, subscriber, merchant, token, amount, interval) {
            Ok(created) => {
                self.subscriptions.put(created.clone());
                Ok(created)
            },
            Err(error) => Err(error),
        }
    }

    /// Collects the payment that is due from `subscriber` to `merchant`.
    /// `now` is the time and `balance` what the subscriber holds of the
    /// subscription's token. Anyone may call this. The transfer in the
    /// payment returned is the one movement of funds that belongs to the
    /// call.
    pub fn collect_payment(
        &mut self,
        subscriber: &Address,
        merchant: &Address,
        now: u64,
        balance: i128,
    ) -> (result: Result<Payment, Error>)
        requires
            old(self).wf(),
        ensures
            final(self).wf(),
            outcome_of(result) == old(self)@.collect(subscriber@, merchant@, now, balance),
            final(self)@ == old(self)@.after_collect(subscriber@, merchant@, now, balance),
    {
        let key = SubscriptionKey::new(subscriber, merchant);
        let existing = self.subscriptions.get(&key);
        let debt = self.debts.get(subscriber);
        let pool = match &self.config {
            Some(config) => Some(&config.liquidity_pool),
            None => None,
        };
        match collect(existing, debt, pool, now, balance) {
            Ok(payment) => {
                self.subscriptions.put(payment.subscription.clone());
                match &payment.debt {
                    Some(charged) => {
                        self.debts.put(subscriber, charged.clone());
                    },
                    None => {},
                }
                Ok(payment)
            },
            Err(error) => Err(error),
        }
    }

    /// Cancels the subscription of `subscriber` to `merchant`. `authorized`
    /// says whether the subscriber has authorized the call. Cancelling a
    /// cancelled subscription goes through and changes nothing.
    pub fn cancel_subscription(&mut self, authorized: bool, subscriber: &Address, merchant: &Address)
        -> (result: Result<(), Error>)
        requires
            old(self).wf(),
        ensures
            final(self).wf(),
            result == done(old(self)@.cancel(authorized, subscriber@, merchant@)),
            final(self)@ == old(self)@.after_cancel(authorized, subscriber@, merchant@),
    {
        let key = SubscriptionKey::new(subscriber, merchant);
        let existing = self.subscriptions.get(&key);
        match cancel(existing, authorized) {
            Ok(closed) => {
                self.subscriptions.put(closed);
                Ok(())
            },
            Err(error) => Err(error),
        }
    }

    /// The subscription of `subscriber` to `merchant`.
    pub fn get_subscription(&self, subscriber: &Address, merchant: &Address) -> (result: Result<
        Subscription,
        Error,
    >)
        requires
            self.wf(),
        ensures
            outcome_of(result) == self@.find_subscription(subscriber@, merchant@),
    {
        let key = SubscriptionKey::new(subscriber, merchant);
        match self.subscriptions.get(&key) {
            Some(subscription) => Ok(subscription.clone()),
            None => Err(Error::SubscriptionNotFound),
        }
    }

    /// Whether a payment from `subscriber` to `merchant` can be collected
    /// at `now`: there is an active subscription, and it has never been
    /// paid or its interval has passed.
    pub fn can_process_payment(&self, subscriber: &Address, merchant: &Address, now: u64) -> (ready:
        bool)
        requires
            self.wf(),
        ensures
            ready == can_process_spec(self@.subscription(subscriber@, merchant@), now),
    {
        let key = SubscriptionKey::new(subscriber, merchant);
        can_process(self.subscriptions.get(&key), now)
    }

    /// What `user` owes, or `None` if the user owes nothing.
    pub fn get_user_debt(&self, user: &Address) -> (debt: Option<UserDebt>)
        requires
            self.wf(),
        ensures
            view_of(debt) == self@.debt(user@),
    {
        match self.debts.get(user) {
            Some(debt) => Some(debt.clone()),
            None => None,
        }
    }

    /// Repays `amount` of what `user` owes. `authorized` says whether the
    /// user has authorized the call. The transfer in the repayment returned
    /// moves the amount from the user to the liquidity pool.
    pub fn repay_debt(&mut self, authorized: bool, user: &Address, amount: i128) -> (result: Result<
        Repayment,
        Error,
    >)
        requires
            old(self).wf(),
        ensures
            final(self).wf(),
            outcome_of(result) == old(self)@.repay(authorized, user@, amount),
            final(self)@ == old(self)@.after_repay(authorized, user@, amount),
    {
        let existing = self.debts.get(user);
        let pool = match &self.config {
            Some(config) => Some(&config.liquidity_pool),
            None => None,
        };
        match repay(existing, pool, authorized, user, amount) {
            Ok(repayment) => {
                match &repayment.debt {
                    Some(kept) => {
                        self.debts.put(user, kept.clone());
                    },
                    None => {
                        self.debts.remove(user);
                    },
                }
                Ok(repayment)
            },
            Err(error) => Err(error),
        }
    }

    /// The credit score of the subscription of `subscriber` to `merchant`.
    pub fn get_credit_score(&self, subscriber: &Address, merchant: &Address) -> (result: Result<
        u32,
        Error,
    >)
        requires
            self.wf(),
        ensures
            result == self@.credit_score(subscriber@, merchant@),
    {
        let key = SubscriptionKey::new(subscriber, merchant);
        match self.subscriptions.get(&key) {
            Some(subscription) => Ok(subscription.credit_score),
            None => Err(Error::SubscriptionNotFound),
        }
    }

    /// The liquidity pool.
    pub fn get_liquidity_pool(&self) -> (result: Result<Address, Error>)
        ensures
            outcome_of(result) == self@.find_liquidity_pool(),
    {
        match &self.config {
            Some(config) => Ok(config.liquidity_pool.clone()),
            None => Err(Error::NotInitialized),
        }
    }

    /// Whether the engine keeps an entry under `key`.
    pub fn has(&self, key: &DataKey) -> (held: bool)
        requires
            self.wf(),
        ensures
            held == self@.holds(key@),
    {
        match key {
            DataKey::Subscription(pair) => self.subscriptions.get(pair).is_some(),
            DataKey::UserDebt(user) => self.debts.get(user).is_some(),
            DataKey::LiquidityPool => self.config.is_some(),
            DataKey::Admin => self.config.is_some(),
            DataKey::Initialized => self.config.is_some(),
        }
    }

    /// Whether the configuration has been set.
    pub fn is_initialized(&self) -> (initialized: bool)
        ensures
            initialized == self@.holds(DataKeyView::Initialized),
    {
        self.config.is_some()
    }
}

impl Clone for SoroSubContract {
    fn clone(&self) -> (copy: SoroSubContract)
        ensures
            copy@ == self@,
            self.wf() ==> copy.wf(),
    {
        SoroSubContract {
            config: match &self.config {
                Some(config) => Some(config.clone()),
                None => None,
            },
            subscriptions: self.subscriptions.clone(),
            debts: self.debts.clone(),
        }
    }
}

} // verus!
