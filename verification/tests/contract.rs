use soroban_sdk::testutils::{Address as _, EnvTestConfig, Ledger, LedgerInfo};
use soroban_sdk::token::{StellarAssetClient, TokenClient};
use soroban_sdk::Env;
use sorosub::{Address, SoroSubContract, Subscription, TransferMode, UserDebt};

/// An environment that keeps no record of the test on disk.
fn new_env() -> Env {
    Env::new_with_config(EnvTestConfig { capture_snapshot_at_drop: false })
}

/// Creates a token and returns the two clients of it.
fn create_token<'a>(
    env: &Env,
    admin: &soroban_sdk::Address,
) -> (TokenClient<'a>, StellarAssetClient<'a>) {
    let contract_address = env.register_stellar_asset_contract_v2(admin.clone());
    (
        TokenClient::new(env, &contract_address.address()),
        StellarAssetClient::new(env, &contract_address.address()),
    )
}

/// Sets the ledger to its state at the start of a test.
fn setup_ledger(env: &Env) {
    env.ledger().set(LedgerInfo {
        timestamp: 1000,
        protocol_version: 25,
        sequence_number: 100,
        network_id: Default::default(),
        base_reserve: 10,
        min_temp_entry_ttl: 100,
        min_persistent_entry_ttl: 100,
        max_entry_ttl: 10000,
    });
}

/// Moves the ledger's clock forward.
fn advance_time(env: &Env, seconds: u64) {
    let current = env.ledger().timestamp();
    let current_seq = env.ledger().sequence();
    env.ledger().set(LedgerInfo {
        timestamp: current + seconds,
        protocol_version: 25,
        sequence_number: current_seq + 1,
        network_id: Default::default(),
        base_reserve: 10,
        min_temp_entry_ttl: 100,
        min_persistent_entry_ttl: 100,
        max_entry_ttl: 10000,
    });
}

/// The engine's address for an account of the ledger.
fn key(address: &soroban_sdk::Address) -> Address {
    Address::new(&address.to_string().to_string())
}

/// The account of the ledger that an address of the engine names.
fn account(env: &Env, address: &Address) -> soroban_sdk::Address {
    soroban_sdk::Address::from_str(env, address.as_str())
}

/// The engine together with the ledger that moves the funds for it. Every
/// call is one unit of work: the engine's state is replaced only after the
/// ledger has made the transfer, and a refusal panics with its message.
struct Client<'a> {
    env: &'a Env,
    id: soroban_sdk::Address,
    engine: SoroSubContract,
}

impl<'a> Client<'a> {
    fn new(env: &'a Env) -> Client<'a> {
        Client { env, id: soroban_sdk::Address::generate(env), engine: SoroSubContract::new() }
    }

    fn initialize(&mut self, admin: &soroban_sdk::Address, liquidity_pool: &soroban_sdk::Address) {
        if let Err(error) = self.engine.initialize(true, &key(admin), &key(liquidity_pool)) {
            panic!("{}", error.message());
        }
    }

    fn create_subscription(
        &mut self,
        subscriber: &soroban_sdk::Address,
        merchant: &soroban_sdk::Address,
        token: &soroban_sdk::Address,
        amount: &i128,
        interval: &u64,
    ) -> Subscription {
        match self.engine.create_subscription(
            true,
            &key(subscriber),
            &key(merchant),
            &key(token),
            *amount,
            *interval,
        ) {
            Ok(subscription) => subscription,
            Err(error) => panic!("{}", error.message()),
        }
    }

    fn collect_payment(
        &mut self,
        subscriber: &soroban_sdk::Address,
        merchant: &soroban_sdk::Address,
    ) -> i128 {
        let now = self.env.ledger().timestamp();
        let balance = match self.engine.get_subscription(&key(subscriber), &key(merchant)) {
            Ok(subscription) => {
                TokenClient::new(self.env, &account(self.env, &subscription.token))
                    .balance(subscriber)
            }
            Err(_) => 0,
        };
        let mut staged = self.engine.clone();
        match staged.collect_payment(&key(subscriber), &key(merchant), now, balance) {
            Ok(payment) => {
                let transfer = &payment.transfer;
                assert_eq!(transfer.mode, TransferMode::Allowance);
                TokenClient::new(self.env, &account(self.env, &transfer.token)).transfer_from(
                    &self.id,
                    &account(self.env, &transfer.from),
                    &account(self.env, &transfer.to),
                    &transfer.amount,
                );
                self.engine = staged;
                payment.amount()
            }
            Err(error) => panic!("{}", error.message()),
        }
    }

    fn cancel_subscription(
        &mut self,
        subscriber: &soroban_sdk::Address,
        merchant: &soroban_sdk::Address,
    ) {
        if let Err(error) = self.engine.cancel_subscription(true, &key(subscriber), &key(merchant))
        {
            panic!("{}", error.message());
        }
    }

    fn get_subscription(
        &self,
        subscriber: &soroban_sdk::Address,
        merchant: &soroban_sdk::Address,
    ) -> Subscription {
        match self.engine.get_subscription(&key(subscriber), &key(merchant)) {
            Ok(subscription) => subscription,
            Err(error) => panic!("{}", error.message()),
        }
    }

    fn can_process_payment(
        &self,
        subscriber: &soroban_sdk::Address,
        merchant: &soroban_sdk::Address,
    ) -> bool {
        self.engine.can_process_payment(
            &key(subscriber),
            &key(merchant),
            self.env.ledger().timestamp(),
        )
    }

    fn get_user_debt(&self, user: &soroban_sdk::Address) -> Option<UserDebt> {
        self.engine.get_user_debt(&key(user))
    }

    fn repay_debt(&mut self, user: &soroban_sdk::Address, amount: &i128) -> i128 {
        let mut staged = self.engine.clone();
        match staged.repay_debt(true, &key(user), *amount) {
            Ok(repayment) => {
                let transfer = &repayment.transfer;
                assert_eq!(transfer.mode, TransferMode::Direct);
                TokenClient::new(self.env, &account(self.env, &transfer.token)).transfer(
                    &account(self.env, &transfer.from),
                    &account(self.env, &transfer.to),
                    &transfer.amount,
                );
                self.engine = staged;
                repayment.remaining
            }
            Err(error) => panic!("{}", error.message()),
        }
    }

    fn get_credit_score(
        &self,
        subscriber: &soroban_sdk::Address,
        merchant: &soroban_sdk::Address,
    ) -> u32 {
        match self.engine.get_credit_score(&key(subscriber), &key(merchant)) {
            Ok(score) => score,
            Err(error) => panic!("{}", error.message()),
        }
    }

    fn get_liquidity_pool(&self) -> soroban_sdk::Address {
        match self.engine.get_liquidity_pool() {
            Ok(pool) => account(self.env, &pool),
            Err(error) => panic!("{}", error.message()),
        }
    }

    fn is_initialized(&self) -> bool {
        self.engine.is_initialized()
    }
}

/// An initialized engine and the address under which it spends allowances.
fn setup_contract<'a>(
    env: &'a Env,
    liquidity_pool: &soroban_sdk::Address,
) -> (soroban_sdk::Address, Client<'a>) {
    let admin = soroban_sdk::Address::generate(env);
    let mut client = Client::new(env);
    client.initialize(&admin, liquidity_pool);
    (client.id.clone(), client)
}

#[test]
fn test_create_subscription() {
    let env = new_env();
    env.mock_all_auths();
    setup_ledger(&env);

    let subscriber = soroban_sdk::Address::generate(&env);
    let merchant = soroban_sdk::Address::generate(&env);
    let admin = soroban_sdk::Address::generate(&env);
    let liquidity_pool = soroban_sdk::Address::generate(&env);

    let (token_client, _) = create_token(&env, &admin);
    let token_address = token_client.address.clone();

    let (_, mut client) = setup_contract(&env, &liquidity_pool);

    let amount: i128 = 100_0000000;
    let interval: u64 = 30 * 24 * 60 * 60;

    let subscription =
        client.create_subscription(&subscriber, &merchant, &token_address, &amount, &interval);

    assert_eq!(subscription.subscriber, key(&subscriber));
    assert_eq!(subscription.merchant, key(&merchant));
    assert_eq!(subscription.token, key(&token_address));
    assert_eq!(subscription.amount, amount);
    assert_eq!(subscription.interval, interval);
    assert_eq!(subscription.last_payment_time, 0);
    assert!(subscription.is_active);
    assert_eq!(subscription.credit_score, 0);
}

#[test]
fn test_process_payment() {
    let env = new_env();
    env.mock_all_auths();
    setup_ledger(&env);

    let subscriber = soroban_sdk::Address::generate(&env);
    let merchant = soroban_sdk::Address::generate(&env);
    let admin = soroban_sdk::Address::generate(&env);
    let liquidity_pool = soroban_sdk::Address::generate(&env);

    let (token_client, stellar_client) = create_token(&env, &admin);
    let token_address = token_client.address.clone();

    let amount: i128 = 100_0000000;
    stellar_client.mint(&subscriber, &(amount * 10));

    let (contract_id, mut client) = setup_contract(&env, &liquidity_pool);

    let expiration_ledger = env.ledger().sequence() + 1000;
    token_client.approve(&subscriber, &contract_id, &(amount * 10), &expiration_ledger);

    let interval: u64 = 30 * 24 * 60 * 60;
    client.create_subscription(&subscriber, &merchant, &token_address, &amount, &interval);

    let paid = client.collect_payment(&subscriber, &merchant);
    assert_eq!(paid, amount);

    assert_eq!(token_client.balance(&subscriber), amount * 10 - amount);
    assert_eq!(token_client.balance(&merchant), amount);

    let subscription = client.get_subscription(&subscriber, &merchant);
    assert_eq!(subscription.credit_score, 10);
}

#[test]
#[should_panic(expected = "Payment interval has not passed yet")]
fn test_process_payment_too_early() {
    let env = new_env();
    env.mock_all_auths();
    setup_ledger(&env);

    let subscriber = soroban_sdk::Address::generate(&env);
    let merchant = soroban_sdk::Address::generate(&env);
    let admin = soroban_sdk::Address::generate(&env);
    let liquidity_pool = soroban_sdk::Address::generate(&env);

    let (token_client, stellar_client) = create_token(&env, &admin);
    let token_address = token_client.address.clone();

    let amount: i128 = 100_0000000;
    stellar_client.mint(&subscriber, &(amount * 10));

    let (contract_id, mut client) = setup_contract(&env, &liquidity_pool);

    let expiration_ledger = env.ledger().sequence() + 1000;
    token_client.approve(&subscriber, &contract_id, &(amount * 10), &expiration_ledger);

    let interval: u64 = 30 * 24 * 60 * 60;
    client.create_subscription(&subscriber, &merchant, &token_address, &amount, &interval);

    client.collect_payment(&subscriber, &merchant);

    advance_time(&env, 24 * 60 * 60);

    client.collect_payment(&subscriber, &merchant);
}

#[test]
fn test_process_payment_after_interval() {
    let env = new_env();
    env.mock_all_auths();
    setup_ledger(&env);

    let subscriber = soroban_sdk::Address::generate(&env);
    let merchant = soroban_sdk::Address::generate(&env);
    let admin = soroban_sdk::Address::generate(&env);
    let liquidity_pool = soroban_sdk::Address::generate(&env);

    let (token_client, stellar_client) = create_token(&env, &admin);
    let token_address = token_client.address.clone();

    let amount: i128 = 100_0000000;
    stellar_client.mint(&subscriber, &(amount * 10));

    let (contract_id, mut client) = setup_contract(&env, &liquidity_pool);

    let expiration_ledger = env.ledger().sequence() + 1000;
    token_client.approve(&subscriber, &contract_id, &(amount * 10), &expiration_ledger);

    let interval: u64 = 30 * 24 * 60 * 60;
    client.create_subscription(&subscriber, &merchant, &token_address, &amount, &interval);

    client.collect_payment(&subscriber, &merchant);
    assert_eq!(token_client.balance(&merchant), amount);

    advance_time(&env, 31 * 24 * 60 * 60);

    client.collect_payment(&subscriber, &merchant);
    assert_eq!(token_client.balance(&merchant), amount * 2);
}

#[test]
fn test_cancel_subscription() {
    let env = new_env();
    env.mock_all_auths();
    setup_ledger(&env);

    let subscriber = soroban_sdk::Address::generate(&env);
    let merchant = soroban_sdk::Address::generate(&env);
    let admin = soroban_sdk::Address::generate(&env);
    let liquidity_pool = soroban_sdk::Address::generate(&env);

    let (token_client, _) = create_token(&env, &admin);
    let token_address = token_client.address.clone();

    let (_, mut client) = setup_contract(&env, &liquidity_pool);

    let amount: i128 = 100_0000000;
    let interval: u64 = 30 * 24 * 60 * 60;
    client.create_subscription(&subscriber, &merchant, &token_address, &amount, &interval);

    client.cancel_subscription(&subscriber, &merchant);

    let subscription = client.get_subscription(&subscriber, &merchant);
    assert!(!subscription.is_active);
}

#[test]
#[should_panic(expected = "Subscription is not active")]
fn test_payment_after_cancel() {
    let env = new_env();
    env.mock_all_auths();
    setup_ledger(&env);

    let subscriber = soroban_sdk::Address::generate(&env);
    let merchant = soroban_sdk::Address::generate(&env);
    let admin = soroban_sdk::Address::generate(&env);
    let liquidity_pool = soroban_sdk::Address::generate(&env);

    let (token_client, stellar_client) = create_token(&env, &admin);
    let token_address = token_client.address.clone();

    let amount: i128 = 100_0000000;
    stellar_client.mint(&subscriber, &(amount * 10));

    let (contract_id, mut client) = setup_contract(&env, &liquidity_pool);

    let expiration_ledger = env.ledger().sequence() + 1000;
    token_client.approve(&subscriber, &contract_id, &(amount * 10), &expiration_ledger);

    let interval: u64 = 30 * 24 * 60 * 60;
    client.create_subscription(&subscriber, &merchant, &token_address, &amount, &interval);
    client.cancel_subscription(&subscriber, &merchant);

    client.collect_payment(&subscriber, &merchant);
}

#[test]
fn test_can_process_payment() {
    let env = new_env();
    env.mock_all_auths();
    setup_ledger(&env);

    let subscriber = soroban_sdk::Address::generate(&env);
    let merchant = soroban_sdk::Address::generate(&env);
    let admin = soroban_sdk::Address::generate(&env);
    let liquidity_pool = soroban_sdk::Address::generate(&env);

    let (token_client, stellar_client) = create_token(&env, &admin);
    let token_address = token_client.address.clone();

    let amount: i128 = 100_0000000;
    stellar_client.mint(&subscriber, &(amount * 10));

    let (contract_id, mut client) = setup_contract(&env, &liquidity_pool);

    let expiration_ledger = env.ledger().sequence() + 1000;
    token_client.approve(&subscriber, &contract_id, &(amount * 10), &expiration_ledger);

    let interval: u64 = 30 * 24 * 60 * 60;
    client.create_subscription(&subscriber, &merchant, &token_address, &amount, &interval);

    assert!(client.can_process_payment(&subscriber, &merchant));

    client.collect_payment(&subscriber, &merchant);

    let sub = client.get_subscription(&subscriber, &merchant);
    assert!(sub.last_payment_time > 0);

    assert!(!client.can_process_payment(&subscriber, &merchant));

    advance_time(&env, 31 * 24 * 60 * 60);

    assert!(client.can_process_payment(&subscriber, &merchant));
}

#[test]
fn test_credit_score_increment() {
    let env = new_env();
    env.mock_all_auths();
    setup_ledger(&env);

    let subscriber = soroban_sdk::Address::generate(&env);
    let merchant = soroban_sdk::Address::generate(&env);
    let admin = soroban_sdk::Address::generate(&env);
    let liquidity_pool = soroban_sdk::Address::generate(&env);

    let (token_client, stellar_client) = create_token(&env, &admin);
    let token_address = token_client.address.clone();

    let amount: i128 = 100_0000000;
    stellar_client.mint(&subscriber, &(amount * 20));

    let (contract_id, mut client) = setup_contract(&env, &liquidity_pool);

    let expiration_ledger = env.ledger().sequence() + 5000;
    token_client.approve(&subscriber, &contract_id, &(amount * 20), &expiration_ledger);

    let interval: u64 = 30 * 24 * 60 * 60;
    client.create_subscription(&subscriber, &merchant, &token_address, &amount, &interval);

    assert_eq!(client.get_credit_score(&subscriber, &merchant), 0);

    for i in 1..=6 {
        client.collect_payment(&subscriber, &merchant);
        assert_eq!(client.get_credit_score(&subscriber, &merchant), i * 10);

        advance_time(&env, 31 * 24 * 60 * 60);
    }

    assert_eq!(client.get_credit_score(&subscriber, &merchant), 60);
}

#[test]
fn test_bnpl_trigger() {
    let env = new_env();
    env.mock_all_auths();
    setup_ledger(&env);

    let subscriber = soroban_sdk::Address::generate(&env);
    let merchant = soroban_sdk::Address::generate(&env);
    let admin = soroban_sdk::Address::generate(&env);
    let liquidity_pool = soroban_sdk::Address::generate(&env);

    let (token_client, stellar_client) = create_token(&env, &admin);
    let token_address = token_client.address.clone();

    let amount: i128 = 100_0000000;

    stellar_client.mint(&subscriber, &(amount * 10));
    stellar_client.mint(&liquidity_pool, &(amount * 100));

    let (contract_id, mut client) = setup_contract(&env, &liquidity_pool);

    let expiration_ledger = env.ledger().sequence() + 5000;
    token_client.approve(&subscriber, &contract_id, &(amount * 20), &expiration_ledger);
    token_client.approve(&liquidity_pool, &contract_id, &(amount * 100), &expiration_ledger);

    let interval: u64 = 30 * 24 * 60 * 60;
    client.create_subscription(&subscriber, &merchant, &token_address, &amount, &interval);

    for _ in 0..6 {
        client.collect_payment(&subscriber, &merchant);
        advance_time(&env, 31 * 24 * 60 * 60);
    }

    assert_eq!(client.get_credit_score(&subscriber, &merchant), 60);

    let remaining_balance = token_client.balance(&subscriber);
    if remaining_balance > 0 {
        token_client.transfer(&subscriber, &admin, &remaining_balance);
    }
    assert_eq!(token_client.balance(&subscriber), 0);

    let merchant_balance_before = token_client.balance(&merchant);

    let paid = client.collect_payment(&subscriber, &merchant);
    assert_eq!(paid, amount);

    assert_eq!(token_client.balance(&merchant), merchant_balance_before + amount);

    let debt = client.get_user_debt(&subscriber).expect("Debt should exist");
    assert_eq!(debt.amount, amount);
}

#[test]
#[should_panic(expected = "Insufficient balance and credit score too low for BNPL")]
fn test_bnpl_fails_low_credit() {
    let env = new_env();
    env.mock_all_auths();
    setup_ledger(&env);

    let subscriber = soroban_sdk::Address::generate(&env);
    let merchant = soroban_sdk::Address::generate(&env);
    let admin = soroban_sdk::Address::generate(&env);
    let liquidity_pool = soroban_sdk::Address::generate(&env);

    let (token_client, stellar_client) = create_token(&env, &admin);
    let token_address = token_client.address.clone();

    let amount: i128 = 100_0000000;

    stellar_client.mint(&subscriber, &(amount * 2));

    let (contract_id, mut client) = setup_contract(&env, &liquidity_pool);

    let expiration_ledger = env.ledger().sequence() + 5000;
    token_client.approve(&subscriber, &contract_id, &(amount * 10), &expiration_ledger);

    let interval: u64 = 30 * 24 * 60 * 60;
    client.create_subscription(&subscriber, &merchant, &token_address, &amount, &interval);

    for _ in 0..2 {
        client.collect_payment(&subscriber, &merchant);
        advance_time(&env, 31 * 24 * 60 * 60);
    }

    assert_eq!(client.get_credit_score(&subscriber, &merchant), 20);

    assert_eq!(token_client.balance(&subscriber), 0);

    client.collect_payment(&subscriber, &merchant);
}

#[test]
fn test_repay_debt() {
    let env = new_env();
    env.mock_all_auths();
    setup_ledger(&env);

    let subscriber = soroban_sdk::Address::generate(&env);
    let merchant = soroban_sdk::Address::generate(&env);
    let admin = soroban_sdk::Address::generate(&env);
    let liquidity_pool = soroban_sdk::Address::generate(&env);

    let (token_client, stellar_client) = create_token(&env, &admin);
    let token_address = token_client.address.clone();

    let amount: i128 = 100_0000000;

    stellar_client.mint(&subscriber, &(amount * 10));
    stellar_client.mint(&liquidity_pool, &(amount * 100));

    let (contract_id, mut client) = setup_contract(&env, &liquidity_pool);

    let expiration_ledger = env.ledger().sequence() + 5000;
    token_client.approve(&subscriber, &contract_id, &(amount * 20), &expiration_ledger);
    token_client.approve(&liquidity_pool, &contract_id, &(amount * 100), &expiration_ledger);

    let interval: u64 = 30 * 24 * 60 * 60;
    client.create_subscription(&subscriber, &merchant, &token_address, &amount, &interval);

    for _ in 0..6 {
        client.collect_payment(&subscriber, &merchant);
        advance_time(&env, 31 * 24 * 60 * 60);
    }

    let remaining = token_client.balance(&subscriber);
    if remaining > 0 {
        token_client.transfer(&subscriber, &admin, &remaining);
    }

    client.collect_payment(&subscriber, &merchant);

    let debt = client.get_user_debt(&subscriber).expect("Debt should exist");
    assert_eq!(debt.amount, amount);

    stellar_client.mint(&subscriber, &amount);

    let remaining_debt = client.repay_debt(&subscriber, &(amount / 2));
    assert_eq!(remaining_debt, amount / 2);

    let debt_after = client.get_user_debt(&subscriber).expect("Debt should exist");
    assert_eq!(debt_after.amount, amount / 2);

    let final_debt = client.repay_debt(&subscriber, &(amount / 2));
    assert_eq!(final_debt, 0);

    assert!(client.get_user_debt(&subscriber).is_none());
}

#[test]
fn test_initialization() {
    let env = new_env();
    env.mock_all_auths();
    setup_ledger(&env);

    let admin = soroban_sdk::Address::generate(&env);
    let liquidity_pool = soroban_sdk::Address::generate(&env);

    let mut client = Client::new(&env);

    assert!(!client.is_initialized());

    client.initialize(&admin, &liquidity_pool);

    assert!(client.is_initialized());

    assert_eq!(client.get_liquidity_pool(), liquidity_pool);
}

#[test]
#[should_panic(expected = "Contract already initialized")]
fn test_double_initialization() {
    let env = new_env();
    env.mock_all_auths();
    setup_ledger(&env);

    let admin = soroban_sdk::Address::generate(&env);
    let liquidity_pool = soroban_sdk::Address::generate(&env);

    let mut client = Client::new(&env);

    client.initialize(&admin, &liquidity_pool);

    client.initialize(&admin, &liquidity_pool);
}
