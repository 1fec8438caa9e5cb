//! A recurring-payment engine with a credit-scored financing fallback.
//!
//! A subscriber orders a fixed payment to a merchant, once per interval.
//! When a payment is collected and the subscriber's balance covers it, the
//! subscriber pays and earns credit. When the balance falls short and the
//! credit earned exceeds a threshold, a liquidity pool pays instead and the
//! subscriber owes the pool. Otherwise the collection is refused.
//!
//! The engine decides; it does not act. The time, the balance and the word
//! of the party that must authorize a call come in as arguments. The
//! transfer of funds and the notification that belong to an operation go
//! out as values, for the token ledger and the event sink of whoever runs
//! the engine.
//!
//! * [`subscription`], [`debt`], [`config`] and [`engine`] hold the rules,
//!   each as a function from the records that an operation reads to the
//!   records that it writes.
//! * [`registry`] and [`ledger`] keep the records; [`keyed`] holds what is
//!   proved of the lists they are kept in.
//! * [`contract`] puts both together: [`SoroSubContract`] is the engine
//!   with its state, and `ContractState` is that state as a mathematical
//!   value, with one function for each operation.
//! * [`laws`] states what holds of every state and every sequence of
//!   operations.

pub mod address;
pub mod config;
pub mod contract;
pub mod data_key;
pub mod debt;
pub mod engine;
pub mod error;
pub mod event;
pub mod keyed;
pub mod laws;
pub mod ledger;
pub mod model;
pub mod registry;
pub mod subscription;
pub mod transfer;

pub use address::Address;
pub use config::AdminConfig;
pub use contract::SoroSubContract;
pub use data_key::DataKey;
pub use debt::{Repayment, UserDebt};
pub use engine::{Payment, BNPL_MIN_CREDIT_SCORE, CREDIT_SCORE_INCREMENT};
pub use error::{Error, ErrorKind};
pub use event::Event;
pub use subscription::{Subscription, SubscriptionKey};
pub use transfer::{Transfer, TransferMode};
