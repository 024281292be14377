//! Command-line front end of a block builder: the verbs it answers to, the
//! layered settings that flags override, and the life cycle of a `run`.
mod text;
pub mod dispatch;

pub use dispatch::{parse_verb, UsageError, Verb};
pub mod config;

pub use config::{BaseCliArgs, BaseConfig, L1CliArgs};
pub mod cancel;

pub use cancel::CancellationSignal;
pub mod lifecycle;

pub use lifecycle::{Action, Event, Lifecycle, Outcome, Phase, Stage};
pub mod backtest;

pub use backtest::{AlgorithmRegistry, BacktestError};
