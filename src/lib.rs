//! Preparation of simulated-call execution environments and interpretation of
//! their outcomes: fee resolution, transaction-environment assembly, gas
//! allowance capping and result classification.
pub mod amount;
pub mod error;
pub mod evm_env;
pub mod fees;
pub mod outcome;
pub mod request;
pub mod tx_env;
