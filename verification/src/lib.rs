//! Policy core of a CPU power-management daemon: profile validation against
//! the platform's capabilities, the turbo-boost decision, and the plan of
//! control-surface writes that applies a decision to every CPU.

pub mod actuator;
pub mod args;
pub mod binary64;
pub mod catalog;
pub mod config;
pub mod error;
pub mod instance;
pub mod profile;
pub mod report;
pub mod telemetry;
pub mod text;
