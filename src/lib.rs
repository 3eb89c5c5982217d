//! Slashing of misbehaving validators: exact-rational severities, the
//! overflow-safe slash computation, and the workflows that apply it.
pub mod cli;
pub mod fraction;
pub mod ledger;
pub mod misconduct;
pub mod policy;
pub mod slasher;

pub use fraction::Fraction;
