//! Registration and dispatch of the named operations that a script engine
//! can call: the adapters for the four calling conventions, per-call
//! metrics, and the switch that guards experimental APIs.

pub mod gate;
pub mod metrics;
pub mod ops;
pub mod state;
