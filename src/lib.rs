//! Per-power-profile fan curve engine for multi-fan laptops.
//!
//! The library holds the in-memory model of fan curves, one collection per
//! platform profile, and decides what is read from and written to the
//! kernel's hwmon fan curve node. The node itself is reached by the caller.
pub mod curve;
pub mod driver;
pub mod error;
pub mod fan;
pub mod layout;
pub mod profiles;
