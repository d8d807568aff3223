//! Typed telemetry values exchanged with a remote platform: the value
//! variants, the ordered duplicate-free record that bundles them, the
//! event union that classifies an inbound datum, and the validation
//! protocol that checks a value survives the round trip unchanged.

pub mod aggregate;
pub mod event;
pub mod types;
pub mod validation;
