//! Fleet provisioning for a decentralized storage network: expands a
//! declarative "run N node-type services" request into N concrete,
//! non-conflicting, individually runnable service descriptors.
//!
//! The engine is a pure transformation. A request names a service kind, an
//! instance count, one port range per port role and the fleet-wide
//! parameters; the planner validates every range against the count, allocates
//! disjoint ports and distinct identities, and each kind builder turns one
//! resolved configuration into one descriptor with an exactly specified,
//! order-sensitive argument list. Registering the descriptors with the
//! operating system's service manager is the caller's business.

pub mod addresses;
pub mod beta_programme;
pub mod builders;
pub mod descriptor;
pub mod error;
pub mod evm_network;
pub mod label;
pub mod laws;
pub mod log_format;
pub mod numerals;
pub mod planner;
pub mod port_range;
