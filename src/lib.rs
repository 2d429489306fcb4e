//! A round-based wagering ledger: rounds open on a timer, players buy
//! round-scoped tokens at a fixed price, a pseudo-random roll may crash the
//! round, and players who exit before the crash are paid out of a shared pool.

pub mod types;
pub mod oracle;
pub mod ledger;
pub mod model;
pub mod casino;
pub mod laws;
