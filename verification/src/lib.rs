//! A custodial marketplace settlement engine: listings, offers, the two-phase
//! exchange of an item for currency, fee distribution and the fallback ledger.
//!
//! The engine never talks to an asset service itself. Each operation takes
//! what the services answered as plain values, decides, and changes the
//! state that it is handed; an exchange is a sequence of such steps, one for
//! each answer.

pub mod events;
pub mod laws;
pub mod ledger;
pub mod listing;
pub mod market;
pub mod number;
pub mod offer;
pub mod principal;
pub mod proxy;
pub mod queries;
pub mod registry;
pub mod settlement;
pub mod table;
pub mod types;
pub mod vendor_types;
