//! A classifieds catalog: listings filed on boards by group name, looked up and removed
//! by identifier.
//!
//! [`catalog`] defines the catalog as a mathematical object and proves what holds of its
//! operations. [`contract`] is the executable store, specified against that object.
//! [`listing`] and [`models`] hold the records, and [`host`] what is taken on trust about
//! the NEAR host.

pub mod catalog;
pub mod contract;
pub mod host;
pub mod listing;
pub mod models;

pub use contract::{authorize, AuthorizationError, Contract};
pub use listing::{Details, ItemInfo};
