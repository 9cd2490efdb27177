//! Shared tag catalog: the decision and mapping logic of a catalog of flat
//! labels (name, optional taxonomy, optional description) with a per-field
//! change history, owner-gated mutations and a catalog search source.
//!
//! - [`service`]: the catalog operations (create, update, delete, get,
//!   list) as runs of steps; each step takes what storage answered and says
//!   what to do next.
//! - [`side_effects`]: which change-trail rows a tag mutation writes.
//! - [`privacy_policies`]: the ownership rule guarding updates and deletes.
//! - [`search_sources`]: the catalog as a search source for pickers.
//! - [`server`]: failures and request checks of the server functions.
//! - [`ui`]: what the catalog pages and the picker decide.
//! - [`laws`]: properties spanning several operations or steps.

pub mod error;
pub mod laws;
pub mod privacy_policies;
pub mod search_sources;
pub mod server;
pub mod service;
pub mod side_effects;
pub mod sys;
pub mod text;
pub mod types;
pub mod ui;

pub use error::TagError;
pub use search_sources::TagSearchSourceId;
pub use service::{create, delete, get, list, update};
