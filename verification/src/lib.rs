//! A replicated, in-memory registry of mock HTTP endpoints: the definitions,
//! the rules by which a request is matched to one of them and answered, and
//! the rules by which several instances converge on the same definitions.

pub mod assets;
pub mod chance;
pub mod clock;
pub mod condition;
pub mod context;
pub mod dispatch;
pub mod engine;
pub mod errors;
pub mod laws;
pub mod metrics;
pub mod models;
pub mod naming;
pub mod registry;
pub mod routes;
pub mod selector;
pub mod state;
pub mod store;
pub mod sync;
pub mod templates;
pub mod text;
pub mod utils;
