//! NetBox objects as the API serves them, and the rules for addressing them.

pub mod auth;
pub mod choices;
pub mod models;
pub mod mutation;
pub mod query;
pub mod search;
