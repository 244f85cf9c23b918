//! The logic of `nbox`, a terminal client for NetBox, as a verified library.

pub mod cache;
pub mod config;
pub mod domain;
pub mod error;
pub mod json;
pub mod netbox;
pub mod number;
pub mod order;
pub mod output;
pub mod rate;
pub mod split;
pub mod text;
