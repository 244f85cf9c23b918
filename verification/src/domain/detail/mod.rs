//! Single-object details: resolving a reference, laying the object out as a
//! screen with tabs and links, and planning writes to it.

pub mod determined;
pub mod links;
pub mod load;
pub mod path;
pub mod plan;
pub mod resolve;
pub mod routing;
pub mod rows;
pub mod steps;
pub mod target;
pub mod view;
