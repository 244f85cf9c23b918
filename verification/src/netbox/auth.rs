//! How a token is sent.

use vstd::prelude::*;

verus! {

/// How a token is sent.
#[derive(Debug, Clone, Copy, PartialEq, Eq, Structural)]
pub enum AuthScheme {
    Auto,
    Bearer,
    Token,
}

} // verus!
