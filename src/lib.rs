//! Request authentication for a small user service: an error taxonomy with its
//! HTTP mapping, credential extraction, a signed-token codec, the guard that
//! runs before every handler, and the shaping of failures into responses.
use vstd::prelude::*;

pub mod error;
pub mod text;
pub mod token;
pub mod credentials;
pub mod auth;
pub mod shaper;
pub mod user;

verus! {

} // verus!
