//! Core logic of a release installer: resolving release assets, chunked
//! resumable downloads, archive extraction with path-safety checks, and the
//! installation pipeline that sequences them with cooperative cancellation
//! and progress reporting.

pub mod dircheck;
pub mod download;
pub mod errors;
pub mod extract;
pub mod pipeline;
pub mod resolve;
pub mod events;
pub mod state;

use vstd::prelude::*;

verus! {

} // verus!
