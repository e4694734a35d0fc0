//! Decisions and request construction for fetching a chip's VCEK certificate
//! from AMD's key-distribution service.
use vstd::prelude::*;

pub mod retry;
pub mod url;

verus! {

} // verus!
