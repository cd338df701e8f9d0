//! Verified core of a push-to-talk dictation daemon.
use vstd::prelude::*;

pub mod protocol;
pub mod audio;
pub mod insertion;
pub mod paths;
pub mod text;
pub mod transcriber;

verus! {

} // verus!
