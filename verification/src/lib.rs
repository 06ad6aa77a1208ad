//! Verified core of a VapourSynth binding: format identifiers, frame
//! properties, helper arithmetic and the pipe tool's decision logic.
#![allow(non_snake_case)]

use vstd::prelude::*;

pub mod format;
pub mod helpers;
pub mod frame;
pub mod map;
pub mod rational;
pub mod invert;
pub mod text;
pub mod output;
pub mod schedule;
pub mod pipe;
pub mod filter;
pub mod log;
pub mod node;
pub mod vs_core;

verus! {

} // verus!
