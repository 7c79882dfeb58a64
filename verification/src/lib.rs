//! A verified filter-graph compiler for an external video transcoding tool.
//!
//! The library models a chain (or DAG) of named signal-processing steps
//! applied to one or more input media streams, assigns unique intermediate
//! labels, serializes the graph into the external tool's textual filter-graph
//! mini-language, and prepares the external command line while classifying
//! its failure modes.

pub mod color;
pub mod convert;
pub mod filter;
pub mod flip;
pub mod labels;
pub mod laws;
pub mod mute;
pub mod probe;
pub mod resize;
pub mod rotate;
pub mod stream;
pub mod watermark;

use vstd::prelude::*;

verus! {

} // verus!
