//! Blocks: the units of work that agent graph nodes run.

use vstd::prelude::*;

verus! {

/// Why a block could not produce its output.
#[derive(Clone, Debug)]
pub struct BlockError {
    pub message: String,
}

/// A unit of work: takes its input as text and produces its output as
/// text. Implemented by each kind of block.
pub trait Block {
    fn run(&self, input: &str) -> Result<String, BlockError>;
}

} // verus!
