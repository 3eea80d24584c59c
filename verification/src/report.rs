//! The outcome of a directory run, as reported to the caller.

use vstd::prelude::*;

verus! {

/// What a whole run over a directory produced.
#[derive(Debug)]
pub struct ProcessingReport {
    /// The output root under which the summaries were placed.
    pub output_root: String,
    /// How many files were processed to completion.
    pub files_processed: usize,
    /// How many directories were processed (reserved; directory trees are
    /// walked file by file).
    pub directories_processed: usize,
}

} // verus!
