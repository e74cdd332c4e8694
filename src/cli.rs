//! The settings that the command line gives.
use vstd::prelude::*;

verus! {

/// The program image to run, and whether to trace each instruction.
pub struct Cli {
    pub file: String,
    pub debug: bool,
}

} // verus!
