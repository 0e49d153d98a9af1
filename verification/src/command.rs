//! An external command, described but never run here.
//!
//! The library decides which program to invoke and with which
//! arguments; the caller runs it and reports the exit status back.

use vstd::prelude::*;

verus! {

/// A program name with its argument list, ready to be spawned by the
/// caller.
#[derive(Debug)]
pub struct Cmd {
    pub program: String,
    pub args: Vec<String>,
}

} // verus!
