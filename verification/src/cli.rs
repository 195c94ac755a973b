//! The options a run of the tracer is configured with. Parsing the
//! command line into them is a caller's concern; the library only reads
//! them.

use vstd::prelude::*;

use crate::text::{split_commas, split_commas_exec};

verus! {

/// What a run was asked to do: launch a command or attach to a process,
/// keep only some syscall names, write to a file, and whether to skip
/// the interactive display.
pub struct Args {
    /// A command to launch under tracing.
    pub command: Option<String>,
    /// An already-running process to attach to instead.
    pub attach: Option<i32>,
    /// A comma-separated list of the syscall names to keep; everything
    /// is kept when absent.
    pub filter: Option<String>,
    /// A file to write the trace to, besides the chosen display.
    pub file_to_print: Option<String>,
    /// Skip the interactive display and write plain lines instead.
    pub no_tui: bool,
}

impl Args {
    /// The configured filter as a list of names: the comma-separated
    /// pieces of the filter option, or nothing at all when no filter
    /// was given.
    pub fn filter_list(&self) -> (r: Vec<String>)
        ensures
            self.filter is None ==> r@.len() == 0,
            self.filter is Some ==> r@.map_values(|t: String| t@) == split_commas(
                self.filter->0@,
            ),
    {
        match &self.filter {
            None => Vec::new(),
            Some(f) => split_commas_exec(f.as_str()),
        }
    }
}

} // verus!
