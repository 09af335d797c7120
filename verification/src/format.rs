//! The output formats of the command-line client.

use vstd::prelude::*;

verus! {

/// A serialization format for command output.
#[derive(Clone, Copy, Debug, PartialEq, Eq, Structural)]
pub enum Format {
    RON,
    JSON,
    YAML,
}

impl Default for Format {
    fn default() -> (r: Self)
        ensures
            r == Format::RON,
    {
        Format::RON
    }
}

} // verus!
