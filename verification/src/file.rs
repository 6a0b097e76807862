//! How a file of shots is opened.
use vstd::prelude::*;

verus! {

/// Whether a file of shots is open for reading or for writing.
#[derive(Debug, Clone, Copy, PartialEq, Eq, Structural, Hash)]
pub enum FileMode {
    Read,
    Write,
}

} // verus!
