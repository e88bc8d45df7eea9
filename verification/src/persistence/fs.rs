//! Storage in the local file system.

use vstd::prelude::*;

verus! {

/// Settings of file system storage.
#[derive(Clone, Debug, PartialEq, Eq)]
pub struct Options {
    /// Directory that holds the stored data.
    pub path: String,
}

} // verus!
