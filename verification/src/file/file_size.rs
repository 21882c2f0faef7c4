//! The byte count of a file.
use vstd::prelude::*;

verus! {

/// A raw byte count.
#[derive(Debug, Clone, Copy, PartialEq, Eq, Structural)]
pub struct FileSizeInfo {
    pub bytes: u64,
}

impl FileSizeInfo {
    /// The largest index among the six unit prefixes of a size system.
    pub const MAX_PREFIX_INDEX: usize = 5;

    /// The size of `bytes` bytes.
    pub fn new(bytes: u64) -> (r: Self)
        ensures
            r.bytes == bytes,
    {
        Self { bytes }
    }
}

impl Default for FileSizeInfo {
    /// No bytes.
    fn default() -> (r: Self)
        ensures
            r.bytes == 0,
    {
        Self { bytes: 0 }
    }
}

} // verus!
