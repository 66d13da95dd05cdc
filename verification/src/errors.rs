use vstd::prelude::*;

verus! {

/// The ways the image pipeline can fail.
///
/// No verified function here performs I/O itself, so failures surface either
/// from rejecting an input, or from one of the filesystem / partition-table
/// crates that the builders call through trusted wrappers.
#[derive(Clone, Copy, PartialEq, Eq, Structural, Debug)]
pub enum Error {
    /// The input executable was empty; a zero-byte payload is rejected
    /// before any container is allocated.
    InvalidInput,
    /// Formatting the FAT volume, or creating a directory or file inside
    /// it, failed.
    Filesystem,
    /// Building or persisting the protective MBR or the GPT structures
    /// failed.
    PartitionTable,
    /// A partition that was just added could not be looked up again: an
    /// invariant violation inside the partition-table crate, never expected
    /// in correct operation.
    Internal,
}

} // verus!
