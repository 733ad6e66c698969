use vstd::prelude::*;

verus! {

/// The flat failure taxonomy of the sweeper. Every error is fatal at the
/// point it occurs; each variant carries at most one piece of detail.
#[derive(Debug)]
pub enum Error {
    /// The duration argument is malformed; carries the argument's name.
    InvalidArgument { name: String },
    /// The target path cannot be listed; carries the directory's name.
    ReadDirError { dirname: String },
    /// An entry within the listing cannot be read.
    ReadDirEntryError,
    /// Metadata or the modified time is unavailable for an entry.
    ReadFileError,
    /// The threshold computation would underflow the clock's minimum.
    TimeSubtractionError,
    /// Removal of a specific entry failed; carries the entry's filename.
    DeleteFailed { filename: String },
    /// The user declined the confirmation prompt.
    Cancelled,
}

} // verus!
