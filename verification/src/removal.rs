use vstd::prelude::*;

verus! {

/// What an old entry turns out to be when deletion reaches it.
pub enum FsKind {
    /// A regular file.
    File,
    /// A directory.
    Directory,
    /// Neither a regular file nor a directory, or a kind that cannot be
    /// determined.
    Other,
}

/// How an old entry is to be removed.
pub enum RemovalMethod {
    /// Remove the single file.
    RemoveFile,
    /// Remove the directory and its entire contents.
    RemoveDirAll,
}

/// Picks the removal method for an old entry: a regular file is removed by
/// itself, a directory wholesale with its subtree, and anything else cannot
/// be removed and counts as a deletion failure.
pub fn removal_method(kind: &FsKind) -> (r: Option<RemovalMethod>)
    ensures
        kind is File ==> r == Some(RemovalMethod::RemoveFile),
        kind is Directory ==> r == Some(RemovalMethod::RemoveDirAll),
        kind is Other ==> r is None,
{
    match kind {
        FsKind::File => Some(RemovalMethod::RemoveFile),
        FsKind::Directory => Some(RemovalMethod::RemoveDirAll),
        FsKind::Other => None,
    }
}

} // verus!
