use vstd::prelude::*;

verus! {

/// How a pull request touched one file.
#[derive(Clone, Copy, Debug, PartialEq, Eq, Structural)]
pub enum FileStatus {
    Added,
    Modified,
    Removed,
    Renamed,
}

/// The status that an upstream status word stands for; anything unknown is `Modified`.
pub open spec fn status_of_word(s: Seq<char>) -> FileStatus {
    if s == "added"@ {
        FileStatus::Added
    } else if s == "removed"@ {
        FileStatus::Removed
    } else if s == "renamed"@ {
        FileStatus::Renamed
    } else {
        FileStatus::Modified
    }
}

impl FileStatus {
    /// Reads an upstream status word; the conversion is total.
    pub fn from_str(s: &str) -> (r: FileStatus)
        ensures
            r == status_of_word(s@),
    {
        let w = String::from_str(s);
        if w == String::from_str("added") {
            FileStatus::Added
        } else if w == String::from_str("removed") {
            FileStatus::Removed
        } else if w == String::from_str("renamed") {
            FileStatus::Renamed
        } else {
            FileStatus::Modified
        }
    }
}

/// One file touched by a pull request.
pub struct ChangedFile {
    pub filename: String,
    pub status: FileStatus,
    pub additions: i32,
    pub deletions: i32,
}

/// What a pull request is, as far as a summary needs it.
pub struct PrInfo {
    pub title: String,
    pub description: String,
    pub base_branch: String,
    pub head_branch: String,
    pub author: String,
    pub changed_files: Vec<ChangedFile>,
}

} // verus!
