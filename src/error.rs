use vstd::prelude::*;
use vstd::string::StringExecFns;

verus! {

/// What went wrong while staging files or running an external tool.
#[derive(Clone, Copy, Debug, PartialEq, Eq, Structural)]
pub enum ErrorKind {
    /// The workspace directory could not be created.
    Workspace,
    /// A staged path is absolute or starts with a parent-directory segment.
    UnsafePath,
    /// The directory that holds a staged file could not be created.
    CreateDir,
    /// A staged file could not be created.
    CreateFile,
    /// The content of a staged file could not be written.
    WriteFile,
    /// An external command could not be started.
    Spawn,
    /// An external command ended with a failure status.
    Exit,
    /// An external command succeeded but its result file cannot be opened.
    ResultMissing,
    /// The result file could not be copied to its destination.
    CopyResult,
    /// An archive inside the workspace could not be extracted.
    Extract,
    /// A file inside the workspace could not be removed.
    Remove,
}

/// A failure, with the path or command label that it is about.
#[derive(Debug)]
pub struct ZipperError {
    pub kind: ErrorKind,
    pub subject: String,
}

impl ZipperError {
    /// The error is of kind `kind` and about `subject`.
    pub open spec fn is_failure(&self, kind: ErrorKind, subject: Seq<char>) -> bool {
        self.kind == kind && self.subject@ == subject
    }

    pub fn new(kind: ErrorKind, subject: &str) -> (e: ZipperError)
        ensures
            e.is_failure(kind, subject@),
    {
        ZipperError { kind, subject: String::from_str(subject) }
    }
}

} // verus!
