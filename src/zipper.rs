use vstd::prelude::*;

use crate::error::{ErrorKind, ZipperError};
use crate::paths::{
    is_safe_relative, is_safe_relative_path, join, join_path, parent_dir, parent_of_joined,
};

verus! {

/// A character that the simple form of a UUID is written with.
pub open spec fn is_lower_hex_digit(c: char) -> bool {
    ('0' <= c && c <= '9') || ('a' <= c && c <= 'f')
}

/// The name of a workspace directory: 32 lowercase hexadecimal digits.
pub open spec fn is_workspace_id(id: Seq<char>) -> bool {
    id.len() == 32 && forall|i: int| 0 <= i < id.len() ==> is_lower_hex_digit(#[trigger] id[i])
}

/// Relies on uuid::Uuid::new_v4 for a random identifier, and on the `Simple`
/// formatter of uuid for writing it as 32 lowercase hexadecimal digits.
#[verifier::external_body]
fn fresh_workspace_id() -> (r: String)
    ensures
        is_workspace_id(r@),
{
    uuid::Uuid::new_v4().as_simple().to_string()
}

/// A temporary workspace: a uniquely named directory in which files are
/// staged, and the files recorded so far as arguments of a packaging command.
///
/// This value holds the workspace's state and makes its decisions; creating,
/// filling and removing the directory on disk is left to the caller.
pub struct Zipper {
    args: Vec<String>,
    path: String,
    id: String,
}

/// Where a staged file goes: the path as given, the file inside the
/// workspace, and the directory that has to exist for it.
pub struct StagedFile {
    pub file: String,
    pub dest_file: String,
    pub dest_dir: String,
}

/// What happened when a staged file was put on disk.
#[derive(Clone, Copy, Debug, PartialEq, Eq, Structural)]
pub enum WriteReport {
    /// Its directory was missing and could not be created.
    DirFailed,
    /// The file could not be created.
    CreateFailed,
    /// The file was created but its content could not be written.
    WriteFailed,
    /// The whole content was written.
    Written,
}

/// The recorded arguments after a writing of `path`: the path is appended
/// when it was safe, fully written, and asked to be recorded.
pub open spec fn written_args(
    args: Seq<Seq<char>>,
    path: Seq<char>,
    add_args: bool,
    report: WriteReport,
) -> Seq<Seq<char>> {
    if is_safe_relative(path) && report == WriteReport::Written && add_args {
        args.push(path)
    } else {
        args
    }
}

/// Writing the same path twice leaves the recorded arguments as they were
/// when neither writing records it, and holds the path twice when both
/// writings succeed and record it: recording is not idempotent.
pub proof fn lemma_write_twice(
    args: Seq<Seq<char>>,
    path: Seq<char>,
    first: WriteReport,
    second: WriteReport,
)
    ensures
        written_args(written_args(args, path, false, first), path, false, second) == args,
        is_safe_relative(path) ==> written_args(
            written_args(args, path, true, WriteReport::Written),
            path,
            true,
            WriteReport::Written,
        ) == args.push(path).push(path),
{
}

impl Zipper {
    /// The root directory of the workspace.
    pub closed spec fn root_view(&self) -> Seq<char> {
        self.path@
    }

    /// The name of the root directory inside the temporary directory.
    pub closed spec fn id_view(&self) -> Seq<char> {
        self.id@
    }

    /// The paths recorded as command arguments, in the order they were staged.
    pub closed spec fn args_view(&self) -> Seq<Seq<char>> {
        self.args@.map_values(|s: String| s@)
    }

    /// Makes a new workspace inside the temporary directory `path`, named by
    /// a fresh random identifier, with no recorded argument.
    pub fn new(path: &str) -> (z: Zipper)
        ensures
            is_workspace_id(z.id_view()),
            z.root_view() == join_path(path@, z.id_view()),
            z.args_view() == Seq::<Seq<char>>::empty(),
    {
        let id = fresh_workspace_id();
        let root = join(path, id.as_str());
        let z = Zipper { args: Vec::new(), path: root, id };
        assert(z.args_view() =~= Seq::<Seq<char>>::empty());
        z
    }

    /// The root directory of the workspace.
    pub fn root(&self) -> (r: &str)
        ensures
            r@ == self.root_view(),
    {
        self.path.as_str()
    }

    /// The name of the root directory inside the temporary directory.
    pub fn id(&self) -> (r: &str)
        ensures
            r@ == self.id_view(),
    {
        self.id.as_str()
    }

    /// The paths recorded as command arguments so far.
    pub fn args(&self) -> (r: Vec<String>)
        ensures
            r@.map_values(|s: String| s@) == self.args_view(),
    {
        let mut r: Vec<String> = Vec::new();
        let mut i: usize = 0;
        while i < self.args.len()
            invariant
                i <= self.args@.len(),
                r@.len() == i,
                forall|j: int| 0 <= j < i ==> #[trigger] r@[j]@ == self.args@[j]@,
            decreases self.args@.len() - i,
        {
            let s = String::from_str(self.args[i].as_str());
            r.push(s);
            i = i + 1;
        }
        assert(r@.map_values(|s: String| s@) =~= self.args_view());
        r
    }

    /// Checks a path to stage and says where it goes in the workspace.
    ///
    /// An absolute path, or one whose first segment is `..`, is refused
    /// before anything is written.
    pub fn stage(&self, path: &str) -> (r: Result<StagedFile, ZipperError>)
        ensures
            r is Err <==> !is_safe_relative(path@),
            r is Err ==> r->Err_0.is_failure(ErrorKind::UnsafePath, path@),
            r is Ok ==> {
                &&& r->Ok_0.file@ == path@
                &&& r->Ok_0.dest_file@ == join_path(self.root_view(), path@)
                &&& r->Ok_0.dest_dir@ == parent_dir(self.root_view(), path@)
            },
    {
        if !is_safe_relative_path(path) {
            return Err(ZipperError::new(ErrorKind::UnsafePath, path));
        }
        let dest_file = join(self.path.as_str(), path);
        let dest_dir = parent_of_joined(self.path.as_str(), path);
        Ok(StagedFile { file: String::from_str(path), dest_file, dest_dir })
    }

    /// Settles the writing of `path` into the workspace once the caller has
    /// tried it and reported how it went.
    ///
    /// Only a path that `stage` accepts and whose content was fully written
    /// succeeds; then, when `add_args` holds, the path as given is appended
    /// to the recorded arguments. Nothing is recorded otherwise.
    pub fn write(&mut self, path: &str, add_args: bool, report: WriteReport) -> (r: Result<
        (),
        ZipperError,
    >)
        ensures
            final(self).root_view() == old(self).root_view(),
            final(self).id_view() == old(self).id_view(),
            !is_safe_relative(path@) ==> r is Err && r->Err_0.is_failure(ErrorKind::UnsafePath, path@),
            is_safe_relative(path@) ==> match report {
                WriteReport::DirFailed => r is Err && r->Err_0.is_failure(
                    ErrorKind::CreateDir,
                    parent_dir(old(self).root_view(), path@),
                ),
                WriteReport::CreateFailed => r is Err && r->Err_0.is_failure(ErrorKind::CreateFile, path@),
                WriteReport::WriteFailed => r is Err && r->Err_0.is_failure(ErrorKind::WriteFile, path@),
                WriteReport::Written => r is Ok,
            },
            final(self).args_view() == written_args(old(self).args_view(), path@, add_args, report),
    {
        if !is_safe_relative_path(path) {
            return Err(ZipperError::new(ErrorKind::UnsafePath, path));
        }
        match report {
            WriteReport::DirFailed => {
                let dir = parent_of_joined(self.path.as_str(), path);
                Err(ZipperError::new(ErrorKind::CreateDir, dir.as_str()))
            },
            WriteReport::CreateFailed => Err(ZipperError::new(ErrorKind::CreateFile, path)),
            WriteReport::WriteFailed => Err(ZipperError::new(ErrorKind::WriteFile, path)),
            WriteReport::Written => {
                if add_args {
                    self.args.push(String::from_str(path));
                    assert(self.args@.map_values(|s: String| s@) =~= old(self).args_view().push(
                        path@,
                    ));
                }
                Ok(())
            },
        }
    }
}

} // verus!
