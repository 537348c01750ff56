use vstd::prelude::*;
use vstd::utf8::{decode_utf8, valid_utf8};

use crate::error::{ErrorKind, ZipperError};
use crate::paths::{join, join_path};
use crate::zipper::Zipper;

verus! {

/// The text that `String::from_utf8_lossy` makes of some bytes.
pub uninterp spec fn utf8_lossy(b: Seq<u8>) -> Seq<char>;

/// Relies on std's `String::from_utf8_lossy`: valid UTF-8 is decoded as it
/// is, and the result depends on the bytes alone.
#[verifier::external_body]
fn decode_lossy(b: &[u8]) -> (r: String)
    ensures
        r@ == utf8_lossy(b@),
        valid_utf8(b@) ==> r@ == decode_utf8(b@),
{
    String::from_utf8_lossy(b).into_owned()
}

/// The character views of a list of strings.
pub open spec fn views(v: Seq<String>) -> Seq<Seq<char>> {
    v.map_values(|s: String| s@)
}

/// How an external command ended.
pub enum ProcessReport {
    /// The process could not be started.
    NotStarted,
    /// The process ran to its end; `success` tells its exit status, and
    /// `stdout` holds what it wrote on its standard output.
    Finished { success: bool, stdout: Vec<u8> },
}

/// What happened to the result file of a successful command.
#[derive(Clone, Copy, Debug, PartialEq, Eq, Structural)]
pub enum Transfer {
    /// The result file could not be opened.
    NotOpened,
    /// It was opened but could not be copied to its destination.
    CopyFailed,
    /// Its whole content was copied to its destination.
    Copied,
}

/// One external command to run in a workspace.
pub struct Invocation {
    /// The program to run.
    pub program: String,
    /// Its arguments, in order.
    pub args: Vec<String>,
    /// The working directory: the workspace root.
    pub dir: String,
    /// How the command is named in messages.
    pub label: String,
    /// The file, relative to the workspace root, that the command produces.
    pub result_file: String,
    /// How many times the command is run; only the last run is checked.
    pub passes: usize,
}

/// Whether the command ended so that its result file is to be read.
pub open spec fn succeeded(report: ProcessReport) -> bool {
    report matches ProcessReport::Finished { success, .. } && success
}

/// The failure that a command which did not succeed ends in.
pub open spec fn command_failure(e: ZipperError, label: Seq<char>, report: ProcessReport) -> bool {
    match report {
        ProcessReport::NotStarted => e.is_failure(ErrorKind::Spawn, label),
        ProcessReport::Finished { .. } => e.is_failure(ErrorKind::Exit, label),
    }
}

fn string_list(a: &str) -> (r: Vec<String>)
    ensures
        views(r@) == seq![a@],
{
    let mut r: Vec<String> = Vec::new();
    r.push(String::from_str(a));
    assert(views(r@) =~= seq![a@]);
    r
}

impl Zipper {
    /// Decides, once a command has ended, whether its result file is to be
    /// opened, and gives its path inside the workspace.
    ///
    /// A command that could not start, or that ended with a failure status,
    /// fails here, so that its result file is never opened.
    pub fn result_path(&self, label: &str, result_file: &str, report: &ProcessReport) -> (r: Result<
        String,
        ZipperError,
    >)
        ensures
            r is Ok <==> succeeded(*report),
            r is Ok ==> r->Ok_0@ == join_path(self.root_view(), result_file@),
            r is Err ==> command_failure(r->Err_0, label@, *report),
    {
        match report {
            ProcessReport::NotStarted => Err(ZipperError::new(ErrorKind::Spawn, label)),
            ProcessReport::Finished { success, .. } => {
                if *success {
                    Ok(join(self.root(), result_file))
                } else {
                    Err(ZipperError::new(ErrorKind::Exit, label))
                }
            },
        }
    }

    /// The outcome of running a command in the workspace and copying its
    /// result file out.
    ///
    /// A command that succeeded but left no readable result file fails with
    /// `ResultMissing`; a failed copy names the result file. On success the
    /// command's standard output is returned as text.
    pub fn run_command(
        &self,
        label: &str,
        result_file: &str,
        report: &ProcessReport,
        transfer: Transfer,
    ) -> (r: Result<String, ZipperError>)
        ensures
            !succeeded(*report) ==> r is Err && command_failure(r->Err_0, label@, *report),
            succeeded(*report) ==> match transfer {
                Transfer::NotOpened => r is Err && r->Err_0.is_failure(ErrorKind::ResultMissing, label@),
                Transfer::CopyFailed => r is Err && r->Err_0.is_failure(
                    ErrorKind::CopyResult,
                    result_file@,
                ),
                Transfer::Copied => r is Ok && r->Ok_0@ == utf8_lossy(report->stdout@),
            },
    {
        match report {
            ProcessReport::NotStarted => Err(ZipperError::new(ErrorKind::Spawn, label)),
            ProcessReport::Finished { success, stdout } => {
                if !*success {
                    Err(ZipperError::new(ErrorKind::Exit, label))
                } else {
                    match transfer {
                        Transfer::NotOpened => Err(
                            ZipperError::new(ErrorKind::ResultMissing, label),
                        ),
                        Transfer::CopyFailed => Err(
                            ZipperError::new(ErrorKind::CopyResult, result_file),
                        ),
                        Transfer::Copied => Ok(decode_lossy(stdout.as_slice())),
                    }
                }
            },
        }
    }

    /// The command that zips the whole workspace into `result.odt`.
    pub fn generate_odt(&self, command_name: &str) -> (inv: Invocation)
        ensures
            inv.program@ == command_name@,
            inv.label@ == command_name@,
            views(inv.args@) == seq!["-r"@, "result.odt"@, "."@],
            inv.dir@ == self.root_view(),
            inv.result_file@ == "result.odt"@,
            inv.passes == 1,
    {
        let mut args: Vec<String> = Vec::new();
        args.push(String::from_str("-r"));
        args.push(String::from_str("result.odt"));
        args.push(String::from_str("."));
        assert(views(args@) =~= seq!["-r"@, "result.odt"@, "."@]);
        Invocation {
            program: String::from_str(command_name),
            args,
            dir: String::from_str(self.root()),
            label: String::from_str(command_name),
            result_file: String::from_str("result.odt"),
            passes: 1,
        }
    }

    /// The command that zips the whole workspace into `result.epub`.
    pub fn generate_epub(&self, command_name: &str) -> (inv: Invocation)
        ensures
            inv.program@ == command_name@,
            inv.label@ == command_name@,
            views(inv.args@) == seq!["-X"@, "-r"@, "result.epub"@, "."@],
            inv.dir@ == self.root_view(),
            inv.result_file@ == "result.epub"@,
            inv.passes == 1,
    {
        let mut args: Vec<String> = Vec::new();
        args.push(String::from_str("-X"));
        args.push(String::from_str("-r"));
        args.push(String::from_str("result.epub"));
        args.push(String::from_str("."));
        assert(views(args@) =~= seq!["-X"@, "-r"@, "result.epub"@, "."@]);
        Invocation {
            program: String::from_str(command_name),
            args,
            dir: String::from_str(self.root()),
            label: String::from_str(command_name),
            result_file: String::from_str("result.epub"),
            passes: 1,
        }
    }

    /// The typesetting command that compiles `tex_file` into `result.pdf`.
    ///
    /// It runs twice, so that the second pass sees the cross-references that
    /// the first one resolved; only the second pass is checked.
    pub fn generate_pdf(&self, command_name: &str, tex_file: &str) -> (inv: Invocation)
        ensures
            inv.program@ == command_name@,
            inv.label@ == command_name@,
            views(inv.args@) == seq![tex_file@],
            inv.dir@ == self.root_view(),
            inv.result_file@ == "result.pdf"@,
            inv.passes == 2,
    {
        Invocation {
            program: String::from_str(command_name),
            args: string_list(tex_file),
            dir: String::from_str(self.root()),
            label: String::from_str(command_name),
            result_file: String::from_str("result.pdf"),
            passes: 2,
        }
    }

    /// The command that extracts the archive `file` in the workspace.
    pub fn unzip(&self, file: &str) -> (inv: Invocation)
        ensures
            inv.program@ == "unzip"@,
            inv.label@ == "unzip"@,
            views(inv.args@) == seq![file@],
            inv.dir@ == self.root_view(),
            inv.result_file@ == file@,
            inv.passes == 1,
    {
        Invocation {
            program: String::from_str("unzip"),
            args: string_list(file),
            dir: String::from_str(self.root()),
            label: String::from_str("unzip"),
            result_file: String::from_str(file),
            passes: 1,
        }
    }

    /// Decides, once the extraction of `file` has ended, whether the archive
    /// is to be removed, and gives its path inside the workspace.
    pub fn unzip_target(&self, file: &str, report: &ProcessReport) -> (r: Result<
        String,
        ZipperError,
    >)
        ensures
            r is Ok <==> succeeded(*report),
            r is Ok ==> r->Ok_0@ == join_path(self.root_view(), file@),
            r is Err ==> r->Err_0.is_failure(ErrorKind::Extract, file@),
    {
        match report {
            ProcessReport::Finished { success, .. } => {
                if *success {
                    return Ok(join(self.root(), file));
                }
            },
            ProcessReport::NotStarted => {},
        }
        Err(ZipperError::new(ErrorKind::Extract, file))
    }
}

/// The outcome of the removal of an extracted archive.
pub fn unzip_done(file: &str, removed: bool) -> (r: Result<(), ZipperError>)
    ensures
        r is Ok <==> removed,
        r is Err ==> r->Err_0.is_failure(ErrorKind::Remove, file@),
{
    if removed {
        Ok(())
    } else {
        Err(ZipperError::new(ErrorKind::Remove, file))
    }
}

} // verus!
