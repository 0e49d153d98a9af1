//! Target-storage backends: where synced files land, and how to talk
//! to each.
//!
//! A backend never performs its own I/O here. Each operation yields a
//! [`BackendOp`] — the process to run or the local filesystem step to
//! take — and a matching outcome function judges what the caller
//! reports back. The device bridge (`adb`) backend builds its remote
//! commands with the quoting and separator normalization its shell
//! requires; the FTP placeholder fails every operation descriptively.

use vstd::prelude::*;

use crate::command::Cmd;
use crate::decimal::{i32_string, spec_int_str};
use crate::errors::{Error, ErrorType};
use crate::paths::{normalize_separators, quote_remote, spec_normalized, spec_quoted, str_views};
use crate::text::{count_lines, spec_line_count, spec_lines, split_lines};
use crate::transcode::spec_exit_code;

verus! {

/// The kinds of target storage a run can sync to.
#[derive(Clone, Copy, Debug, PartialEq, Eq, Structural)]
pub enum FSBackend {
    /// An Android device reached through the `adb` bridge client.
    Adb,
    /// A network-transfer backend reserved for the future: every
    /// operation on it fails descriptively.
    Ftp,
    /// The local filesystem.
    Local,
}

/// One step the caller must take on the library's behalf.
#[derive(Debug)]
pub enum BackendOp {
    /// Run this process and report its exit status and output.
    Run(Cmd),
    /// Answer whether this local path exists.
    LocalExists(String),
    /// List every file under this local root, recursively.
    LocalList(String),
    /// Copy the first local path to the second, creating parent
    /// directories on demand.
    LocalCopy(String, String),
    /// Nothing to do; the answer is immediate.
    Ready,
}

/// The message every operation on the FTP placeholder fails with.
pub open spec fn ftp_unimplemented_message() -> Seq<char> {
    "FTP backend not implemented"@
}

/// The error the FTP placeholder returns.
fn ftp_unimplemented() -> (r: Error)
    ensures
        r.type_ == ErrorType::BackendUnavailable,
        r.message@ == ftp_unimplemented_message(),
        r.context is None,
{
    Error::new(ErrorType::BackendUnavailable, "FTP backend not implemented")
}

impl FSBackend {
    /// The step that checks whether this backend is reachable: the
    /// bridge backend asks its client for the connected devices, the
    /// local filesystem is always ready, and the FTP placeholder fails.
    pub fn available(&self) -> (r: Result<BackendOp, Error>)
        ensures
            match *self {
                FSBackend::Adb => {
                    &&& r matches Ok(BackendOp::Run(cmd))
                    &&& cmd.program@ == "adb"@
                    &&& str_views(cmd.args@) == seq!["devices"@]
                },
                FSBackend::Local => r matches Ok(BackendOp::Ready),
                FSBackend::Ftp => {
                    &&& r matches Err(e)
                    &&& e.type_ == ErrorType::BackendUnavailable
                    &&& e.message@ == ftp_unimplemented_message()
                },
            },
    {
        match *self {
            FSBackend::Adb => {
                let mut args: Vec<String> = Vec::new();
                args.push("devices".to_owned());
                proof {
                    assert(str_views(args@) =~= seq!["devices"@]);
                }
                Ok(BackendOp::Run(Cmd { program: "adb".to_owned(), args }))
            },
            FSBackend::Local => Ok(BackendOp::Ready),
            FSBackend::Ftp => Err(ftp_unimplemented()),
        }
    }

    /// The message a run aborts with when this backend is not ready.
    pub open spec fn unavailable_message(b: FSBackend) -> Seq<char> {
        match b {
            FSBackend::Adb => "Adb is not available! Make sure everything is right."@,
            FSBackend::Ftp => "Ftp is not available! Make sure everything is right."@,
            FSBackend::Local => "Local is not available! Make sure everything is right."@,
        }
    }

    /// The error a run aborts with when this backend is not ready.
    pub fn unavailable_error(&self) -> (r: Error)
        ensures
            r.type_ == ErrorType::BackendUnavailable,
            r.message@ == FSBackend::unavailable_message(*self),
            r.context is None,
    {
        let message = match *self {
            FSBackend::Adb => "Adb is not available! Make sure everything is right.",
            FSBackend::Ftp => "Ftp is not available! Make sure everything is right.",
            FSBackend::Local => "Local is not available! Make sure everything is right.",
        };
        Error::new(ErrorType::BackendUnavailable, message)
    }

    /// Judges the availability check: the bridge is running when its
    /// client exited cleanly and listed at least one device — more
    /// than the two lines its header and trailer occupy.
    pub fn available_outcome(&self, success: bool, stdout: &str) -> (r: bool)
        ensures
            r == match *self {
                FSBackend::Adb => success && spec_line_count(stdout@) > 2,
                FSBackend::Local => true,
                FSBackend::Ftp => false,
            },
    {
        match *self {
            FSBackend::Adb => success && count_lines(stdout) > 2,
            FSBackend::Local => true,
            FSBackend::Ftp => false,
        }
    }

    /// The step that answers whether `path` exists at the target. The
    /// bridge backend lists the path remotely, quoted and normalized as
    /// its shell requires.
    pub fn exists_at(&self, path: &str) -> (r: Result<BackendOp, Error>)
        ensures
            match *self {
                FSBackend::Adb => {
                    &&& r matches Ok(BackendOp::Run(cmd))
                    &&& cmd.program@ == "adb"@
                    &&& str_views(cmd.args@) == seq!["shell"@, "ls"@, spec_quoted(path@)]
                },
                FSBackend::Local => r matches Ok(BackendOp::LocalExists(p)) && p@ == path@,
                FSBackend::Ftp => {
                    &&& r matches Err(e)
                    &&& e.type_ == ErrorType::BackendUnavailable
                    &&& e.message@ == ftp_unimplemented_message()
                },
            },
    {
        match *self {
            FSBackend::Adb => {
                let mut args: Vec<String> = Vec::new();
                args.push("shell".to_owned());
                args.push("ls".to_owned());
                args.push(quote_remote(path));
                proof {
                    assert(str_views(args@) =~= seq!["shell"@, "ls"@, spec_quoted(path@)]);
                }
                Ok(BackendOp::Run(Cmd { program: "adb".to_owned(), args }))
            },
            FSBackend::Local => Ok(BackendOp::LocalExists(path.to_owned())),
            FSBackend::Ftp => Err(ftp_unimplemented()),
        }
    }

    /// Judges a remote existence check: the path exists exactly when
    /// the remote listing exited cleanly.
    pub fn exists_outcome(&self, success: bool) -> (r: bool)
        ensures
            r == success,
    {
        success
    }

    /// The step that copies `source` to `target`. The bridge backend
    /// pushes through its client with separators normalized; the local
    /// backend copies directly, creating parent directories on demand.
    pub fn cp(&self, source: &str, target: &str) -> (r: Result<BackendOp, Error>)
        ensures
            match *self {
                FSBackend::Adb => {
                    &&& r matches Ok(BackendOp::Run(cmd))
                    &&& cmd.program@ == "adb"@
                    &&& str_views(cmd.args@) == seq![
                        "push"@,
                        spec_normalized(source@),
                        spec_normalized(target@),
                    ]
                },
                FSBackend::Local => {
                    &&& r matches Ok(BackendOp::LocalCopy(s, t))
                    &&& s@ == source@
                    &&& t@ == target@
                },
                FSBackend::Ftp => {
                    &&& r matches Err(e)
                    &&& e.type_ == ErrorType::BackendUnavailable
                    &&& e.message@ == ftp_unimplemented_message()
                },
            },
    {
        match *self {
            FSBackend::Adb => {
                let mut args: Vec<String> = Vec::new();
                args.push("push".to_owned());
                args.push(normalize_separators(source));
                args.push(normalize_separators(target));
                proof {
                    assert(str_views(args@) =~= seq![
                        "push"@,
                        spec_normalized(source@),
                        spec_normalized(target@),
                    ]);
                }
                Ok(BackendOp::Run(Cmd { program: "adb".to_owned(), args }))
            },
            FSBackend::Local => Ok(BackendOp::LocalCopy(source.to_owned(), target.to_owned())),
            FSBackend::Ftp => Err(ftp_unimplemented()),
        }
    }

    /// The message a failed bridge copy reports.
    pub open spec fn cp_failure_message(code: Option<i32>, stderr: Seq<char>) -> Seq<char> {
        "adb exited with code "@ + spec_int_str(spec_exit_code(code)) + " detailing "@ + stderr
    }

    /// Judges a bridge copy: a clean exit is success, and any other a
    /// copy failure naming the exit code and the client's diagnostic
    /// output.
    pub fn cp_outcome(&self, success: bool, code: Option<i32>, stderr: &str) -> (r: Result<
        (),
        Error,
    >)
        ensures
            success ==> r is Ok,
            !success ==> {
                &&& r matches Err(e)
                &&& e.type_ == ErrorType::CopyFailure
                &&& e.message@ == FSBackend::cp_failure_message(code, stderr@)
                &&& e.context is None
            },
    {
        if success {
            Ok(())
        } else {
            let code_val: i32 = match code {
                Some(c) => c,
                None => -1,
            };
            let message = String::from_str("adb exited with code ").concat(
                i32_string(code_val).as_str(),
            ).concat(" detailing ").concat(stderr);
            Err(Error { type_: ErrorType::CopyFailure, message, context: None })
        }
    }

    /// The step that lists every file already present under `source`
    /// at the target: a remote recursive find for the bridge backend, a
    /// local walk for the local one.
    pub fn build_file_list(&self, source: &str) -> (r: Result<BackendOp, Error>)
        ensures
            match *self {
                FSBackend::Adb => {
                    &&& r matches Ok(BackendOp::Run(cmd))
                    &&& cmd.program@ == "adb"@
                    &&& str_views(cmd.args@) == seq![
                        "shell"@,
                        "find"@,
                        spec_normalized(source@),
                        "-type"@,
                        "f"@,
                    ]
                },
                FSBackend::Local => r matches Ok(BackendOp::LocalList(p)) && p@ == source@,
                FSBackend::Ftp => {
                    &&& r matches Err(e)
                    &&& e.type_ == ErrorType::BackendUnavailable
                    &&& e.message@ == ftp_unimplemented_message()
                },
            },
    {
        match *self {
            FSBackend::Adb => {
                let mut args: Vec<String> = Vec::new();
                args.push("shell".to_owned());
                args.push("find".to_owned());
                args.push(normalize_separators(source));
                args.push("-type".to_owned());
                args.push("f".to_owned());
                proof {
                    assert(str_views(args@) =~= seq![
                        "shell"@,
                        "find"@,
                        spec_normalized(source@),
                        "-type"@,
                        "f"@,
                    ]);
                }
                Ok(BackendOp::Run(Cmd { program: "adb".to_owned(), args }))
            },
            FSBackend::Local => Ok(BackendOp::LocalList(source.to_owned())),
            FSBackend::Ftp => Err(ftp_unimplemented()),
        }
    }

    /// The message a failed remote listing reports.
    pub open spec fn find_failure_message(code: Option<i32>, stderr: Seq<char>) -> Seq<char> {
        "adb find failed with code "@ + spec_int_str(spec_exit_code(code)) + ": "@ + stderr
    }

    /// Judges a remote listing: a clean exit yields one present path
    /// per output line, and any other exit fails with the code and the
    /// client's diagnostic output.
    pub fn build_file_list_outcome(
        &self,
        success: bool,
        code: Option<i32>,
        stdout: &str,
        stderr: &str,
    ) -> (r: Result<Vec<String>, Error>)
        ensures
            success ==> (r matches Ok(files) && str_views(files@) == spec_lines(stdout@)),
            !success ==> {
                &&& r matches Err(e)
                &&& e.type_ == ErrorType::Descriptive
                &&& e.message@ == FSBackend::find_failure_message(code, stderr@)
                &&& e.context is None
            },
    {
        if success {
            Ok(split_lines(stdout))
        } else {
            let code_val: i32 = match code {
                Some(c) => c,
                None => -1,
            };
            let message = String::from_str("adb find failed with code ").concat(
                i32_string(code_val).as_str(),
            ).concat(": ").concat(stderr);
            Err(Error { type_: ErrorType::Descriptive, message, context: None })
        }
    }
}

} // verus!
