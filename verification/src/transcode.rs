//! The external transcoder: which command a job runs, and what its
//! exit means.
//!
//! Opus tracks are encoded by `opusenc`; every other codec goes through
//! `ffmpeg`. The library only assembles the invocation and judges the
//! reported exit status; spawning the process is the caller's.

use vstd::prelude::*;

use crate::command::Cmd;
use crate::decimal::{i32_string, spec_int_str, spec_nat_str, u32_string};
use crate::errors::{Error, ErrorType};
use crate::format::{spec_encoder_lib, Codec};
use crate::paths::str_views;

verus! {

/// The bitrate argument handed to the transcoder: the value in kbit/s
/// followed by `K`.
pub open spec fn spec_bitrate_arg(bitrate: u32) -> Seq<char> {
    spec_nat_str(bitrate as nat) + "K"@
}

/// The program that encodes into the given codec.
pub open spec fn spec_transcoder_program(codec: Codec) -> Seq<char> {
    if codec == Codec::Opus {
        "opusenc"@
    } else {
        "ffmpeg"@
    }
}

/// The argument list that transcodes `source` into `target` at the
/// given bitrate.
pub open spec fn spec_transcoder_args(
    codec: Codec,
    bitrate: u32,
    source: Seq<char>,
    target: Seq<char>,
) -> Seq<Seq<char>> {
    if codec == Codec::Opus {
        seq!["--bitrate"@, spec_bitrate_arg(bitrate), source, target]
    } else {
        seq![
            "-i"@,
            source,
            "-c:a"@,
            spec_encoder_lib(codec),
            "-b:a"@,
            spec_bitrate_arg(bitrate),
            target,
        ]
    }
}

/// Builds the command that transcodes `source` into `target` with the
/// given codec and bitrate.
pub fn transcode_file(source: &str, target: &str, codec: Codec, bitrate: u32) -> (r: Cmd)
    ensures
        r.program@ == spec_transcoder_program(codec),
        str_views(r.args@) == spec_transcoder_args(codec, bitrate, source@, target@),
{
    let bitrate_str = u32_string(bitrate).concat("K");
    let mut args: Vec<String> = Vec::new();
    let program: &str = if codec == Codec::Opus {
        args.push("--bitrate".to_owned());
        args.push(bitrate_str);
        args.push(source.to_owned());
        args.push(target.to_owned());
        "opusenc"
    } else {
        args.push("-i".to_owned());
        args.push(source.to_owned());
        args.push("-c:a".to_owned());
        args.push(codec.ffmpeg_lib().to_owned());
        args.push("-b:a".to_owned());
        args.push(bitrate_str);
        args.push(target.to_owned());
        "ffmpeg"
    };
    proof {
        assert(str_views(args@) =~= spec_transcoder_args(codec, bitrate, source@, target@));
    }
    Cmd { program: program.to_owned(), args }
}

/// The exit code reported in failure messages: the process's own, or
/// `-1` when it exited without one.
pub open spec fn spec_exit_code(code: Option<i32>) -> int {
    match code {
        Some(c) => c as int,
        None => -1,
    }
}

/// The message a failed transcode reports.
pub open spec fn spec_transcoder_failure_message(code: Option<i32>) -> Seq<char> {
    "transcoder exited with code "@ + spec_int_str(spec_exit_code(code))
}

/// Judges a transcoder exit: success is success, and any other exit is
/// a transcoder failure naming the exit code.
pub fn transcode_outcome(success: bool, code: Option<i32>) -> (r: Result<(), Error>)
    ensures
        success ==> r is Ok,
        !success ==> {
            &&& r matches Err(e)
            &&& e.type_ == ErrorType::TranscoderFailure
            &&& e.message@ == spec_transcoder_failure_message(code)
            &&& e.context is None
        },
{
    if success {
        Ok(())
    } else {
        let code_val: i32 = match code {
            Some(c) => c,
            None => -1,
        };
        let message = String::from_str("transcoder exited with code ").concat(
            i32_string(code_val).as_str(),
        );
        Err(Error { type_: ErrorType::TranscoderFailure, message, context: None })
    }
}

} // verus!
