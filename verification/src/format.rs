//! Audio codecs: detection, transcoder names, and bitrate rules.
//!
//! Codec detection is delegated to the `symphonia` probe, which reads a
//! stream's bytes and identifies its container and first track. The
//! probe's verdict is opaque to the library; everything decided from a
//! detected codec onwards is verified.

use vstd::prelude::*;

use crate::errors::{Error, ErrorType};

verus! {

/// An audio codec the library knows how to sync or transcode.
#[derive(Clone, Copy, Debug, PartialEq, Eq, Structural)]
pub enum Codec {
    Opus,
    Vorbis,
    Mp3,
    AacLc,
    Flac,
    Alac,
}

/// What a successful probe of one file yields.
#[derive(Clone, Copy, Debug, PartialEq, Eq, Structural)]
pub struct TrackData {
    pub codec: Codec,
}

/// The file extension written for each codec.
pub open spec fn spec_extension(c: Codec) -> Seq<char> {
    match c {
        Codec::Opus => "opus"@,
        Codec::Vorbis => "ogg"@,
        Codec::Mp3 => "mp3"@,
        Codec::AacLc => "m4a"@,
        Codec::Flac => "flac"@,
        Codec::Alac => "m4a"@,
    }
}

/// The encoder library name handed to the transcoder for each codec.
pub open spec fn spec_encoder_lib(c: Codec) -> Seq<char> {
    match c {
        Codec::Opus => "libopus"@,
        Codec::Vorbis => "libvorbis"@,
        Codec::Mp3 => "libmp3lame"@,
        Codec::AacLc => "aac"@,
        Codec::Flac => "flac"@,
        Codec::Alac => "alac"@,
    }
}

/// The least bitrate (in kbit/s) each codec supports.
pub open spec fn bitrate_min(c: Codec) -> u32 {
    match c {
        Codec::Opus => 6,
        Codec::Vorbis => 64,
        Codec::Mp3 => 32,
        Codec::AacLc => 32,
        Codec::Flac => 128,
        Codec::Alac => 128,
    }
}

/// The greatest bitrate (in kbit/s) each codec supports.
pub open spec fn bitrate_max(c: Codec) -> u32 {
    match c {
        Codec::Opus => 256,
        Codec::Vorbis => 500,
        Codec::Mp3 => 320,
        Codec::AacLc => 320,
        Codec::Flac => 1024,
        Codec::Alac => 1024,
    }
}

/// The bitrate used when the configuration names none.
pub open spec fn default_bitrate(c: Codec) -> u32 {
    match c {
        Codec::Opus => 128,
        Codec::Vorbis => 192,
        Codec::Mp3 => 320,
        Codec::AacLc => 192,
        Codec::Flac => 512,
        Codec::Alac => 512,
    }
}

/// The message rejecting an out-of-range bitrate for each codec.
pub open spec fn bitrate_message(c: Codec) -> Seq<char> {
    match c {
        Codec::Opus => "Bitrate must be between 6 and 256 for format Opus"@,
        Codec::Vorbis => "Bitrate must be between 64 and 500 for format Vorbis"@,
        Codec::Mp3 => "Bitrate must be between 32 and 320 for format Mp3"@,
        Codec::AacLc => "Bitrate must be between 32 and 320 for format AacLc"@,
        Codec::Flac => "Bitrate must be between 128 and 1024 for format Flac"@,
        Codec::Alac => "Bitrate must be between 128 and 1024 for format Alac"@,
    }
}

impl Codec {
    /// The file extension written for this codec.
    pub fn extenstion_str(&self) -> (r: &'static str)
        ensures
            r@ == spec_extension(*self),
    {
        match *self {
            Codec::Opus => "opus",
            Codec::Vorbis => "ogg",
            Codec::Mp3 => "mp3",
            Codec::AacLc => "m4a",
            Codec::Flac => "flac",
            Codec::Alac => "m4a",
        }
    }

    /// The encoder library name handed to the transcoder for this codec.
    pub fn ffmpeg_lib(&self) -> (r: &'static str)
        ensures
            r@ == spec_encoder_lib(*self),
    {
        match *self {
            Codec::Opus => "libopus",
            Codec::Vorbis => "libvorbis",
            Codec::Mp3 => "libmp3lame",
            Codec::AacLc => "aac",
            Codec::Flac => "flac",
            Codec::Alac => "alac",
        }
    }

    /// Resolves a requested bitrate against this codec's supported
    /// range: a request inside the range is taken as is, one outside it
    /// is a configuration error, and no request resolves to the codec's
    /// default.
    pub fn matching_bitrate(&self, optional: Option<u32>) -> (r: Result<u32, Error>)
        ensures
            match optional {
                Some(b) => {
                    if bitrate_min(*self) <= b && b <= bitrate_max(*self) {
                        r == Ok::<u32, Error>(b)
                    } else {
                        &&& r matches Err(e)
                        &&& e.type_ == ErrorType::Configuration
                        &&& e.message@ == bitrate_message(*self)
                        &&& e.context is None
                    }
                },
                None => r == Ok::<u32, Error>(default_bitrate(*self)),
            },
    {
        match optional {
            Some(opt_bitrate) => {
                let min: u32 = match *self {
                    Codec::Opus => 6,
                    Codec::Vorbis => 64,
                    Codec::Mp3 => 32,
                    Codec::AacLc => 32,
                    Codec::Flac => 128,
                    Codec::Alac => 128,
                };
                let max: u32 = match *self {
                    Codec::Opus => 256,
                    Codec::Vorbis => 500,
                    Codec::Mp3 => 320,
                    Codec::AacLc => 320,
                    Codec::Flac => 1024,
                    Codec::Alac => 1024,
                };
                if opt_bitrate < min || opt_bitrate > max {
                    let message = match *self {
                        Codec::Opus => "Bitrate must be between 6 and 256 for format Opus",
                        Codec::Vorbis => "Bitrate must be between 64 and 500 for format Vorbis",
                        Codec::Mp3 => "Bitrate must be between 32 and 320 for format Mp3",
                        Codec::AacLc => "Bitrate must be between 32 and 320 for format AacLc",
                        Codec::Flac => "Bitrate must be between 128 and 1024 for format Flac",
                        Codec::Alac => "Bitrate must be between 128 and 1024 for format Alac",
                    };
                    Err(Error::new(ErrorType::Configuration, message))
                } else {
                    Ok(opt_bitrate)
                }
            },
            None => {
                let default: u32 = match *self {
                    Codec::Opus => 128,
                    Codec::Vorbis => 192,
                    Codec::Mp3 => 320,
                    Codec::AacLc => 192,
                    Codec::Flac => 512,
                    Codec::Alac => 512,
                };
                Ok(default)
            },
        }
    }

    /// Relies on symphonia's codec identifiers (`CODEC_TYPE_OPUS`,
    /// `CODEC_TYPE_VORBIS`, `CODEC_TYPE_MP3`, `CODEC_TYPE_AAC`,
    /// `CODEC_TYPE_FLAC`, `CODEC_TYPE_ALAC`): each identifier the
    /// library handles maps to the codec it stands for, any other to
    /// `None`.
    #[verifier::external_body]
    pub fn from_symphonia(codec_type: symphonia::core::codecs::CodecType) -> (r: Option<Codec>) {
        match codec_type {
            symphonia::core::codecs::CODEC_TYPE_OPUS => Some(Codec::Opus),
            symphonia::core::codecs::CODEC_TYPE_VORBIS => Some(Codec::Vorbis),
            symphonia::core::codecs::CODEC_TYPE_MP3 => Some(Codec::Mp3),
            symphonia::core::codecs::CODEC_TYPE_AAC => Some(Codec::AacLc),
            symphonia::core::codecs::CODEC_TYPE_FLAC => Some(Codec::Flac),
            symphonia::core::codecs::CODEC_TYPE_ALAC => Some(Codec::Alac),
            _ => None,
        }
    }
}

/// Declares symphonia's opaque codec identifier so that values of it
/// can pass through the library's signatures.
#[verifier::external_type_specification]
#[verifier::external_body]
pub struct ExCodecType(symphonia::core::codecs::CodecType);

/// What probing a stream's bytes yields: the codec of its first
/// track, or nothing when no registered format claims the bytes, the
/// stream holds no track, or its codec is one the library does not
/// handle. The probe ignores everything but the bytes themselves, so
/// this is a function of the arguments alone.
pub uninterp spec fn spec_probed_codec(data: Seq<u8>, extension: Seq<char>) -> Option<Codec>;

/// Relies on symphonia's probe (`symphonia::default::get_probe` and
/// `Probe::format`) together with the identifier mapping of
/// `Codec::from_symphonia`: the two realize `spec_probed_codec`, and
/// every way the probe comes up empty — no recognized format, no
/// track, an unhandled codec — is reported as a probe failure. Only
/// the readers for the formats the library handles are built in, so no
/// reader that symphonia itself grades as able to panic is registered.
#[verifier::external_body]
fn probe_codec(data: Vec<u8>, extension: &str) -> (r: Result<Codec, Error>)
    ensures
        r matches Ok(c) ==> spec_probed_codec(data@, extension@) == Some(c),
        r matches Err(e) ==> spec_probed_codec(data@, extension@) is None && e.type_
            == ErrorType::ProbeFailure && e.context is None,
{
    let fail = |message: String| Error { type_: ErrorType::ProbeFailure, message, context: None };
    let source = Box::new(std::io::Cursor::new(data));
    let mss = symphonia::core::io::MediaSourceStream::new(source, Default::default());
    let mut hint = symphonia::core::probe::Hint::new();
    hint.with_extension(extension);
    let probe = symphonia::default::get_probe();
    let probed = probe
        .format(&hint, mss, &Default::default(), &Default::default())
        .map_err(|e| fail(format!("Failed to probe format: {e}")))?;
    let track = probed.format.tracks().first().ok_or_else(|| fail("No tracks found in file".into()))?;
    Codec::from_symphonia(track.codec_params.codec).ok_or_else(|| fail("Unrecognized codec".into()))
}

/// Probes an audio stream's bytes and returns the codec of its first
/// track — `spec_probed_codec` of the bytes. A success carries exactly
/// the probed codec; every way the probe comes up empty is a probe
/// failure, fatal to this file alone.
pub fn get_track_data(data: Vec<u8>, extension: &str) -> (r: Result<TrackData, Error>)
    ensures
        r matches Ok(t) ==> spec_probed_codec(data@, extension@) == Some(t.codec),
        r is Err ==> spec_probed_codec(data@, extension@) is None,
        r matches Err(e) ==> e.type_ == ErrorType::ProbeFailure,
{
    match probe_codec(data, extension) {
        Ok(codec) => Ok(TrackData { codec }),
        Err(e) => Err(e),
    }
}

} // verus!
