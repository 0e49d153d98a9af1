use tsync::errors::{Error, ErrorType};
use tsync::format::Codec;
use tsync::plan::{classify, Classification, Config, FileRecord};

fn record(source: &str, rel: &str, codec: Codec) -> FileRecord {
    FileRecord {
        source_path: source.to_string(),
        relative_path: rel.to_string(),
        detected_codec: codec,
    }
}

fn config(
    sync: Vec<Codec>,
    transcode: Vec<Codec>,
    target: Option<Codec>,
    bitrate: Option<u32>,
) -> Config {
    Config {
        sync_codecs: sync,
        transcode_codecs: transcode,
        target_codec: target,
        bitrate,
        include_extras: false,
    }
}

#[test]
fn sync_codec_takes_precedence_over_transcode() {
    // The codec sits in both sets; the sync decision must win.
    let cfg = config(
        vec![Codec::Mp3, Codec::Opus],
        vec![Codec::Mp3, Codec::Flac],
        Some(Codec::Opus),
        None,
    );
    let r = record("src/a.mp3", "a.mp3", Codec::Mp3);
    assert_eq!(classify(&r, &cfg), Classification::Sync);
}

#[test]
fn sync_codec_is_synced_without_target_codec() {
    let cfg = config(vec![Codec::Mp3], vec![Codec::Flac], None, None);
    let r = record("src/a.mp3", "a.mp3", Codec::Mp3);
    assert_eq!(classify(&r, &cfg), Classification::Sync);
}

#[test]
fn transcode_codec_is_transcoded_when_target_set() {
    let cfg = config(vec![Codec::Mp3], vec![Codec::Flac], Some(Codec::Opus), None);
    let r = record("src/a.flac", "a.flac", Codec::Flac);
    assert_eq!(classify(&r, &cfg), Classification::Transcode(Codec::Opus));
}

#[test]
fn transcode_codec_is_skipped_without_target() {
    let cfg = config(vec![Codec::Mp3], vec![Codec::Flac], None, None);
    let r = record("src/a.flac", "a.flac", Codec::Flac);
    assert_eq!(classify(&r, &cfg), Classification::Skip);
}

#[test]
fn unmatched_codec_is_skipped() {
    let cfg = config(vec![Codec::Mp3], vec![Codec::Flac], Some(Codec::Opus), None);
    let r = record("src/a.ogg", "a.ogg", Codec::Vorbis);
    assert_eq!(classify(&r, &cfg), Classification::Skip);
}

#[test]
fn overlapping_sets_with_target_fail_validation() {
    let cfg = config(
        vec![Codec::Mp3, Codec::Flac],
        vec![Codec::Flac],
        Some(Codec::Opus),
        None,
    );
    let e = cfg.validate().unwrap_err();
    assert_eq!(e.type_, ErrorType::Configuration);
    assert_eq!(e.message, "Sync and transcode codecs cannot overlap!");
}

#[test]
fn overlapping_sets_without_target_pass_validation() {
    let cfg = config(vec![Codec::Mp3, Codec::Flac], vec![Codec::Flac], None, None);
    assert_eq!(cfg.validate().unwrap(), None);
}

#[test]
fn disjoint_sets_with_target_resolve_bitrate() {
    let cfg = config(
        vec![Codec::Mp3],
        vec![Codec::Flac],
        Some(Codec::Opus),
        Some(96),
    );
    assert_eq!(cfg.validate().unwrap(), Some(96));
}

#[test]
fn omitted_bitrate_resolves_to_codec_default() {
    assert_eq!(Codec::Opus.matching_bitrate(None).unwrap(), 128);
    assert_eq!(Codec::Vorbis.matching_bitrate(None).unwrap(), 192);
    assert_eq!(Codec::Mp3.matching_bitrate(None).unwrap(), 320);
    assert_eq!(Codec::AacLc.matching_bitrate(None).unwrap(), 192);
    assert_eq!(Codec::Flac.matching_bitrate(None).unwrap(), 512);
    assert_eq!(Codec::Alac.matching_bitrate(None).unwrap(), 512);
}

#[test]
fn bitrate_inside_range_is_kept() {
    assert_eq!(Codec::Opus.matching_bitrate(Some(6)).unwrap(), 6);
    assert_eq!(Codec::Opus.matching_bitrate(Some(256)).unwrap(), 256);
    assert_eq!(Codec::Mp3.matching_bitrate(Some(320)).unwrap(), 320);
}

#[test]
fn bitrate_outside_range_is_a_configuration_error() {
    let e = Codec::Opus.matching_bitrate(Some(5)).unwrap_err();
    assert_eq!(e.type_, ErrorType::Configuration);
    assert_eq!(e.message, "Bitrate must be between 6 and 256 for format Opus");

    let e = Codec::Opus.matching_bitrate(Some(257)).unwrap_err();
    assert_eq!(e.type_, ErrorType::Configuration);

    let e = Codec::Vorbis.matching_bitrate(Some(501)).unwrap_err();
    assert_eq!(e.message, "Bitrate must be between 64 and 500 for format Vorbis");

    let e = Codec::Flac.matching_bitrate(Some(127)).unwrap_err();
    assert_eq!(e.message, "Bitrate must be between 128 and 1024 for format Flac");
}

#[test]
fn bad_bitrate_is_reported_before_overlap() {
    let cfg = config(
        vec![Codec::Flac],
        vec![Codec::Flac],
        Some(Codec::Opus),
        Some(1000),
    );
    let e = cfg.validate().unwrap_err();
    assert_eq!(e.message, "Bitrate must be between 6 and 256 for format Opus");
}

#[test]
fn codec_extensions_and_encoder_names() {
    assert_eq!(Codec::Opus.extenstion_str(), "opus");
    assert_eq!(Codec::Vorbis.extenstion_str(), "ogg");
    assert_eq!(Codec::Mp3.extenstion_str(), "mp3");
    assert_eq!(Codec::AacLc.extenstion_str(), "m4a");
    assert_eq!(Codec::Flac.extenstion_str(), "flac");
    assert_eq!(Codec::Alac.extenstion_str(), "m4a");

    assert_eq!(Codec::Opus.ffmpeg_lib(), "libopus");
    assert_eq!(Codec::Vorbis.ffmpeg_lib(), "libvorbis");
    assert_eq!(Codec::Mp3.ffmpeg_lib(), "libmp3lame");
    assert_eq!(Codec::AacLc.ffmpeg_lib(), "aac");
    assert_eq!(Codec::Flac.ffmpeg_lib(), "flac");
    assert_eq!(Codec::Alac.ffmpeg_lib(), "alac");
}

#[test]
fn errors_render_with_and_without_context() {
    let e = Error::descriptive("broken");
    assert_eq!(e.type_, ErrorType::Descriptive);
    assert_eq!(e.to_message(), "broken");
    let e = e.with_context("at path");
    assert_eq!(e.to_message(), "broken: at path");
}

#[test]
fn abort_is_not_reported_every_other_kind_is() {
    assert!(!Error::new(ErrorType::Abort, "stop").should_report());
    assert!(Error::new(ErrorType::Configuration, "bad").should_report());
    assert!(Error::new(ErrorType::TranscoderFailure, "bad").should_report());
    assert!(Error::new(ErrorType::CopyFailure, "bad").should_report());
    assert!(Error::new(ErrorType::BackendUnavailable, "bad").should_report());
    assert!(Error::new(ErrorType::ProbeFailure, "bad").should_report());
    assert!(Error::new(ErrorType::Io, "bad").should_report());
}
