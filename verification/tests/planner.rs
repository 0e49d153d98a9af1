use tsync::errors::ErrorType;
use tsync::format::Codec;
use tsync::pipeline::{
    chunk_bounds, chunk_size, collect_transcode_results, copy_context, extra_extensions,
    extra_target_path, filter_extras, readable_extensions, RunState, TranscodedOutput,
};
use tsync::plan::{plan_jobs, Config, FileRecord, Plan, TargetIndex};
use tsync::transcode::{transcode_file, transcode_outcome};

fn record(source: &str, rel: &str, codec: Codec) -> FileRecord {
    FileRecord {
        source_path: source.to_string(),
        relative_path: rel.to_string(),
        detected_codec: codec,
    }
}

fn default_config() -> Config {
    Config {
        sync_codecs: vec![Codec::Opus, Codec::Vorbis, Codec::Mp3, Codec::AacLc],
        transcode_codecs: vec![Codec::Flac, Codec::Alac],
        target_codec: Some(Codec::Opus),
        bitrate: None,
        include_extras: false,
    }
}

fn strings(v: &[&str]) -> Vec<String> {
    v.iter().map(|s| s.to_string()).collect()
}

#[test]
fn flac_track_becomes_one_transcode_job_at_default_bitrate() {
    // One file in the transcode set, target codec set, bitrate unset.
    let cfg = default_config();
    let bitrate = cfg.validate().unwrap().unwrap();
    assert_eq!(bitrate, 128);

    let records = vec![record("src/track.flac", "track.flac", Codec::Flac)];
    let index = TargetIndex::empty();
    let plan = plan_jobs(&records, &cfg, "target", &index);

    assert_eq!(plan.transcode_jobs.len(), 1);
    assert_eq!(plan.sync_jobs.len(), 0);
    assert_eq!(plan.skipped, 0);
    assert_eq!(plan.already_present, 0);
    let job = &plan.transcode_jobs[0];
    assert_eq!(job.source_path, "src/track.flac");
    assert_eq!(job.relative_target_path, "track.opus");
    assert_eq!(job.scratch_path("/tmp/tsync"), "/tmp/tsync/track.opus");

    let cmd = transcode_file(
        &job.source_path,
        &job.scratch_path("/tmp/tsync"),
        Codec::Opus,
        bitrate,
    );
    assert_eq!(cmd.program, "opusenc");
    assert_eq!(
        cmd.args,
        strings(&["--bitrate", "128K", "src/track.flac", "/tmp/tsync/track.opus"])
    );
}

#[test]
fn present_mp3_is_not_copied_again() {
    // The file already sits at the target: no job, one progress hit.
    let cfg = default_config();
    let records = vec![record("src/track.mp3", "track.mp3", Codec::Mp3)];
    let index = TargetIndex::new(strings(&["target/track.mp3"]));
    let plan = plan_jobs(&records, &cfg, "target", &index);

    assert_eq!(plan.transcode_jobs.len(), 0);
    assert_eq!(plan.sync_jobs.len(), 0);
    assert_eq!(plan.already_present, 1);
    assert_eq!(plan.skipped, 0);
}

#[test]
fn plan_partitions_records() {
    let cfg = default_config();
    let records = vec![
        record("src/a/one.mp3", "a/one.mp3", Codec::Mp3),
        record("src/a/two.flac", "a/two.flac", Codec::Flac),
        record("src/b/three.flac", "b/three.flac", Codec::Flac),
        record("src/b/four.mp3", "b/four.mp3", Codec::Mp3),
    ];
    let index = TargetIndex::new(strings(&["target/b/three.opus"]));
    let plan = plan_jobs(&records, &cfg, "target", &index);

    assert_eq!(plan.sync_jobs.len(), 2);
    assert_eq!(plan.sync_jobs[0].source_path, "src/a/one.mp3");
    assert_eq!(plan.sync_jobs[0].relative_target_path, "a/one.mp3");
    assert_eq!(plan.transcode_jobs.len(), 1);
    assert_eq!(plan.transcode_jobs[0].relative_target_path, "a/two.opus");
    assert_eq!(plan.already_present, 1);
    assert_eq!(plan.skipped, 0);
    // Parents are collected once each, in first-seen order, for every
    // record that was syncable or transcodable — present or not.
    assert_eq!(plan.parents, strings(&["src/a", "src/b"]));
}

#[test]
fn skipped_files_only_count() {
    let cfg = Config {
        sync_codecs: vec![Codec::Mp3],
        transcode_codecs: vec![Codec::Flac],
        target_codec: None,
        bitrate: None,
        include_extras: false,
    };
    let records = vec![
        record("src/a.flac", "a.flac", Codec::Flac),
        record("src/b.ogg", "b.ogg", Codec::Vorbis),
    ];
    let plan = plan_jobs(&records, &cfg, "target", &TargetIndex::empty());
    assert_eq!(plan.skipped, 2);
    assert_eq!(plan.sync_jobs.len(), 0);
    assert_eq!(plan.transcode_jobs.len(), 0);
    assert!(plan.parents.is_empty());
}

fn job_targets(plan: &Plan, target_dir: &str) -> Vec<String> {
    let mut v = Vec::new();
    for j in &plan.transcode_jobs {
        v.push(format!("{}/{}", target_dir, j.relative_target_path));
    }
    for j in &plan.sync_jobs {
        v.push(format!("{}/{}", target_dir, j.relative_target_path));
    }
    v
}

#[test]
fn second_run_plans_no_new_work() {
    // Idempotence on concrete values: after the first run's copies, a
    // replan finds every candidate present and produces zero jobs.
    let cfg = default_config();
    let records = vec![
        record("src/a/one.mp3", "a/one.mp3", Codec::Mp3),
        record("src/a/two.flac", "a/two.flac", Codec::Flac),
        record("src/c/five.ogg", "c/five.ogg", Codec::Vorbis),
    ];
    let first = plan_jobs(&records, &cfg, "target", &TargetIndex::empty());
    assert_eq!(first.transcode_jobs.len(), 1);
    assert_eq!(first.sync_jobs.len(), 2);

    let index2 = TargetIndex::new(job_targets(&first, "target"));
    let second = plan_jobs(&records, &cfg, "target", &index2);
    assert_eq!(second.transcode_jobs.len(), 0);
    assert_eq!(second.sync_jobs.len(), 0);
    assert_eq!(second.already_present, 3);
    assert_eq!(second.skipped, first.skipped);
    assert_eq!(second.parents, first.parents);
}

#[test]
fn first_transcoder_error_aborts_the_drain() {
    // One failed job among the results: outputs before it are kept,
    // the run ends with that transcoder failure.
    let ok1 = TranscodedOutput {
        scratch_path: "/tmp/tsync/a.opus".to_string(),
        relative_target_path: "a.opus".to_string(),
    };
    let failure = transcode_outcome(false, Some(1)).unwrap_err();
    let ok2 = TranscodedOutput {
        scratch_path: "/tmp/tsync/c.opus".to_string(),
        relative_target_path: "c.opus".to_string(),
    };
    let results = vec![Ok(ok1), Err(failure), Ok(ok2)];
    let e = collect_transcode_results(results).unwrap_err();
    assert_eq!(e.type_, ErrorType::TranscoderFailure);
    assert_eq!(e.message, "transcoder exited with code 1");
}

#[test]
fn clean_results_are_all_kept_in_order() {
    let mk = |rel: &str| TranscodedOutput {
        scratch_path: format!("/tmp/tsync/{rel}"),
        relative_target_path: rel.to_string(),
    };
    let results = vec![Ok(mk("a.opus")), Ok(mk("b.opus"))];
    let outs = collect_transcode_results(results).unwrap();
    assert_eq!(outs.len(), 2);
    assert_eq!(outs[0].relative_target_path, "a.opus");
    assert_eq!(outs[1].relative_target_path, "b.opus");
}

#[test]
fn transcoder_exit_without_code_reports_minus_one() {
    let e = transcode_outcome(false, None).unwrap_err();
    assert_eq!(e.message, "transcoder exited with code -1");
    assert!(transcode_outcome(true, None).is_ok());
}

#[test]
fn ffmpeg_command_for_non_opus_targets() {
    let cmd = transcode_file("in.flac", "out.ogg", Codec::Vorbis, 192);
    assert_eq!(cmd.program, "ffmpeg");
    assert_eq!(
        cmd.args,
        strings(&["-i", "in.flac", "-c:a", "libvorbis", "-b:a", "192K", "out.ogg"])
    );
}

#[test]
fn chunks_cover_all_jobs_in_order() {
    assert_eq!(chunk_size(10, 4), 2);
    assert_eq!(chunk_size(3, 8), 1);
    assert_eq!(chunk_size(0, 4), 1);

    assert_eq!(chunk_bounds(10, 3), vec![(0, 3), (3, 6), (6, 9), (9, 10)]);
    assert_eq!(chunk_bounds(6, 3), vec![(0, 3), (3, 6)]);
    assert_eq!(chunk_bounds(2, 5), vec![(0, 2)]);
    assert!(chunk_bounds(0, 5).is_empty());
}

#[test]
fn run_states_advance_and_fail_terminally() {
    let s = RunState::Idle.step(true);
    assert_eq!(s, RunState::Validating);
    let s = s.step(true);
    assert_eq!(s, RunState::Indexing);
    let s = s.step(true);
    assert_eq!(s, RunState::Planning);
    let s = s.step(true);
    assert_eq!(s, RunState::Executing);
    let s = s.step(true);
    assert_eq!(s, RunState::ExtrasSync);
    let s = s.step(true);
    assert_eq!(s, RunState::Done);
    assert_eq!(s.step(false), RunState::Done);

    let failed = RunState::Validating.step(false);
    assert_eq!(failed, RunState::Failed);
    assert_eq!(failed.step(true), RunState::Failed);
    assert_eq!(RunState::Executing.step(false), RunState::Failed);
}

#[test]
fn readable_extensions_follow_the_configuration() {
    let cfg = default_config();
    assert_eq!(
        readable_extensions(&cfg),
        strings(&["flac", "m4a", "opus", "ogg", "mp3", "m4a"])
    );

    let cfg = Config { target_codec: None, ..cfg };
    assert_eq!(readable_extensions(&cfg), strings(&["opus", "ogg", "mp3", "m4a"]));
}

#[test]
fn extras_are_searched_under_the_image_extensions() {
    assert_eq!(extra_extensions(), strings(&["jpg", "png", "jpeg"]));
}

#[test]
fn extras_are_filtered_and_resolved() {
    let files = strings(&[
        "src/a/cover.jpg",
        "src/a/booklet.jpg",
        "src/b/FOLDER.PNG",
        "src/b/track.mp3",
    ]);
    let extras = filter_extras(&files);
    assert_eq!(extras, strings(&["src/a/cover.jpg", "src/b/FOLDER.PNG"]));

    assert_eq!(
        extra_target_path("src", "target", "src/a/cover.jpg"),
        Some("target/a/cover.jpg".to_string())
    );
    assert_eq!(extra_target_path("src", "target", "elsewhere/cover.jpg"), None);
}

#[test]
fn copy_context_names_both_paths() {
    assert_eq!(
        copy_context("/tmp/tsync/a.opus", "target/a.opus"),
        "While copying /tmp/tsync/a.opus to target/a.opus"
    );
}
