//! The run around the plan: phases, worker chunks, drained results and
//! the extras pass.
//!
//! The run advances through fixed phases, failing only where failure is
//! allowed; transcode jobs are split into contiguous chunks, one per
//! worker; and the first error drained from the workers' results ends
//! the run. The caller owns the threads, channels and processes — the
//! decisions stand here.

use vstd::prelude::*;

use crate::errors::Error;
use crate::format::{spec_extension, Codec};
use crate::paths::{
    join, spec_is_extra, spec_join, spec_strip_prefix, str_views, strip_prefix, PathExtensions,
};
use crate::plan::Config;

verus! {

/// The phases of one run, in order.
#[derive(Clone, Copy, Debug, PartialEq, Eq, Structural)]
pub enum RunState {
    /// Nothing started yet.
    Idle,
    /// The configuration is being checked.
    Validating,
    /// The target's contents are being listed.
    Indexing,
    /// Files are being probed and classified.
    Planning,
    /// Transcodes and copies are running.
    Executing,
    /// Sidecar artwork is being synced.
    ExtrasSync,
    /// The run finished.
    Done,
    /// The run failed; terminal.
    Failed,
}

/// How one phase outcome advances the run: validating, indexing and
/// executing may fail, every other phase only moves forward, and the
/// terminal states absorb everything.
pub open spec fn spec_step(s: RunState, ok: bool) -> RunState {
    match s {
        RunState::Idle => RunState::Validating,
        RunState::Validating => if ok {
            RunState::Indexing
        } else {
            RunState::Failed
        },
        RunState::Indexing => if ok {
            RunState::Planning
        } else {
            RunState::Failed
        },
        RunState::Planning => RunState::Executing,
        RunState::Executing => if ok {
            RunState::ExtrasSync
        } else {
            RunState::Failed
        },
        RunState::ExtrasSync => RunState::Done,
        RunState::Done => RunState::Done,
        RunState::Failed => RunState::Failed,
    }
}

/// The run after a whole sequence of phase outcomes.
pub open spec fn spec_run(s: RunState, events: Seq<bool>) -> RunState
    decreases events.len(),
{
    if events.len() == 0 {
        s
    } else {
        spec_run(spec_step(s, events[0]), events.drop_first())
    }
}

impl RunState {
    /// Advances the run by one phase outcome, per `spec_step`.
    pub fn step(self, ok: bool) -> (r: RunState)
        ensures
            r == spec_step(self, ok),
    {
        match self {
            RunState::Idle => RunState::Validating,
            RunState::Validating => if ok {
                RunState::Indexing
            } else {
                RunState::Failed
            },
            RunState::Indexing => if ok {
                RunState::Planning
            } else {
                RunState::Failed
            },
            RunState::Planning => RunState::Executing,
            RunState::Executing => if ok {
                RunState::ExtrasSync
            } else {
                RunState::Failed
            },
            RunState::ExtrasSync => RunState::Done,
            RunState::Done => RunState::Done,
            RunState::Failed => RunState::Failed,
        }
    }
}

/// A failed run stays failed, whatever happens after.
pub proof fn lemma_failed_absorbs(events: Seq<bool>)
    ensures
        spec_run(RunState::Failed, events) == RunState::Failed,
    decreases events.len(),
{
    if events.len() > 0 {
        lemma_failed_absorbs(events.drop_first());
    }
}

/// A run whose validation fails never indexes, plans or executes: from
/// that moment every state is `Failed`.
pub proof fn lemma_rejected_validation_never_runs(events: Seq<bool>)
    ensures
        spec_run(spec_step(RunState::Validating, false), events) == RunState::Failed,
{
    lemma_failed_absorbs(events);
}

/// The chunk size for a worker pool: an even share, at least one.
pub fn chunk_size(len: usize, workers: usize) -> (r: usize)
    requires
        workers >= 1,
    ensures
        r == if len as int / workers as int >= 1 {
            len as int / workers as int
        } else {
            1int
        },
{
    let share = len / workers;
    if share == 0 {
        1
    } else {
        share
    }
}

/// Splits `len` jobs into contiguous chunks of `size`: every chunk but
/// the last is full, the last holds the rest, and together they cover
/// the jobs once, in order.
pub fn chunk_bounds(len: usize, size: usize) -> (r: Vec<(usize, usize)>)
    requires
        size >= 1,
    ensures
        (r@.len() == 0) == (len == 0),
        r@.len() > 0 ==> r@[0].0 == 0 && r@[r@.len() - 1].1 == len,
        forall|i: int| 0 <= i < r@.len() ==> r@[i].0 < r@[i].1 && r@[i].1 - r@[i].0 <= size,
        forall|i: int| 0 <= i < r@.len() - 1 ==> r@[i].1 == r@[i + 1].0 && r@[i].1 - r@[i].0
            == size,
{
    let mut out: Vec<(usize, usize)> = Vec::new();
    let mut start: usize = 0;
    while start < len
        invariant
            size >= 1,
            start <= len,
            (out@.len() == 0) ==> start == 0,
            out@.len() > 0 ==> out@[0].0 == 0 && out@[out@.len() - 1].1 == start,
            forall|i: int| 0 <= i < out@.len() ==> out@[i].0 < out@[i].1 && out@[i].1 - out@[i].0
                <= size,
            forall|i: int| 0 <= i < out@.len() - 1 ==> out@[i].1 == out@[i + 1].0 && out@[i].1
                - out@[i].0 == size,
            start < len && out@.len() > 0 ==> out@[out@.len() - 1].1 - out@[out@.len() - 1].0
                == size,
        decreases len - start,
    {
        let end = if len - start > size {
            start + size
        } else {
            len
        };
        out.push((start, end));
        start = end;
    }
    out
}

/// What one finished transcode hands back for copy-out: where its
/// output sits in the scratch area, and where it belongs relative to
/// the target root.
#[derive(Debug)]
pub struct TranscodedOutput {
    pub scratch_path: String,
    pub relative_target_path: String,
}

/// The position of the first error among the workers' results, or `-1`
/// when all succeeded.
pub open spec fn first_err_idx(results: Seq<Result<TranscodedOutput, Error>>) -> int
    decreases results.len(),
{
    if results.len() == 0 {
        -1
    } else if results[0] is Err {
        0
    } else {
        let r = first_err_idx(results.drop_first());
        if r == -1 {
            -1
        } else {
            r + 1
        }
    }
}

/// An error with every earlier result a success is the first error.
proof fn lemma_first_err_found(results: Seq<Result<TranscodedOutput, Error>>, k: int)
    requires
        0 <= k < results.len(),
        results[k] is Err,
        forall|j: int| 0 <= j < k ==> results[j] is Ok,
    ensures
        first_err_idx(results) == k,
    decreases results.len(),
{
    if k > 0 {
        assert(forall|j: int|
            0 <= j < results.len() - 1 ==> results.drop_first()[j] == results[j + 1]);
        lemma_first_err_found(results.drop_first(), k - 1);
    }
}

/// Where the first error lies, when there is one: at an error, below
/// the length.
proof fn lemma_first_err_bounds(results: Seq<Result<TranscodedOutput, Error>>)
    ensures
        -1 <= first_err_idx(results) < results.len(),
        first_err_idx(results) >= 0 ==> results[first_err_idx(results)] is Err,
    decreases results.len(),
{
    if results.len() > 0 && !(results[0] is Err) {
        lemma_first_err_bounds(results.drop_first());
    }
}

/// With every result a success, there is no first error.
proof fn lemma_first_err_none(results: Seq<Result<TranscodedOutput, Error>>)
    requires
        forall|j: int| 0 <= j < results.len() ==> results[j] is Ok,
    ensures
        first_err_idx(results) == -1,
    decreases results.len(),
{
    if results.len() > 0 {
        assert(forall|j: int|
            0 <= j < results.len() - 1 ==> results.drop_first()[j] == results[j + 1]);
        lemma_first_err_none(results.drop_first());
    }
}

/// The successful outputs, in their reported order.
pub open spec fn spec_oks(results: Seq<Result<TranscodedOutput, Error>>) -> Seq<TranscodedOutput>
    decreases results.len(),
{
    if results.len() == 0 {
        Seq::empty()
    } else {
        (match results[0] {
            Ok(o) => seq![o],
            Err(_) => Seq::empty(),
        }) + spec_oks(results.drop_first())
    }
}

/// Drains the workers' results in order: every output before the first
/// error is kept for copy-out, and the first error — the one the run
/// aborts with — is returned as it came. Results after it are
/// discarded, as a run that is already failing discards the outputs of
/// jobs still in flight.
pub fn collect_transcode_results(results: Vec<Result<TranscodedOutput, Error>>) -> (r: Result<
    Vec<TranscodedOutput>,
    Error,
>)
    ensures
        first_err_idx(results@) == -1 ==> (r matches Ok(outs) && outs@ == spec_oks(results@)),
        first_err_idx(results@) >= 0 ==> (r matches Err(e) && results@[first_err_idx(results@)]
            == Err::<TranscodedOutput, Error>(e)),
    decreases results@.len(),
{
    let mut remaining = results;
    let ghost all = remaining@;
    if remaining.len() == 0 {
        return Ok(Vec::new());
    }
    let head = remaining.remove(0);
    proof {
        assert(remaining@ =~= all.drop_first());
    }
    match head {
        Ok(o) => {
            proof {
                assert(head == all[0]);
            }
            match collect_transcode_results(remaining) {
                Ok(tail) => {
                    let mut out: Vec<TranscodedOutput> = Vec::new();
                    out.push(o);
                    let mut rest = tail;
                    let ghost pre = out@;
                    let ghost tl = rest@;
                    out.append(&mut rest);
                    proof {
                        lemma_first_err_bounds(all.drop_first());
                        assert(out@ == pre + tl);
                        assert(pre =~= seq![o]);
                        assert(out@ =~= spec_oks(all));
                    }
                    Ok(out)
                },
                Err(e) => {
                    proof {
                        lemma_first_err_bounds(all.drop_first());
                        let r = first_err_idx(all.drop_first());
                        assert(r >= 0);
                        assert(first_err_idx(all) == r + 1);
                        assert(all[r + 1] == all.drop_first()[r]);
                    }
                    Err(e)
                },
            }
        },
        Err(e) => {
            proof {
                assert(first_err_idx(all) == 0);
            }
            Err(e)
        },
    }
}

/// The extensions the given codecs are written under, in order.
pub open spec fn codec_extensions(codecs: Seq<Codec>) -> Seq<Seq<char>>
    decreases codecs.len(),
{
    if codecs.len() == 0 {
        Seq::empty()
    } else {
        codec_extensions(codecs.drop_last()) + seq![spec_extension(codecs.last())]
    }
}

/// The extensions a run reads from the source tree: those of the
/// transcode codecs — when a target codec is set — followed by those
/// of the sync codecs.
pub open spec fn spec_readable_extensions(config: Config) -> Seq<Seq<char>> {
    if config.target_codec is Some {
        codec_extensions(config.transcode_codecs@) + codec_extensions(config.sync_codecs@)
    } else {
        codec_extensions(config.sync_codecs@)
    }
}

/// Collects the extensions of the given codecs, per `codec_extensions`.
fn push_codec_extensions(out: &mut Vec<String>, codecs: &Vec<Codec>)
    ensures
        str_views(final(out)@) == str_views(old(out)@) + codec_extensions(codecs@),
{
    let ghost base = str_views(out@);
    let mut i: usize = 0;
    while i < codecs.len()
        invariant
            i <= codecs@.len(),
            str_views(out@) == base + codec_extensions(codecs@.subrange(0, i as int)),
        decreases codecs@.len() - i,
    {
        let ghost pre = out@;
        out.push(codecs[i].extenstion_str().to_owned());
        proof {
            assert(codecs@.subrange(0, i + 1).drop_last() =~= codecs@.subrange(0, i as int));
            assert(codecs@.subrange(0, i + 1).last() == codecs@[i as int]);
            assert(codec_extensions(codecs@.subrange(0, i + 1)) == codec_extensions(
                codecs@.subrange(0, i as int),
            ) + seq![spec_extension(codecs@[i as int])]);
            assert(out@ =~= pre + seq![out@.last()]);
            crate::paths::lemma_str_views_add(pre, seq![out@.last()]);
            assert(str_views(seq![out@.last()]) =~= seq![spec_extension(codecs@[i as int])]);
            assert(str_views(out@) =~= base + codec_extensions(codecs@.subrange(0, i + 1)));
        }
        i = i + 1;
    }
    proof {
        assert(codecs@.subrange(0, codecs@.len() as int) =~= codecs@);
    }
}

/// Collects the file extensions the run's configuration makes
/// readable, per `spec_readable_extensions`.
pub fn readable_extensions(config: &Config) -> (r: Vec<String>)
    ensures
        str_views(r@) == spec_readable_extensions(*config),
{
    let mut out: Vec<String> = Vec::new();
    proof {
        assert(str_views(out@) =~= Seq::<Seq<char>>::empty());
    }
    if config.target_codec.is_some() {
        push_codec_extensions(&mut out, &config.transcode_codecs);
    }
    push_codec_extensions(&mut out, &config.sync_codecs);
    out
}

/// The file extensions under which sidecar artwork is searched for.
pub open spec fn spec_extra_extensions() -> Seq<Seq<char>> {
    seq!["jpg"@, "png"@, "jpeg"@]
}

/// The extensions the extras pass reads candidates under, per
/// `spec_extra_extensions`.
pub fn extra_extensions() -> (r: Vec<String>)
    ensures
        str_views(r@) == spec_extra_extensions(),
{
    let mut out: Vec<String> = Vec::new();
    out.push("jpg".to_owned());
    out.push("png".to_owned());
    out.push("jpeg".to_owned());
    proof {
        assert(str_views(out@) =~= spec_extra_extensions());
    }
    out
}

/// The paths that name sidecar artwork, in their given order.
pub open spec fn spec_extras(files: Seq<Seq<char>>) -> Seq<Seq<char>>
    decreases files.len(),
{
    if files.len() == 0 {
        Seq::empty()
    } else {
        spec_extras(files.drop_last()) + if spec_is_extra(files.last()) {
            seq![files.last()]
        } else {
            Seq::empty()
        }
    }
}

/// Keeps, of the candidate files, those whose name is recognized
/// sidecar artwork.
pub fn filter_extras(files: &Vec<String>) -> (r: Vec<String>)
    ensures
        str_views(r@) == spec_extras(str_views(files@)),
{
    let ghost all = str_views(files@);
    let mut out: Vec<String> = Vec::new();
    let mut i: usize = 0;
    while i < files.len()
        invariant
            i <= files@.len(),
            all == str_views(files@),
            str_views(out@) == spec_extras(all.subrange(0, i as int)),
        decreases files@.len() - i,
    {
        if files[i].is_extra() {
            out.push(files[i].clone());
        }
        proof {
            assert(all.subrange(0, i + 1).drop_last() =~= all.subrange(0, i as int));
            assert(str_views(out@) =~= spec_extras(all.subrange(0, i + 1)));
        }
        i = i + 1;
    }
    proof {
        assert(all.subrange(0, files@.len() as int) =~= all);
    }
    out
}

/// Where one sidecar file lands: its path relative to the source root,
/// resolved against the target root — or nothing when it does not lie
/// under the source root.
pub fn extra_target_path(source_dir: &str, target_dir: &str, file: &str) -> (r: Option<String>)
    ensures
        match spec_strip_prefix(file@, source_dir@) {
            Some(rel) => r matches Some(t) && t@ == spec_join(target_dir@, rel),
            None => r is None,
        },
{
    match strip_prefix(file, source_dir) {
        Some(rel) => Some(join(target_dir, rel.as_str())),
        None => None,
    }
}

/// The context note a failed copy carries: which source went to which
/// target.
pub open spec fn spec_copy_context(source: Seq<char>, target: Seq<char>) -> Seq<char> {
    "While copying "@ + source + " to "@ + target
}

/// Renders the failed-copy context note, per `spec_copy_context`.
pub fn copy_context(source: &str, target: &str) -> (r: String)
    ensures
        r@ == spec_copy_context(source@, target@),
{
    String::from_str("While copying ").concat(source).concat(" to ").concat(target)
}

} // verus!
