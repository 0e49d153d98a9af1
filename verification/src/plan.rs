//! The planning engine: what one run decides to do.
//!
//! A run's configuration is validated once; each probed file is then
//! classified as copied, transcoded or skipped; and every candidate's
//! target path is checked against the index of paths already present,
//! so work done by an earlier run is never repeated.

use vstd::prelude::*;

use crate::errors::{Error, ErrorType};
use crate::format::{
    bitrate_max, bitrate_message, bitrate_min, default_bitrate, spec_extension, Codec,
};
use crate::listing::contains_str;
use crate::paths::{
    join, parent_dir, spec_join, spec_parent, spec_with_extension, str_eq, str_views,
    with_extension,
};

verus! {

/// Everything one run is configured with.
#[derive(Debug)]
pub struct Config {
    /// Codecs copied as they are.
    pub sync_codecs: Vec<Codec>,
    /// Codecs converted when a target codec is set.
    pub transcode_codecs: Vec<Codec>,
    /// The codec transcoded into, if any.
    pub target_codec: Option<Codec>,
    /// The requested bitrate in kbit/s, if any.
    pub bitrate: Option<u32>,
    /// Whether sidecar artwork is synced too.
    pub include_extras: bool,
}

/// Whether `c` occurs in the codec list.
pub fn codec_in_list(list: &Vec<Codec>, c: Codec) -> (r: bool)
    ensures
        r == list@.contains(c),
{
    let mut i: usize = 0;
    while i < list.len()
        invariant
            i <= list@.len(),
            forall|j: int| 0 <= j < i ==> list@[j] != c,
        decreases list@.len() - i,
    {
        if list[i] == c {
            return true;
        }
        i = i + 1;
    }
    false
}

impl Config {
    /// Whether some transcode codec also stands in the sync set.
    pub open spec fn spec_overlap(self) -> bool {
        exists|i: int|
            0 <= i < self.transcode_codecs@.len() && self.sync_codecs@.contains(
                self.transcode_codecs@[i],
            )
    }

    /// The message rejecting overlapping codec sets.
    pub open spec fn overlap_message() -> Seq<char> {
        "Sync and transcode codecs cannot overlap!"@
    }

    /// The bitrate a run transcodes at: the requested one, or the
    /// target codec's default.
    pub open spec fn spec_resolved_bitrate(c: Codec, requested: Option<u32>) -> u32 {
        match requested {
            Some(b) => b,
            None => default_bitrate(c),
        }
    }

    /// Validates the configuration before any file is touched. With no
    /// target codec there is nothing to check. With one, a requested
    /// bitrate outside the codec's range is a configuration error; so
    /// are sync and transcode sets that overlap; otherwise the resolved
    /// bitrate is returned.
    pub fn validate(&self) -> (r: Result<Option<u32>, Error>)
        ensures
            match self.target_codec {
                None => r == Ok::<Option<u32>, Error>(None),
                Some(c) => {
                    if self.bitrate matches Some(b) && !(bitrate_min(c) <= b <= bitrate_max(c)) {
                        &&& r matches Err(e)
                        &&& e.type_ == ErrorType::Configuration
                        &&& e.message@ == bitrate_message(c)
                    } else if self.spec_overlap() {
                        &&& r matches Err(e)
                        &&& e.type_ == ErrorType::Configuration
                        &&& e.message@ == Config::overlap_message()
                    } else {
                        r == Ok::<Option<u32>, Error>(
                            Some(Config::spec_resolved_bitrate(c, self.bitrate)),
                        )
                    }
                },
            },
    {
        let resolved: Option<u32> = match &self.target_codec {
            None => None,
            Some(c) => match c.matching_bitrate(self.bitrate) {
                Ok(b) => Some(b),
                Err(e) => {
                    return Err(e);
                },
            },
        };
        if resolved.is_some() && self.sets_overlap() {
            return Err(Error::new(ErrorType::Configuration, "Sync and transcode codecs cannot overlap!"));
        }
        Ok(resolved)
    }

    /// Whether the transcode set shares a codec with the sync set.
    pub fn sets_overlap(&self) -> (r: bool)
        ensures
            r == self.spec_overlap(),
    {
        let mut i: usize = 0;
        while i < self.transcode_codecs.len()
            invariant
                i <= self.transcode_codecs@.len(),
                forall|j: int|
                    0 <= j < i ==> !self.sync_codecs@.contains(self.transcode_codecs@[j]),
            decreases self.transcode_codecs@.len() - i,
        {
            if codec_in_list(&self.sync_codecs, self.transcode_codecs[i]) {
                return true;
            }
            i = i + 1;
        }
        false
    }
}

/// The per-file decision: copy as is, convert, or leave out.
#[derive(Clone, Copy, Debug, PartialEq, Eq, Structural)]
pub enum Classification {
    /// Copied unchanged.
    Sync,
    /// Converted into the given codec.
    Transcode(Codec),
    /// Left out: no configured codec matches.
    Skip,
}

/// How a file's detected codec is classified. A codec in the sync set
/// is synced, whatever else is configured; otherwise, with a target
/// codec set, a codec in the transcode set is transcoded into it; all
/// else is skipped.
pub open spec fn spec_classify(codec: Codec, config: Config) -> Classification {
    if config.sync_codecs@.contains(codec) {
        Classification::Sync
    } else {
        match config.target_codec {
            Some(t) => if config.transcode_codecs@.contains(codec) {
                Classification::Transcode(t)
            } else {
                Classification::Skip
            },
            None => Classification::Skip,
        }
    }
}

/// Sync precedence: a file whose codec stands in the sync set is
/// classified `Sync`, whatever the transcode configuration says.
pub proof fn lemma_sync_precedence(codec: Codec, config: Config)
    requires
        config.sync_codecs@.contains(codec),
    ensures
        spec_classify(codec, config) == Classification::Sync,
{
}

/// One probed source file, ready to classify.
#[derive(Debug)]
pub struct FileRecord {
    /// Where the file lies in the source tree.
    pub source_path: String,
    /// Its path relative to the source root.
    pub relative_path: String,
    /// What the probe said it holds.
    pub detected_codec: Codec,
}

/// The mathematical image of a `FileRecord`.
pub ghost struct FileRecordV {
    pub source_path: Seq<char>,
    pub relative_path: Seq<char>,
    pub detected_codec: Codec,
}

impl View for FileRecord {
    type V = FileRecordV;

    open spec fn view(&self) -> FileRecordV {
        FileRecordV {
            source_path: self.source_path@,
            relative_path: self.relative_path@,
            detected_codec: self.detected_codec,
        }
    }
}

/// The views of a sequence of records.
pub open spec fn fr_views(s: Seq<FileRecord>) -> Seq<FileRecordV> {
    s.map_values(|r: FileRecord| r@)
}

/// Classifies one record under the configuration.
pub fn classify(record: &FileRecord, config: &Config) -> (r: Classification)
    ensures
        r == spec_classify(record.detected_codec, *config),
{
    if codec_in_list(&config.sync_codecs, record.detected_codec) {
        Classification::Sync
    } else {
        match config.target_codec {
            Some(t) => if codec_in_list(&config.transcode_codecs, record.detected_codec) {
                Classification::Transcode(t)
            } else {
                Classification::Skip
            },
            None => Classification::Skip,
        }
    }
}

/// A direct copy: one source file and where it lands, relative to the
/// target root.
#[derive(Debug)]
pub struct SyncJob {
    pub source_path: String,
    pub relative_target_path: String,
}

/// The mathematical image of a `SyncJob`.
pub ghost struct SyncJobV {
    pub source_path: Seq<char>,
    pub relative_target_path: Seq<char>,
}

impl View for SyncJob {
    type V = SyncJobV;

    open spec fn view(&self) -> SyncJobV {
        SyncJobV {
            source_path: self.source_path@,
            relative_target_path: self.relative_target_path@,
        }
    }
}

/// A conversion: one source file, and where its converted form lands,
/// relative to the target root — already renamed to the target codec's
/// extension.
#[derive(Debug)]
pub struct TranscodeJob {
    pub source_path: String,
    pub relative_target_path: String,
}

/// The mathematical image of a `TranscodeJob`.
pub ghost struct TranscodeJobV {
    pub source_path: Seq<char>,
    pub relative_target_path: Seq<char>,
}

impl View for TranscodeJob {
    type V = TranscodeJobV;

    open spec fn view(&self) -> TranscodeJobV {
        TranscodeJobV {
            source_path: self.source_path@,
            relative_target_path: self.relative_target_path@,
        }
    }
}

impl TranscodeJob {
    /// Where this job's output is written while mid-transcode: its
    /// relative target path resolved against the scratch root.
    pub fn scratch_path(&self, scratch_root: &str) -> (r: String)
        ensures
            r@ == spec_join(scratch_root@, self.relative_target_path@),
    {
        join(scratch_root, self.relative_target_path.as_str())
    }
}

/// The views of a sequence of transcode jobs.
pub open spec fn tj_views(s: Seq<TranscodeJob>) -> Seq<TranscodeJobV> {
    s.map_values(|j: TranscodeJob| j@)
}

/// The views of a sequence of sync jobs.
pub open spec fn sj_views(s: Seq<SyncJob>) -> Seq<SyncJobV> {
    s.map_values(|j: SyncJob| j@)
}

/// The set of target paths already present, built once per run and
/// read-only afterwards.
#[derive(Debug)]
pub struct TargetIndex {
    paths: Vec<String>,
}

impl View for TargetIndex {
    type V = Set<Seq<char>>;

    closed spec fn view(&self) -> Set<Seq<char>> {
        str_views(self.paths@).to_set()
    }
}

impl TargetIndex {
    /// Builds the index from the paths listed at the target.
    pub fn new(paths: Vec<String>) -> (r: TargetIndex)
        ensures
            r@ == str_views(paths@).to_set(),
    {
        TargetIndex { paths }
    }

    /// The empty index: an absent target root holds nothing.
    pub fn empty() -> (r: TargetIndex)
        ensures
            r@ == Set::<Seq<char>>::empty(),
    {
        let paths: Vec<String> = Vec::new();
        proof {
            assert(str_views(paths@).to_set() =~= Set::<Seq<char>>::empty());
        }
        TargetIndex { paths }
    }

    /// Whether `path` is already present at the target.
    pub fn contains(&self, path: &str) -> (r: bool)
        ensures
            r == self@.contains(path@),
    {
        let mut i: usize = 0;
        while i < self.paths.len()
            invariant
                i <= self.paths@.len(),
                forall|j: int| 0 <= j < i ==> self.paths@[j]@ != path@,
            decreases self.paths@.len() - i,
        {
            if str_eq(self.paths[i].as_str(), path) {
                assert(str_views(self.paths@)[i as int] == path@);
                return true;
            }
            i = i + 1;
        }
        assert(!str_views(self.paths@).contains(path@));
        false
    }
}

/// The mathematical image of a whole plan.
pub ghost struct PlanV {
    pub transcode: Seq<TranscodeJobV>,
    pub sync: Seq<SyncJobV>,
    pub skipped: nat,
    pub already: nat,
    pub parents: Seq<Seq<char>>,
}

/// The empty plan.
pub open spec fn spec_plan_empty() -> PlanV {
    PlanV {
        transcode: Seq::empty(),
        sync: Seq::empty(),
        skipped: 0,
        already: 0,
        parents: Seq::empty(),
    }
}

/// How one record extends a plan. A record that is synced or
/// transcoded contributes its parent directory (once). Its target path
/// is then checked against the index: a hit counts as already present,
/// a miss becomes a job. A skipped record only counts as skipped.
pub open spec fn spec_plan_step(
    prev: PlanV,
    r: FileRecordV,
    config: Config,
    target_dir: Seq<char>,
    index: Set<Seq<char>>,
) -> PlanV {
    let cls = spec_classify(r.detected_codec, config);
    let parents = match spec_parent(r.source_path) {
        Some(par) => if (cls is Sync || cls is Transcode) && !prev.parents.contains(par) {
            prev.parents.push(par)
        } else {
            prev.parents
        },
        None => prev.parents,
    };
    match cls {
        Classification::Sync => {
            let target_path = spec_join(target_dir, r.relative_path);
            if index.contains(target_path) {
                PlanV { already: prev.already + 1, parents, ..prev }
            } else {
                PlanV {
                    sync: prev.sync.push(
                        SyncJobV {
                            source_path: r.source_path,
                            relative_target_path: r.relative_path,
                        },
                    ),
                    parents,
                    ..prev
                }
            }
        },
        Classification::Transcode(t) => {
            let rel = spec_with_extension(r.relative_path, spec_extension(t));
            let target_path = spec_join(target_dir, rel);
            if index.contains(target_path) {
                PlanV { already: prev.already + 1, parents, ..prev }
            } else {
                PlanV {
                    transcode: prev.transcode.push(
                        TranscodeJobV { source_path: r.source_path, relative_target_path: rel },
                    ),
                    parents,
                    ..prev
                }
            }
        },
        Classification::Skip => PlanV { skipped: prev.skipped + 1, parents, ..prev },
    }
}

/// The plan the records produce, record by record in order.
pub open spec fn spec_plan(
    records: Seq<FileRecordV>,
    config: Config,
    target_dir: Seq<char>,
    index: Set<Seq<char>>,
) -> PlanV
    decreases records.len(),
{
    if records.len() == 0 {
        spec_plan_empty()
    } else {
        spec_plan_step(
            spec_plan(records.drop_last(), config, target_dir, index),
            records.last(),
            config,
            target_dir,
            index,
        )
    }
}

/// Everything one run will do, partitioned.
#[derive(Debug)]
pub struct Plan {
    /// The files to convert.
    pub transcode_jobs: Vec<TranscodeJob>,
    /// The files to copy as they are.
    pub sync_jobs: Vec<SyncJob>,
    /// How many files no configured codec matched.
    pub skipped: u64,
    /// How many candidates were already present at the target.
    pub already_present: u64,
    /// The source directories that contributed at least one job
    /// candidate, in first-seen order, each once.
    pub parents: Vec<String>,
}

impl View for Plan {
    type V = PlanV;

    open spec fn view(&self) -> PlanV {
        PlanV {
            transcode: tj_views(self.transcode_jobs@),
            sync: sj_views(self.sync_jobs@),
            skipped: self.skipped as nat,
            already: self.already_present as nat,
            parents: str_views(self.parents@),
        }
    }
}

/// Partitions the classified records into transcode jobs, direct
/// copies, skips and already-present hits, per `spec_plan`.
pub fn plan_jobs(
    records: &Vec<FileRecord>,
    config: &Config,
    target_dir: &str,
    index: &TargetIndex,
) -> (r: Plan)
    ensures
        r@ == spec_plan(fr_views(records@), *config, target_dir@, index@),
{
    let ghost rvs = fr_views(records@);
    let mut transcode_jobs: Vec<TranscodeJob> = Vec::new();
    let mut sync_jobs: Vec<SyncJob> = Vec::new();
    let mut skipped: u64 = 0;
    let mut already_present: u64 = 0;
    let mut parents: Vec<String> = Vec::new();
    let mut i: usize = 0;
    while i < records.len()
        invariant
            i <= records@.len(),
            rvs == fr_views(records@),
            skipped <= i,
            already_present <= i,
            tj_views(transcode_jobs@) == spec_plan(
                rvs.subrange(0, i as int),
                *config,
                target_dir@,
                index@,
            ).transcode,
            sj_views(sync_jobs@) == spec_plan(
                rvs.subrange(0, i as int),
                *config,
                target_dir@,
                index@,
            ).sync,
            skipped as nat == spec_plan(
                rvs.subrange(0, i as int),
                *config,
                target_dir@,
                index@,
            ).skipped,
            already_present as nat == spec_plan(
                rvs.subrange(0, i as int),
                *config,
                target_dir@,
                index@,
            ).already,
            str_views(parents@) == spec_plan(
                rvs.subrange(0, i as int),
                *config,
                target_dir@,
                index@,
            ).parents,
        decreases records@.len() - i,
    {
        let record = &records[i];
        let cls = classify(record, config);
        let contributes = match cls {
            Classification::Skip => false,
            _ => true,
        };
        if contributes {
            match parent_dir(record.source_path.as_str()) {
                Some(par) => {
                    if !contains_str(&parents, par.as_str()) {
                        parents.push(par);
                    }
                },
                None => {},
            }
        }
        match cls {
            Classification::Sync => {
                let target_path = join(target_dir, record.relative_path.as_str());
                if index.contains(target_path.as_str()) {
                    already_present = already_present + 1;
                } else {
                    sync_jobs.push(
                        SyncJob {
                            source_path: record.source_path.clone(),
                            relative_target_path: record.relative_path.clone(),
                        },
                    );
                }
            },
            Classification::Transcode(t) => {
                let rel = with_extension(record.relative_path.as_str(), t.extenstion_str());
                let target_path = join(target_dir, rel.as_str());
                if index.contains(target_path.as_str()) {
                    already_present = already_present + 1;
                } else {
                    transcode_jobs.push(
                        TranscodeJob {
                            source_path: record.source_path.clone(),
                            relative_target_path: rel,
                        },
                    );
                }
            },
            Classification::Skip => {
                skipped = skipped + 1;
            },
        }
        proof {
            assert(rvs.subrange(0, i + 1).drop_last() =~= rvs.subrange(0, i as int));
            assert(rvs.subrange(0, i + 1).last() == records@[i as int]@);
            let prev = spec_plan(rvs.subrange(0, i as int), *config, target_dir@, index@);
            let stepped = spec_plan_step(
                prev,
                records@[i as int]@,
                *config,
                target_dir@,
                index@,
            );
            assert(tj_views(transcode_jobs@) =~= stepped.transcode);
            assert(sj_views(sync_jobs@) =~= stepped.sync);
            assert(str_views(parents@) =~= stepped.parents);
        }
        i = i + 1;
    }
    proof {
        assert(rvs.subrange(0, records@.len() as int) =~= rvs);
    }
    let plan = Plan { transcode_jobs, sync_jobs, skipped, already_present, parents };
    plan
}

/// Idempotence of planning: replanning the same records against an
/// index that also holds every target path the first plan produced
/// yields no further copy or transcode work — every candidate is found
/// already present — while the skips and the parent set stay the same.
pub proof fn lemma_replan_is_idle(
    records: Seq<FileRecordV>,
    config: Config,
    target_dir: Seq<char>,
    index: Set<Seq<char>>,
    index2: Set<Seq<char>>,
)
    requires
        forall|p: Seq<char>| index.contains(p) ==> index2.contains(p),
        forall|i: int|
            0 <= i < spec_plan(records, config, target_dir, index).transcode.len()
                ==> index2.contains(
                spec_join(
                    target_dir,
                    spec_plan(records, config, target_dir, index).transcode[i].relative_target_path,
                ),
            ),
        forall|i: int|
            0 <= i < spec_plan(records, config, target_dir, index).sync.len() ==> index2.contains(
                spec_join(
                    target_dir,
                    spec_plan(records, config, target_dir, index).sync[i].relative_target_path,
                ),
            ),
    ensures
        spec_plan(records, config, target_dir, index2).transcode.len() == 0,
        spec_plan(records, config, target_dir, index2).sync.len() == 0,
        spec_plan(records, config, target_dir, index2).skipped == spec_plan(
            records,
            config,
            target_dir,
            index,
        ).skipped,
        spec_plan(records, config, target_dir, index2).already == spec_plan(
            records,
            config,
            target_dir,
            index,
        ).already + spec_plan(records, config, target_dir, index).transcode.len() + spec_plan(
            records,
            config,
            target_dir,
            index,
        ).sync.len(),
        spec_plan(records, config, target_dir, index2).parents == spec_plan(
            records,
            config,
            target_dir,
            index,
        ).parents,
    decreases records.len(),
{
    if records.len() > 0 {
        let prefix = records.drop_last();
        let r = records.last();
        let p1 = spec_plan(records, config, target_dir, index);
        let p1p = spec_plan(prefix, config, target_dir, index);
        assert(p1 == spec_plan_step(p1p, r, config, target_dir, index));
        assert(forall|i: int| 0 <= i < p1p.transcode.len() ==> p1p.transcode[i] == p1.transcode[i]);
        assert(forall|i: int| 0 <= i < p1p.sync.len() ==> p1p.sync[i] == p1.sync[i]);
        lemma_replan_is_idle(prefix, config, target_dir, index, index2);
        let p2p = spec_plan(prefix, config, target_dir, index2);
        let cls = spec_classify(r.detected_codec, config);
        match cls {
            Classification::Sync => {
                let tp = spec_join(target_dir, r.relative_path);
                if !index.contains(tp) {
                    assert(p1.sync.last().relative_target_path == r.relative_path);
                    assert(index2.contains(tp));
                }
            },
            Classification::Transcode(t) => {
                let rel = spec_with_extension(r.relative_path, spec_extension(t));
                let tp = spec_join(target_dir, rel);
                if !index.contains(tp) {
                    assert(p1.transcode.last().relative_target_path == rel);
                    assert(index2.contains(tp));
                }
            },
            Classification::Skip => {},
        }
    }
}

} // verus!
