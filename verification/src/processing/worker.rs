//! The background worker's bookkeeping: the counters shown on the settings
//! page, and the steps taken for each pending file.

use vstd::prelude::*;
use vstd::string::*;

use crate::config::settings::Settings;
use crate::db::models::{MediaFile, MediaType};
use crate::text::{lemma_numbered_names_distinct, push_signed, signed_decimal};

verus! {

/// Counters of the worker's progress.
pub struct WorkerState {
    pub pending_count: u32,
    pub processing_count: u32,
    pub completed_count: u32,
    pub failed_count: u32,
}

/// The counters after a new round found `pending` files to process.
pub open spec fn counts_after_round(s: WorkerState, pending: nat) -> WorkerState {
    WorkerState { pending_count: pending as u32, ..s }
}

/// The counters after one file moved from pending to processing.
pub open spec fn counts_after_start(s: WorkerState) -> WorkerState {
    WorkerState {
        pending_count: if s.pending_count > 0 { (s.pending_count - 1) as u32 } else { 0 },
        processing_count: (s.processing_count + 1) as u32,
        ..s
    }
}

/// The counters after one file finished processing, successfully or not.
pub open spec fn counts_after_finish(s: WorkerState, succeeded: bool) -> WorkerState {
    WorkerState {
        processing_count: if s.processing_count > 0 { (s.processing_count - 1) as u32 } else { 0 },
        completed_count: if succeeded { (s.completed_count + 1) as u32 } else { s.completed_count },
        failed_count: if succeeded { s.failed_count } else { (s.failed_count + 1) as u32 },
        ..s
    }
}

/// All the files the counters account for.
pub open spec fn total_count(s: WorkerState) -> int {
    s.pending_count + s.processing_count + s.completed_count + s.failed_count
}

impl WorkerState {
    /// Records that a new round found `pending` files (the count is kept modulo 2^32).
    pub fn begin_round(&mut self, pending: usize)
        ensures
            *final(self) == counts_after_round(*old(self), pending as nat),
    {
        self.pending_count = pending as u32;
    }

    /// Records that a file left the pending queue and is being processed.
    pub fn start_file(&mut self)
        requires
            old(self).processing_count < u32::MAX,
        ensures
            *final(self) == counts_after_start(*old(self)),
    {
        self.pending_count = self.pending_count.saturating_sub(1);
        self.processing_count = self.processing_count + 1;
    }

    /// Records that a file finished processing, as completed or as failed.
    pub fn finish_file(&mut self, succeeded: bool)
        requires
            succeeded ==> old(self).completed_count < u32::MAX,
            !succeeded ==> old(self).failed_count < u32::MAX,
        ensures
            *final(self) == counts_after_finish(*old(self), succeeded),
    {
        self.processing_count = self.processing_count.saturating_sub(1);
        if succeeded {
            self.completed_count = self.completed_count + 1;
        } else {
            self.failed_count = self.failed_count + 1;
        }
    }
}

/// Moving a pending file to processing, and finishing a processing file, keep
/// every file accounted for: the total of the four counters does not change.
pub proof fn lemma_counts_conserved(s: WorkerState, succeeded: bool)
    requires
        s.processing_count < u32::MAX,
        succeeded ==> s.completed_count < u32::MAX,
        !succeeded ==> s.failed_count < u32::MAX,
    ensures
        s.pending_count > 0 ==> total_count(counts_after_start(s)) == total_count(s),
        s.processing_count > 0 ==> total_count(counts_after_finish(s, succeeded)) == total_count(s),
{
}

/// The counters after one file was started and then finished.
pub open spec fn counts_after_file(s: WorkerState, succeeded: bool) -> WorkerState {
    counts_after_finish(counts_after_start(s), succeeded)
}

/// The counters after the files of a round were processed in order, with the
/// given outcomes (`true` for completed).
pub open spec fn counts_after_files(s: WorkerState, outcomes: Seq<bool>) -> WorkerState
    decreases outcomes.len(),
{
    if outcomes.len() == 0 {
        s
    } else {
        counts_after_file(counts_after_files(s, outcomes.drop_last()), outcomes.last())
    }
}

/// How many of the outcomes are successes.
pub open spec fn successes(outcomes: Seq<bool>) -> nat
    decreases outcomes.len(),
{
    if outcomes.len() == 0 {
        0
    } else {
        successes(outcomes.drop_last()) + if outcomes.last() { 1nat } else { 0nat }
    }
}

/// One file: the pending count drops by one (not below zero), the processing
/// count returns to its value before the file, and the completed or the failed
/// count grows by one.
pub proof fn lemma_file_counts(s: WorkerState, succeeded: bool)
    requires
        s.processing_count < u32::MAX,
        succeeded ==> s.completed_count < u32::MAX,
        !succeeded ==> s.failed_count < u32::MAX,
    ensures
        counts_after_file(s, succeeded).pending_count == if s.pending_count > 0 {
            s.pending_count - 1
        } else {
            0
        },
        counts_after_file(s, succeeded).processing_count == s.processing_count,
        counts_after_file(s, succeeded).completed_count == s.completed_count + if succeeded {
            1int
        } else {
            0int
        },
        counts_after_file(s, succeeded).failed_count == s.failed_count + if succeeded {
            0int
        } else {
            1int
        },
{
}

/// A round: after it finds `k` pending files and processes them all, the
/// pending count is zero, the processing count is back to its value before the
/// round, and completed plus failed has grown by exactly `k` (completed by the
/// number of successes).
pub proof fn lemma_round_counts(s: WorkerState, outcomes: Seq<bool>)
    requires
        outcomes.len() <= u32::MAX,
        s.processing_count < u32::MAX,
        s.completed_count + outcomes.len() <= u32::MAX,
        s.failed_count + outcomes.len() <= u32::MAX,
    ensures
        ({
            let r = counts_after_round(s, outcomes.len());
            let e = counts_after_files(r, outcomes);
            &&& r.pending_count == outcomes.len()
            &&& e.pending_count == 0
            &&& e.processing_count == s.processing_count
            &&& e.completed_count == s.completed_count + successes(outcomes)
            &&& e.completed_count + e.failed_count == s.completed_count + s.failed_count
                + outcomes.len()
        }),
{
    lemma_files_counts(counts_after_round(s, outcomes.len()), outcomes);
}

proof fn lemma_files_counts(r: WorkerState, outcomes: Seq<bool>)
    requires
        r.pending_count >= outcomes.len(),
        r.processing_count < u32::MAX,
        r.completed_count + outcomes.len() <= u32::MAX,
        r.failed_count + outcomes.len() <= u32::MAX,
    ensures
        ({
            let e = counts_after_files(r, outcomes);
            &&& e.pending_count == r.pending_count - outcomes.len()
            &&& e.processing_count == r.processing_count
            &&& e.completed_count == r.completed_count + successes(outcomes)
            &&& e.completed_count + e.failed_count == r.completed_count + r.failed_count
                + outcomes.len()
            &&& successes(outcomes) <= outcomes.len()
        }),
    decreases outcomes.len(),
{
    if outcomes.len() > 0 {
        let init = outcomes.drop_last();
        lemma_files_counts(r, init);
        lemma_file_counts(counts_after_files(r, init), outcomes.last());
    }
}

/// Where a file's processing stands.
#[derive(Debug, Clone, Copy, PartialEq, Eq, Structural)]
pub enum JobStage {
    /// Waiting for the video's duration.
    Probing,
    /// Waiting for the thumbnail.
    Thumbnailing { duration_known: bool },
    /// Waiting for the timeline sprite sheet.
    Spriting,
    /// Done; the file's status was set to "completed" or "failed".
    Finished { succeeded: bool },
}

/// The processing of one pending file.
#[derive(Debug, Clone, Copy, PartialEq, Eq, Structural)]
pub struct Job {
    pub id: i64,
    pub is_video: bool,
    pub timeline_thumbnails: bool,
    pub thumbnail_size: u32,
    pub thumbnail_quality: u8,
    pub stage: JobStage,
}

/// What the outside work reported.
#[derive(Debug, Clone, Copy, PartialEq, Eq, Structural)]
pub enum JobEvent {
    /// The video's duration was probed; `known` when the probe succeeded.
    DurationProbed { known: bool },
    /// Thumbnail generation finished.
    ThumbnailDone { ok: bool },
    /// Sprite-sheet and cue generation finished.
    SpriteDone { ok: bool },
}

/// Outside work that the worker asks for, in order. File names are relative
/// to the thumbnail directory (thumbnails) or the cue directory (sprites, cues).
#[derive(Debug)]
pub enum JobAction {
    /// Store the file's processing status.
    SetStatus(String),
    /// Probe the video's duration.
    ProbeDuration,
    /// Generate the thumbnail; seek into the video when its duration is known.
    GenerateThumbnail { file_name: String, is_video: bool, with_duration: bool, size: u32, quality: u8 },
    /// Store the thumbnail's path.
    RecordThumbnail { file_name: String },
    /// Generate the timeline sprite sheet and its cue file.
    GenerateSprite { image_name: String, cue_name: String, tile_size: u32 },
    /// Store the cue file's path.
    RecordCues { file_name: String },
}

/// A [`JobAction`] with its texts as character sequences.
pub enum JobActionView {
    SetStatus(Seq<char>),
    ProbeDuration,
    GenerateThumbnail { file_name: Seq<char>, is_video: bool, with_duration: bool, size: u32, quality: u8 },
    RecordThumbnail { file_name: Seq<char> },
    GenerateSprite { image_name: Seq<char>, cue_name: Seq<char>, tile_size: u32 },
    RecordCues { file_name: Seq<char> },
}

impl View for JobAction {
    type V = JobActionView;

    open spec fn view(&self) -> JobActionView {
        match self {
            JobAction::SetStatus(s) => JobActionView::SetStatus(s@),
            JobAction::ProbeDuration => JobActionView::ProbeDuration,
            JobAction::GenerateThumbnail { file_name, is_video, with_duration, size, quality } =>
                JobActionView::GenerateThumbnail {
                    file_name: file_name@,
                    is_video: *is_video,
                    with_duration: *with_duration,
                    size: *size,
                    quality: *quality,
                },
            JobAction::RecordThumbnail { file_name } => JobActionView::RecordThumbnail { file_name: file_name@ },
            JobAction::GenerateSprite { image_name, cue_name, tile_size } => JobActionView::GenerateSprite {
                image_name: image_name@,
                cue_name: cue_name@,
                tile_size: *tile_size,
            },
            JobAction::RecordCues { file_name } => JobActionView::RecordCues { file_name: file_name@ },
        }
    }
}

/// The views of a list of actions.
pub open spec fn action_views(actions: Seq<JobAction>) -> Seq<JobActionView> {
    actions.map_values(|a: JobAction| a@)
}

/// The tile width of timeline sprites.
pub const SPRITE_TILE_SIZE: u32 = 160;

/// `"{id}.jpg"`, the thumbnail's file name.
pub open spec fn thumbnail_name(id: i64) -> Seq<char> {
    signed_decimal(id as int) + ".jpg"@
}

/// `"{id}_sprite.jpg"`, the sprite sheet's file name.
pub open spec fn sprite_image_name(id: i64) -> Seq<char> {
    signed_decimal(id as int) + "_sprite.jpg"@
}

/// `"{id}.vtt"`, the cue file's name.
pub open spec fn cue_file_name(id: i64) -> Seq<char> {
    signed_decimal(id as int) + ".vtt"@
}

/// The thumbnail request of a job.
pub open spec fn thumbnail_request(job: Job, with_duration: bool) -> JobActionView {
    JobActionView::GenerateThumbnail {
        file_name: thumbnail_name(job.id),
        is_video: job.is_video,
        with_duration,
        size: job.thumbnail_size,
        quality: job.thumbnail_quality,
    }
}

/// The actions that close a job.
pub open spec fn closing_actions(succeeded: bool) -> Seq<JobActionView> {
    if succeeded {
        seq![JobActionView::SetStatus("completed"@)]
    } else {
        seq![JobActionView::SetStatus("failed"@)]
    }
}

/// How a job starts: it is marked "processing"; a video's duration is probed
/// first, anything else goes straight to its thumbnail.
pub open spec fn job_start(job: Job) -> (JobStage, Seq<JobActionView>) {
    if job.is_video {
        (JobStage::Probing, seq![JobActionView::SetStatus("processing"@), JobActionView::ProbeDuration])
    } else {
        (
            JobStage::Thumbnailing { duration_known: false },
            seq![JobActionView::SetStatus("processing"@), thumbnail_request(job, false)],
        )
    }
}

/// Which events a stage waits for.
pub open spec fn awaits(stage: JobStage, event: JobEvent) -> bool {
    match (stage, event) {
        (JobStage::Probing, JobEvent::DurationProbed { .. }) => true,
        (JobStage::Thumbnailing { .. }, JobEvent::ThumbnailDone { .. }) => true,
        (JobStage::Spriting, JobEvent::SpriteDone { .. }) => true,
        _ => false,
    }
}

/// The next stage and the actions for an awaited event.
///
/// A generated thumbnail is recorded; then, for a video whose duration is known
/// and when timeline thumbnails are enabled, the sprite sheet is generated,
/// otherwise the job completes. A failed thumbnail fails the job. A sprite
/// sheet's cue file is recorded when it was generated, and the job completes
/// either way.
pub open spec fn job_next(job: Job, event: JobEvent) -> (JobStage, Seq<JobActionView>) {
    match event {
        JobEvent::DurationProbed { known } => (
            JobStage::Thumbnailing { duration_known: known },
            seq![thumbnail_request(job, known)],
        ),
        JobEvent::ThumbnailDone { ok } => {
            if !ok {
                (JobStage::Finished { succeeded: false }, closing_actions(false))
            } else {
                let record = seq![JobActionView::RecordThumbnail { file_name: thumbnail_name(job.id) }];
                let duration_known = match job.stage {
                    JobStage::Thumbnailing { duration_known } => duration_known,
                    _ => false,
                };
                if job.is_video && job.timeline_thumbnails && duration_known {
                    (
                        JobStage::Spriting,
                        record.push(
                            JobActionView::GenerateSprite {
                                image_name: sprite_image_name(job.id),
                                cue_name: cue_file_name(job.id),
                                tile_size: SPRITE_TILE_SIZE,
                            },
                        ),
                    )
                } else {
                    (JobStage::Finished { succeeded: true }, record + closing_actions(true))
                }
            }
        },
        JobEvent::SpriteDone { ok } => {
            if ok {
                (
                    JobStage::Finished { succeeded: true },
                    seq![JobActionView::RecordCues { file_name: cue_file_name(job.id) }] + closing_actions(true),
                )
            } else {
                (JobStage::Finished { succeeded: true }, closing_actions(true))
            }
        },
    }
}

fn id_name(id: i64, suffix: &str) -> (name: String)
    ensures
        name@ == signed_decimal(id as int) + suffix@,
{
    let mut name = String::new();
    push_signed(&mut name, id);
    name.append(suffix);
    name
}

impl Job {
    /// Starts processing `file` under `settings`.
    pub fn start(file: &MediaFile, settings: &Settings) -> (res: (Job, Vec<JobAction>))
        ensures
            res.0.id == file.id,
            res.0.is_video == (file.media_type == MediaType::Video),
            res.0.timeline_thumbnails == settings.generate_timeline_thumbnails,
            res.0.thumbnail_size == settings.thumbnail_size,
            res.0.thumbnail_quality == settings.thumbnail_quality,
            (res.0.stage, action_views(res.1@)) == job_start(res.0),
    {
        let is_video = match file.media_type {
            MediaType::Video => true,
            _ => false,
        };
        let mut job = Job {
            id: file.id,
            is_video,
            timeline_thumbnails: settings.generate_timeline_thumbnails,
            thumbnail_size: settings.thumbnail_size,
            thumbnail_quality: settings.thumbnail_quality,
            stage: JobStage::Probing,
        };
        let mut actions: Vec<JobAction> = Vec::new();
        actions.push(JobAction::SetStatus(String::from_str("processing")));
        if is_video {
            actions.push(JobAction::ProbeDuration);
        } else {
            job.stage = JobStage::Thumbnailing { duration_known: false };
            actions.push(job.thumbnail_action(false));
        }
        assert(action_views(actions@) =~= job_start(job).1);
        (job, actions)
    }

    fn thumbnail_action(&self, with_duration: bool) -> (a: JobAction)
        ensures
            a@ == thumbnail_request(*self, with_duration),
    {
        JobAction::GenerateThumbnail {
            file_name: id_name(self.id, ".jpg"),
            is_video: self.is_video,
            with_duration,
            size: self.thumbnail_size,
            quality: self.thumbnail_quality,
        }
    }

    /// Advances the job by an event that its stage awaits.
    pub fn step(self, event: JobEvent) -> (res: (Job, Vec<JobAction>))
        requires
            awaits(self.stage, event),
        ensures
            res.0 == (Job { stage: res.0.stage, ..self }),
            (res.0.stage, action_views(res.1@)) == job_next(self, event),
    {
        let mut actions: Vec<JobAction> = Vec::new();
        let stage = match event {
            JobEvent::DurationProbed { known } => {
                actions.push(self.thumbnail_action(known));
                JobStage::Thumbnailing { duration_known: known }
            },
            JobEvent::ThumbnailDone { ok } => {
                if !ok {
                    actions.push(JobAction::SetStatus(String::from_str("failed")));
                    JobStage::Finished { succeeded: false }
                } else {
                    actions.push(JobAction::RecordThumbnail { file_name: id_name(self.id, ".jpg") });
                    let duration_known = match self.stage {
                        JobStage::Thumbnailing { duration_known } => duration_known,
                        _ => false,
                    };
                    if self.is_video && self.timeline_thumbnails && duration_known {
                        actions.push(
                            JobAction::GenerateSprite {
                                image_name: id_name(self.id, "_sprite.jpg"),
                                cue_name: id_name(self.id, ".vtt"),
                                tile_size: SPRITE_TILE_SIZE,
                            },
                        );
                        JobStage::Spriting
                    } else {
                        actions.push(JobAction::SetStatus(String::from_str("completed")));
                        JobStage::Finished { succeeded: true }
                    }
                }
            },
            JobEvent::SpriteDone { ok } => {
                if ok {
                    actions.push(JobAction::RecordCues { file_name: id_name(self.id, ".vtt") });
                }
                actions.push(JobAction::SetStatus(String::from_str("completed")));
                JobStage::Finished { succeeded: true }
            },
        };
        let next = Job { stage, ..self };
        assert(action_views(actions@) =~= job_next(self, event).1);
        (next, actions)
    }
}


/// How many awaited events a stage is at most away from finishing.
pub open spec fn stages_left(stage: JobStage) -> nat {
    match stage {
        JobStage::Probing => 3,
        JobStage::Thumbnailing { .. } => 2,
        JobStage::Spriting => 1,
        JobStage::Finished { .. } => 0,
    }
}

/// Every awaited event moves a job closer to finishing, so a job finishes after
/// at most three events; a finished job awaits nothing.
pub proof fn lemma_job_progresses(job: Job, event: JobEvent)
    ensures
        awaits(job.stage, event) ==> stages_left(job_next(job, event).0) < stages_left(job.stage),
        job.stage is Finished ==> !awaits(job.stage, event),
{
}

/// A job that finishes stores exactly one final status, "completed" when it
/// succeeded and "failed" otherwise, as its last action; it fails exactly when
/// its thumbnail could not be generated.
pub proof fn lemma_job_outcome(job: Job, event: JobEvent)
    requires
        awaits(job.stage, event),
    ensures
        ({
            let (stage, actions) = job_next(job, event);
            &&& stage matches JobStage::Finished { succeeded } ==> {
                &&& actions.len() > 0
                &&& actions.last() == JobActionView::SetStatus(
                    if succeeded { "completed"@ } else { "failed"@ },
                )
                &&& forall|i: int| 0 <= i < actions.len() - 1 ==> !(actions[i] is SetStatus)
            }
            &&& (stage matches JobStage::Finished { succeeded } && !succeeded) <==> event == (
                JobEvent::ThumbnailDone { ok: false })
        }),
{
}


/// Distinct files get distinct thumbnail, sprite-sheet and cue file names.
pub proof fn lemma_job_file_names_distinct(a: i64, b: i64)
    requires
        a != b,
    ensures
        thumbnail_name(a) != thumbnail_name(b),
        sprite_image_name(a) != sprite_image_name(b),
        cue_file_name(a) != cue_file_name(b),
{
    lemma_numbered_names_distinct(a as int, b as int, ".jpg"@);
    lemma_numbered_names_distinct(a as int, b as int, "_sprite.jpg"@);
    lemma_numbered_names_distinct(a as int, b as int, ".vtt"@);
}


/// The stages and actions of a job after the given events, from `stage` on.
pub open spec fn run_from(job: Job, stage: JobStage, events: Seq<JobEvent>) -> (JobStage, Seq<
    JobActionView,
>)
    decreases events.len(),
{
    if events.len() == 0 {
        (stage, Seq::empty())
    } else {
        let (s1, a1) = job_next(Job { stage, ..job }, events[0]);
        let (s2, a2) = run_from(job, s1, events.drop_first());
        (s2, a1 + a2)
    }
}

/// A job's final stage and all its actions, from its start through the events.
pub open spec fn run_job(job: Job, events: Seq<JobEvent>) -> (JobStage, Seq<JobActionView>) {
    let (s0, a0) = job_start(job);
    let (s, a) = run_from(job, s0, events);
    (s, a0 + a)
}

/// A file whose thumbnail is generated: it is marked "processing", its
/// duration probed if it is a video, its thumbnail generated and recorded,
/// then — for a video with a known duration when timeline thumbnails are on —
/// its sprite sheet generated and its cue file recorded if that worked, and
/// finally it is marked "completed".
pub proof fn lemma_successful_file_run(job: Job, duration_known: bool, sprite_ok: bool)
    ensures
        ({
            let sprites = job.is_video && job.timeline_thumbnails && duration_known;
            let events = if !job.is_video {
                seq![JobEvent::ThumbnailDone { ok: true }]
            } else if sprites {
                seq![
                    JobEvent::DurationProbed { known: duration_known },
                    JobEvent::ThumbnailDone { ok: true },
                    JobEvent::SpriteDone { ok: sprite_ok },
                ]
            } else {
                seq![JobEvent::DurationProbed { known: duration_known }, JobEvent::ThumbnailDone { ok: true }]
            };
            let head = if job.is_video {
                seq![
                    JobActionView::SetStatus("processing"@),
                    JobActionView::ProbeDuration,
                    thumbnail_request(job, duration_known),
                ]
            } else {
                seq![JobActionView::SetStatus("processing"@), thumbnail_request(job, false)]
            };
            let sprite_part = if sprites {
                seq![
                    JobActionView::GenerateSprite {
                        image_name: sprite_image_name(job.id),
                        cue_name: cue_file_name(job.id),
                        tile_size: SPRITE_TILE_SIZE,
                    },
                ] + if sprite_ok {
                    seq![JobActionView::RecordCues { file_name: cue_file_name(job.id) }]
                } else {
                    Seq::empty()
                }
            } else {
                Seq::empty()
            };
            run_job(job, events) == (
                JobStage::Finished { succeeded: true },
                head + seq![JobActionView::RecordThumbnail { file_name: thumbnail_name(job.id) }]
                    + sprite_part + seq![JobActionView::SetStatus("completed"@)],
            )
        }),
{
    reveal_with_fuel(run_from, 4);
    let sprites = job.is_video && job.timeline_thumbnails && duration_known;
    if !job.is_video {
        let events = seq![JobEvent::ThumbnailDone { ok: true }];
        assert(events.drop_first() =~= Seq::<JobEvent>::empty());
    } else if sprites {
        let events = seq![
            JobEvent::DurationProbed { known: duration_known },
            JobEvent::ThumbnailDone { ok: true },
            JobEvent::SpriteDone { ok: sprite_ok },
        ];
        assert(events.drop_first() =~= seq![JobEvent::ThumbnailDone { ok: true }, JobEvent::SpriteDone { ok: sprite_ok }]);
        assert(events.drop_first().drop_first() =~= seq![JobEvent::SpriteDone { ok: sprite_ok }]);
        assert(events.drop_first().drop_first().drop_first() =~= Seq::<JobEvent>::empty());
    } else {
        let events = seq![JobEvent::DurationProbed { known: duration_known }, JobEvent::ThumbnailDone { ok: true }];
        assert(events.drop_first() =~= seq![JobEvent::ThumbnailDone { ok: true }]);
        assert(events.drop_first().drop_first() =~= Seq::<JobEvent>::empty());
    }
}


/// A file whose thumbnail fails: it is marked "processing", its duration probed
/// if it is a video, a thumbnail attempted, and then it is marked "failed";
/// nothing is recorded and no sprite sheet is attempted.
pub proof fn lemma_failed_file_run(job: Job, duration_known: bool)
    ensures
        ({
            let events = if job.is_video {
                seq![JobEvent::DurationProbed { known: duration_known }, JobEvent::ThumbnailDone { ok: false }]
            } else {
                seq![JobEvent::ThumbnailDone { ok: false }]
            };
            let head = if job.is_video {
                seq![
                    JobActionView::SetStatus("processing"@),
                    JobActionView::ProbeDuration,
                    thumbnail_request(job, duration_known),
                ]
            } else {
                seq![JobActionView::SetStatus("processing"@), thumbnail_request(job, false)]
            };
            run_job(job, events) == (
                JobStage::Finished { succeeded: false },
                head + seq![JobActionView::SetStatus("failed"@)],
            )
        }),
{
    reveal_with_fuel(run_from, 3);
    if job.is_video {
        let events = seq![JobEvent::DurationProbed { known: duration_known }, JobEvent::ThumbnailDone { ok: false }];
        assert(events.drop_first() =~= seq![JobEvent::ThumbnailDone { ok: false }]);
        assert(events.drop_first().drop_first() =~= Seq::<JobEvent>::empty());
    } else {
        let events = seq![JobEvent::ThumbnailDone { ok: false }];
        assert(events.drop_first() =~= Seq::<JobEvent>::empty());
    }
}


/// Every thumbnail a job asks for, for a video or not, is named after the
/// file's id and has the job's configured size and quality; only videos seek,
/// and only when their duration is known. (`Job::start` copies size and quality
/// from the settings.)
pub proof fn lemma_thumbnail_requests_use_settings(job: Job, event: JobEvent, i: int)
    ensures
        ({
            let start = job_start(job).1;
            0 <= i < start.len() ==> (start[i] matches JobActionView::GenerateThumbnail {
                file_name,
                is_video,
                with_duration,
                size,
                quality,
            } ==> {
                &&& file_name == signed_decimal(job.id as int) + ".jpg"@
                &&& is_video == job.is_video
                &&& !with_duration
                &&& size == job.thumbnail_size
                &&& quality == job.thumbnail_quality
            })
        }),
        ({
            let next = job_next(job, event).1;
            0 <= i < next.len() ==> (next[i] matches JobActionView::GenerateThumbnail {
                file_name,
                is_video,
                with_duration,
                size,
                quality,
            } ==> {
                &&& file_name == signed_decimal(job.id as int) + ".jpg"@
                &&& is_video == job.is_video
                &&& with_duration == (event == (JobEvent::DurationProbed { known: true }))
                &&& size == job.thumbnail_size
                &&& quality == job.thumbnail_quality
            })
        }),
{
}

}
