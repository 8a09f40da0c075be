//! Exporting the 3D view of a recording as a numbered PNG sequence.
//!
//! The viewer drives [`NativePngSequenceExport`] once per rendered frame:
//! [`NativePngSequenceExport::prepare_frame`] decides what the viewer does next
//! (wait, fix the frame times, render frame `i`, finish),
//! [`NativePngSequenceExport::validate_frame_request`] checks that exactly one
//! view scheduled a screenshot for the pending request, and
//! [`NativePngSequenceExport::record_readback`] takes the outcome of saving each
//! screenshot that came back from the GPU.
use crate::frame_name::{frame_file_name, frame_file_name_spec};
use std::path::PathBuf;
use std::sync::atomic::{AtomicUsize, Ordering};
use std::sync::Arc;
use vstd::prelude::*;

verus! {

/// Declares `std::path::PathBuf` to the verifier; values of it are carried
/// through unchanged.
#[verifier::external_type_specification]
#[verifier::external_body]
pub struct ExPathBuf(PathBuf);

/// `Clone::clone` of `std::path::PathBuf`, which the derived `Clone` of the
/// request and option types calls. Nothing is claimed of the copy: no verified
/// code relies on it.
pub assume_specification[ <PathBuf as Clone>::clone ](p: &PathBuf) -> PathBuf;

/// The path that `Path::join` gives for `dir` and the relative `file_name`.
pub uninterp spec fn joined_path(dir: PathBuf, file_name: Seq<char>) -> PathBuf;

/// `std::path::Path::join`: the path of `file_name` inside `dir`. The result
/// is named by `joined_path` of the two arguments; how `join` puts them
/// together is not restated.
#[verifier::external_body]
fn join_path(dir: &PathBuf, file_name: &String) -> (path: PathBuf)
    ensures
        path == joined_path(*dir, file_name@),
{
    dir.join(file_name)
}

// ---------------------------------------------------------------------------
// Frame requests and readbacks

/// A request to capture one frame of the PNG sequence.
///
/// Every view that schedules a screenshot for the request counts itself in a
/// counter that all clones of the request share.
#[derive(Clone, Debug)]
pub struct NativePngSequenceExportFrameRequest {
    pub frame_index: u64,
    pub output_path: PathBuf,
    scheduled_view_count: Arc<AtomicUsize>,
}

/// What a frame request says: which frame, and where its image goes.
pub struct FrameRequestView {
    pub frame_index: u64,
    pub output_path: PathBuf,
}

impl View for NativePngSequenceExportFrameRequest {
    type V = FrameRequestView;

    closed spec fn view(&self) -> FrameRequestView {
        FrameRequestView { frame_index: self.frame_index, output_path: self.output_path }
    }
}

impl NativePngSequenceExportFrameRequest {
    /// A request for frame `frame_index`, to be written to `output_path`, that
    /// no view has scheduled yet.
    pub fn new(frame_index: u64, output_path: PathBuf) -> (request: Self)
        ensures
            request@.frame_index == frame_index,
            request@.output_path == output_path,
    {
        Self { frame_index, output_path, scheduled_view_count: Arc::new(AtomicUsize::new(0)) }
    }

    /// Counts one more view that scheduled a screenshot for this request.
    pub fn mark_scheduled(&self) {
        self.scheduled_view_count.fetch_add(1, Ordering::Relaxed);
    }

    /// How many views have scheduled a screenshot for this request so far.
    ///
    /// The count lives in an atomic shared by every clone of the request, which
    /// other holders may raise at any time; no contract ties the value read to
    /// earlier calls of `mark_scheduled`.
    pub fn scheduled_view_count(&self) -> usize {
        self.scheduled_view_count.load(Ordering::Relaxed)
    }
}

/// What comes back from the GPU for a scheduled screenshot: the frame, the
/// file to write, and the view (by its UUID) that rendered it.
#[derive(Clone, Debug)]
pub struct NativePngSequenceExportReadback {
    pub frame_index: u64,
    pub output_path: PathBuf,
    pub view_id: u128,
}

// ---------------------------------------------------------------------------
// The export state machine

/// Frames that pass before the export looks at the timeline at all.
pub const WARMUP_FRAMES: usize = 3;

/// How many consecutive lookups must see the same frame count before the
/// frame times are taken as final.
pub const REQUIRED_STABLE_FRAME_COUNT_OBSERVATIONS: usize = 60;

/// How many failed timeline lookups are tolerated before the export fails.
pub const MAX_TIMELINE_WAIT_FRAMES: usize = 1800;

/// How many times in a row a frame may go unscheduled before the export fails.
pub const MAX_UNSCHEDULED_FRAME_ATTEMPTS: usize = 60;

/// Every how many failed lookups the wait for the timeline is reported again.
pub const TIMELINE_WAIT_REPORT_INTERVAL: usize = 120;

/// Every how many exported frames progress is reported.
pub const PROGRESS_REPORT_INTERVAL: usize = 25;

/// Where the frames go and which timeline they are taken from.
#[derive(Clone)]
pub struct NativePngSequenceExportOptions {
    pub output_dir: PathBuf,
    pub timeline_name: String,
}

/// The options as values.
pub struct ExportOptionsView {
    pub output_dir: PathBuf,
    pub timeline_name: Seq<char>,
}

impl View for NativePngSequenceExportOptions {
    type V = ExportOptionsView;

    open spec fn view(&self) -> ExportOptionsView {
        ExportOptionsView { output_dir: self.output_dir, timeline_name: self.timeline_name@ }
    }
}

/// Why the frame times of the timeline could not be read.
#[derive(Clone, Copy, Debug, PartialEq, Eq, Structural)]
pub enum FrameTimesError {
    /// The recording has no timeline of that name (yet).
    TimelineNotFound,
    /// The timeline exists but holds no time points.
    NoFrames,
}

/// Why the export stopped for good in a frame check.
#[derive(Clone, Copy, Debug, PartialEq, Eq, Structural)]
pub enum ExportFailure {
    /// No 3D view scheduled a screenshot for the frame, too often in a row.
    NoViewScheduled { frame_index: u64 },
    /// More than one 3D view scheduled a screenshot for the frame.
    TooManyViewsScheduled { frame_index: u64, count: usize },
}

/// What the viewer is to do after [`NativePngSequenceExport::prepare_frame`].
#[derive(Debug)]
pub enum PrepareFrameOutcome {
    /// No export was asked for.
    Disabled,
    /// The export is finished, has failed, waits for a screenshot, or waits
    /// for the output directory to be created.
    Idle,
    /// One of the first frames, in which nothing is looked at.
    WarmingUp,
    /// The timeline could not be read yet; `report` says whether to tell the user.
    WaitingForTimeline { report: bool },
    /// The number of frames on the timeline changed to `frame_count`.
    TimelineChanged { frame_count: usize },
    /// The number of frames was the same as last time, not yet often enough.
    TimelineSettling,
    /// The timeline could not be read for too long: the export failed.
    TimelineFailed(FrameTimesError),
    /// The frame times are fixed. The viewer creates the output directory,
    /// passes the result to [`NativePngSequenceExport::record_output_dir`],
    /// and calls `prepare_frame` again in the same frame.
    FramesCollected { frame_count: usize },
    /// Every frame has been exported.
    Finished,
    /// Move the time cursor to `frame_time`, pause, and render `request`.
    RenderFrame { frame_time: i64, request: NativePngSequenceExportFrameRequest },
}

/// [`PrepareFrameOutcome`] as values.
pub enum PrepareFrameEffect {
    Disabled,
    Idle,
    WarmingUp,
    WaitingForTimeline { report: bool },
    TimelineChanged { frame_count: usize },
    TimelineSettling,
    TimelineFailed(FrameTimesError),
    FramesCollected { frame_count: usize },
    Finished,
    RenderFrame { frame_index: u64, frame_time: i64, output_path: PathBuf },
}

impl View for PrepareFrameOutcome {
    type V = PrepareFrameEffect;

    open spec fn view(&self) -> PrepareFrameEffect {
        match self {
            PrepareFrameOutcome::Disabled => PrepareFrameEffect::Disabled,
            PrepareFrameOutcome::Idle => PrepareFrameEffect::Idle,
            PrepareFrameOutcome::WarmingUp => PrepareFrameEffect::WarmingUp,
            PrepareFrameOutcome::WaitingForTimeline { report } => PrepareFrameEffect::WaitingForTimeline {
                report: *report,
            },
            PrepareFrameOutcome::TimelineChanged { frame_count } => PrepareFrameEffect::TimelineChanged {
                frame_count: *frame_count,
            },
            PrepareFrameOutcome::TimelineSettling => PrepareFrameEffect::TimelineSettling,
            PrepareFrameOutcome::TimelineFailed(err) => PrepareFrameEffect::TimelineFailed(*err),
            PrepareFrameOutcome::FramesCollected { frame_count } => PrepareFrameEffect::FramesCollected {
                frame_count: *frame_count,
            },
            PrepareFrameOutcome::Finished => PrepareFrameEffect::Finished,
            PrepareFrameOutcome::RenderFrame { frame_time, request } => PrepareFrameEffect::RenderFrame {
                frame_index: request@.frame_index,
                frame_time: *frame_time,
                output_path: request@.output_path,
            },
        }
    }
}

/// What a screenshot readback did to the export.
#[derive(Clone, Copy, Debug, PartialEq, Eq, Structural)]
pub enum ReadbackOutcome {
    /// The image could not be saved: the export failed.
    SaveFailed,
    /// No frame was pending; nothing changed.
    Ignored,
    /// The pending frame is done: `exported` of `total` frames are exported;
    /// `report_progress` says whether to tell the user.
    Exported { exported: usize, total: usize, report_progress: bool },
}

/// The export's state as values.
pub struct ExportState {
    pub options: Option<ExportOptionsView>,
    pub frame_times: Option<Seq<i64>>,
    pub total_frame_count: usize,
    pub next_frame_index: usize,
    pub waiting_for_frame: Option<u64>,
    pub unscheduled_frame_attempts: usize,
    pub warmup_frames_remaining: usize,
    pub observed_frame_count: usize,
    pub stable_frame_count_observations: usize,
    pub timeline_wait_frames: usize,
    pub output_dir_created: bool,
    pub done: bool,
    pub failed: bool,
}

impl ExportState {
    /// The state of a fresh export: warming up when enabled, idle otherwise.
    pub open spec fn initial(options: Option<ExportOptionsView>) -> ExportState {
        ExportState {
            options,
            frame_times: None,
            total_frame_count: 0,
            next_frame_index: 0,
            waiting_for_frame: None,
            unscheduled_frame_attempts: 0,
            warmup_frames_remaining: if options is Some { WARMUP_FRAMES } else { 0 },
            observed_frame_count: 0,
            stable_frame_count_observations: 0,
            timeline_wait_frames: 0,
            output_dir_created: false,
            done: false,
            failed: false,
        }
    }

    /// What every reachable state satisfies.
    pub open spec fn inv(self) -> bool {
        &&& match self.frame_times {
            Some(times) => {
                &&& self.total_frame_count == times.len()
                &&& self.next_frame_index <= self.total_frame_count
            },
            None => {
                &&& self.total_frame_count == 0
                &&& self.next_frame_index == 0
                &&& !self.done
                &&& self.stable_frame_count_observations < REQUIRED_STABLE_FRAME_COUNT_OBSERVATIONS
            },
        }
        &&& (self.waiting_for_frame matches Some(i) ==> i == self.next_frame_index
            && self.next_frame_index < self.total_frame_count)
        &&& (self.done ==> self.next_frame_index == self.total_frame_count
            && self.waiting_for_frame is None)
        &&& (self.waiting_for_frame is Some || self.done ==> self.output_dir_created)
        &&& self.unscheduled_frame_attempts <= MAX_UNSCHEDULED_FRAME_ATTEMPTS + 1
        &&& (!self.failed ==> self.unscheduled_frame_attempts <= MAX_UNSCHEDULED_FRAME_ATTEMPTS)
    }

    pub open spec fn enabled(self) -> bool {
        self.options is Some
    }

    pub open spec fn should_close(self) -> bool {
        self.done || self.failed
    }

    /// Whether `prepare_frame` reads the timeline in this state.
    pub open spec fn wants_frame_times(self) -> bool {
        &&& self.enabled()
        &&& !self.done
        &&& !self.failed
        &&& self.waiting_for_frame is None
        &&& self.warmup_frames_remaining == 0
        &&& self.frame_times is None
    }

    pub open spec fn with_failed(self) -> ExportState {
        ExportState { failed: true, ..self }
    }
}

/// The time points of a timeline as the recording reports them: `None` when
/// it has no timeline of that name.
pub open spec fn lookup_view(lookup: Option<Vec<i64>>) -> Option<Seq<i64>> {
    match lookup {
        Some(times) => Some(times@),
        None => None,
    }
}

/// The frame times of a timeline: its time points, if it exists and has any.
pub open spec fn frame_times_of(lookup: Option<Seq<i64>>) -> Result<Seq<i64>, FrameTimesError> {
    match lookup {
        None => Err(FrameTimesError::TimelineNotFound),
        Some(times) => if times.len() == 0 {
            Err(FrameTimesError::NoFrames)
        } else {
            Ok(times)
        },
    }
}

/// One more on a counter that starts over at zero past its largest value.
pub open spec fn counter_next(n: usize) -> usize {
    if n == usize::MAX {
        0
    } else {
        (n + 1) as usize
    }
}

/// A lookup of the timeline while the frame times are not fixed yet.
pub open spec fn collect_step(s: ExportState, lookup: Option<Seq<i64>>) -> (
    ExportState,
    PrepareFrameEffect,
) {
    let waited = counter_next(s.timeline_wait_frames);
    let s1 = ExportState { timeline_wait_frames: waited, ..s };
    match frame_times_of(lookup) {
        Err(err) => if waited > MAX_TIMELINE_WAIT_FRAMES {
            (s1.with_failed(), PrepareFrameEffect::TimelineFailed(err))
        } else {
            (
                s1,
                PrepareFrameEffect::WaitingForTimeline {
                    report: waited == 1 || waited % TIMELINE_WAIT_REPORT_INTERVAL == 0,
                },
            )
        },
        Ok(times) => {
            let count = times.len() as usize;
            if times.len() != s.observed_frame_count {
                (
                    ExportState {
                        observed_frame_count: count,
                        stable_frame_count_observations: 0,
                        ..s1
                    },
                    PrepareFrameEffect::TimelineChanged { frame_count: count },
                )
            } else {
                let seen = s.stable_frame_count_observations + 1;
                if seen < REQUIRED_STABLE_FRAME_COUNT_OBSERVATIONS {
                    (
                        ExportState { stable_frame_count_observations: seen as usize, ..s1 },
                        PrepareFrameEffect::TimelineSettling,
                    )
                } else {
                    (
                        ExportState {
                            stable_frame_count_observations: seen as usize,
                            frame_times: Some(times),
                            total_frame_count: count,
                            ..s1
                        },
                        PrepareFrameEffect::FramesCollected { frame_count: count },
                    )
                }
            }
        },
    }
}

/// The step once the frame times are fixed: finish, or render the next frame.
pub open spec fn emit_step(s: ExportState, times: Seq<i64>, dir: PathBuf) -> (
    ExportState,
    PrepareFrameEffect,
) {
    if s.next_frame_index >= times.len() {
        (ExportState { done: true, ..s }, PrepareFrameEffect::Finished)
    } else {
        let frame_index = s.next_frame_index as u64;
        (
            ExportState { waiting_for_frame: Some(frame_index), ..s },
            PrepareFrameEffect::RenderFrame {
                frame_index,
                frame_time: times[s.next_frame_index as int],
                output_path: joined_path(dir, frame_file_name_spec(frame_index)),
            },
        )
    }
}

/// What `prepare_frame` does to the state and asks of the viewer, given what
/// the timeline holds (`lookup`, read only while collecting).
pub open spec fn prepare_frame_step(s: ExportState, lookup: Option<Seq<i64>>) -> (
    ExportState,
    PrepareFrameEffect,
) {
    match s.options {
        None => (s, PrepareFrameEffect::Disabled),
        Some(options) => if s.done || s.failed || s.waiting_for_frame is Some {
            (s, PrepareFrameEffect::Idle)
        } else if s.warmup_frames_remaining > 0 {
            (
                ExportState {
                    warmup_frames_remaining: (s.warmup_frames_remaining - 1) as usize,
                    ..s
                },
                PrepareFrameEffect::WarmingUp,
            )
        } else {
            match s.frame_times {
                None => collect_step(s, lookup),
                Some(times) => if s.output_dir_created {
                    emit_step(s, times, options.output_dir)
                } else {
                    (s, PrepareFrameEffect::Idle)
                },
            }
        },
    }
}

/// What checking the request for `frame_index`, which `count` views
/// scheduled, does to the state, and the failure it reports.
pub open spec fn validate_step(s: ExportState, frame_index: u64, count: usize) -> (
    ExportState,
    Option<ExportFailure>,
) {
    if s.done || s.failed || s.waiting_for_frame != Some(frame_index) {
        (s, None)
    } else if count == 1 {
        (ExportState { unscheduled_frame_attempts: 0, ..s }, None)
    } else if count == 0 {
        let attempts = (s.unscheduled_frame_attempts + 1) as usize;
        let s1 = ExportState {
            waiting_for_frame: None,
            unscheduled_frame_attempts: attempts,
            ..s
        };
        if attempts > MAX_UNSCHEDULED_FRAME_ATTEMPTS {
            (s1.with_failed(), Some(ExportFailure::NoViewScheduled { frame_index }))
        } else {
            (s1, None)
        }
    } else {
        (
            ExportState { waiting_for_frame: None, failed: true, ..s },
            Some(ExportFailure::TooManyViewsScheduled { frame_index, count }),
        )
    }
}

/// What one screenshot readback, saved or not, does to the state. A failed
/// export takes no more readbacks.
pub open spec fn readback_step(s: ExportState, saved: bool) -> (ExportState, ReadbackOutcome) {
    if s.failed {
        (s, ReadbackOutcome::Ignored)
    } else if !saved {
        (ExportState { waiting_for_frame: None, failed: true, ..s }, ReadbackOutcome::SaveFailed)
    } else if s.waiting_for_frame is Some {
        let exported = (s.next_frame_index + 1) as usize;
        (
            ExportState { waiting_for_frame: None, next_frame_index: exported, ..s },
            ReadbackOutcome::Exported {
                exported,
                total: s.total_frame_count,
                report_progress: exported == s.total_frame_count || exported == 1 || exported
                    % PROGRESS_REPORT_INTERVAL == 0,
            },
        )
    } else {
        (s, ReadbackOutcome::Ignored)
    }
}

/// What the outcome of creating the output directory does to the state:
/// frames are asked for only once it was created; the export fails if it
/// could not be.
pub open spec fn output_dir_step(s: ExportState, created: bool) -> ExportState {
    if created {
        ExportState { output_dir_created: true, ..s }
    } else {
        s.with_failed()
    }
}

/// The frame times of a timeline, from its time points (`None` when the
/// recording has no timeline of that name). The viewer hands over the time
/// points in increasing order, as the recording keeps them.
pub fn collect_frame_times(timeline_times: Option<Vec<i64>>) -> (result: Result<
    Vec<i64>,
    FrameTimesError,
>)
    ensures
        match result {
            Ok(times) => frame_times_of(lookup_view(timeline_times)) == Ok::<
                Seq<i64>,
                FrameTimesError,
            >(times@),
            Err(err) => frame_times_of(lookup_view(timeline_times)) == Err::<
                Seq<i64>,
                FrameTimesError,
            >(err),
        },
{
    match timeline_times {
        None => Err(FrameTimesError::TimelineNotFound),
        Some(times) => if times.len() == 0 {
            Err(FrameTimesError::NoFrames)
        } else {
            Ok(times)
        },
    }
}

/// Drives the export of a PNG sequence, one decision per rendered frame.
pub struct NativePngSequenceExport {
    options: Option<NativePngSequenceExportOptions>,
    frame_times: Option<Vec<i64>>,
    total_frame_count: usize,
    next_frame_index: usize,
    waiting_for_frame: Option<u64>,
    unscheduled_frame_attempts: usize,
    warmup_frames_remaining: usize,
    observed_frame_count: usize,
    stable_frame_count_observations: usize,
    timeline_wait_frames: usize,
    output_dir_created: bool,
    done: bool,
    failed: bool,
}

impl View for NativePngSequenceExport {
    type V = ExportState;

    closed spec fn view(&self) -> ExportState {
        ExportState {
            options: match self.options {
                Some(o) => Some(o@),
                None => None,
            },
            frame_times: lookup_view(self.frame_times),
            total_frame_count: self.total_frame_count,
            next_frame_index: self.next_frame_index,
            waiting_for_frame: self.waiting_for_frame,
            unscheduled_frame_attempts: self.unscheduled_frame_attempts,
            warmup_frames_remaining: self.warmup_frames_remaining,
            observed_frame_count: self.observed_frame_count,
            stable_frame_count_observations: self.stable_frame_count_observations,
            timeline_wait_frames: self.timeline_wait_frames,
            output_dir_created: self.output_dir_created,
            done: self.done,
            failed: self.failed,
        }
    }
}

/// The options as values, when there are any.
pub open spec fn options_view(options: Option<NativePngSequenceExportOptions>) -> Option<
    ExportOptionsView,
> {
    match options {
        Some(o) => Some(o@),
        None => None,
    }
}

impl Default for NativePngSequenceExport {
    /// An export that was not asked for.
    fn default() -> (export: Self)
        ensures
            export@ == ExportState::initial(None),
            export@.inv(),
    {
        Self::new(None)
    }
}

impl NativePngSequenceExport {
    /// An export with the given options, or a disabled one without.
    pub fn new(options: Option<NativePngSequenceExportOptions>) -> (export: Self)
        ensures
            export@ == ExportState::initial(options_view(options)),
            export@.inv(),
    {
        let warmup_frames_remaining = if options.is_some() {
            WARMUP_FRAMES
        } else {
            0
        };
        Self {
            options,
            frame_times: None,
            total_frame_count: 0,
            next_frame_index: 0,
            waiting_for_frame: None,
            unscheduled_frame_attempts: 0,
            warmup_frames_remaining,
            observed_frame_count: 0,
            stable_frame_count_observations: 0,
            timeline_wait_frames: 0,
            output_dir_created: false,
            done: false,
            failed: false,
        }
    }

    /// Whether an export was asked for.
    pub fn is_enabled(&self) -> (enabled: bool)
        ensures
            enabled == self@.enabled(),
    {
        self.options.is_some()
    }

    /// Whether the export is over, finished or failed, so the viewer can close.
    pub fn should_close(&self) -> (close: bool)
        ensures
            close == self@.should_close(),
    {
        self.done || self.failed
    }

    /// Whether the next `prepare_frame` reads the timeline, so the viewer
    /// needs to look up its time points.
    pub fn wants_frame_times(&self) -> (wants: bool)
        ensures
            wants == self@.wants_frame_times(),
    {
        self.options.is_some() && !self.done && !self.failed && self.waiting_for_frame.is_none()
            && self.warmup_frames_remaining == 0 && self.frame_times.is_none()
    }

    /// Whether screenshot readbacks are still taken (the export has not failed).
    pub fn accepts_readbacks(&self) -> (accepts: bool)
        ensures
            accepts == !self@.failed,
    {
        !self.failed
    }

    fn fail(&mut self)
        ensures
            final(self)@ == old(self)@.with_failed(),
    {
        self.failed = true;
    }

    /// One lookup of the timeline while the frame times are not fixed: `Ok`
    /// with the frame times once they are stable, else what to tell the viewer.
    fn collect_stable_frame_times(&mut self, lookup: Option<Vec<i64>>) -> (result: Result<
        Vec<i64>,
        PrepareFrameOutcome,
    >)
        requires
            old(self)@.inv(),
            old(self)@.wants_frame_times(),
        ensures
            ({
                let (s, effect) = collect_step(old(self)@, lookup_view(lookup));
                match result {
                    Ok(times) => effect == (PrepareFrameEffect::FramesCollected {
                        frame_count: times@.len() as usize,
                    }) && ExportState {
                        frame_times: Some(times@),
                        total_frame_count: times@.len() as usize,
                        ..final(self)@
                    } == s && final(self)@.frame_times is None,
                    Err(outcome) => outcome@ == effect && final(self)@ == s,
                }
            }),
            final(self)@.options == old(self)@.options,
            final(self)@.done == old(self)@.done,
            final(self)@.output_dir_created == old(self)@.output_dir_created,
            final(self)@.waiting_for_frame == old(self)@.waiting_for_frame,
            final(self)@.unscheduled_frame_attempts == old(self)@.unscheduled_frame_attempts,
            final(self)@.warmup_frames_remaining == old(self)@.warmup_frames_remaining,
            final(self)@.next_frame_index == old(self)@.next_frame_index,
            final(self)@.total_frame_count == old(self)@.total_frame_count,
    {
        self.timeline_wait_frames = if self.timeline_wait_frames == usize::MAX {
            0
        } else {
            self.timeline_wait_frames + 1
        };
        let frame_times = match collect_frame_times(lookup) {
            Ok(frame_times) => frame_times,
            Err(err) => {
                if self.timeline_wait_frames > MAX_TIMELINE_WAIT_FRAMES {
                    self.fail();
                    return Err(PrepareFrameOutcome::TimelineFailed(err));
                }
                let report = self.timeline_wait_frames == 1 || self.timeline_wait_frames
                    % TIMELINE_WAIT_REPORT_INTERVAL == 0;
                return Err(PrepareFrameOutcome::WaitingForTimeline { report });
            },
        };
        let frame_count = frame_times.len();
        if frame_count != self.observed_frame_count {
            self.observed_frame_count = frame_count;
            self.stable_frame_count_observations = 0;
            return Err(PrepareFrameOutcome::TimelineChanged { frame_count });
        }
        self.stable_frame_count_observations = self.stable_frame_count_observations + 1;
        if self.stable_frame_count_observations < REQUIRED_STABLE_FRAME_COUNT_OBSERVATIONS {
            return Err(PrepareFrameOutcome::TimelineSettling);
        }
        Ok(frame_times)
    }

    /// Decides what the viewer does in this frame. `timeline_times` are the
    /// time points of the export's timeline (`None` when the recording has no
    /// such timeline); they are read only while `wants_frame_times` holds.
    pub fn prepare_frame(&mut self, timeline_times: Option<Vec<i64>>) -> (outcome:
        PrepareFrameOutcome)
        requires
            old(self)@.inv(),
        ensures
            final(self)@.inv(),
            final(self)@ == prepare_frame_step(old(self)@, lookup_view(timeline_times)).0,
            outcome@ == prepare_frame_step(old(self)@, lookup_view(timeline_times)).1,
    {
        if self.options.is_none() {
            return PrepareFrameOutcome::Disabled;
        }
        if self.done || self.failed || self.waiting_for_frame.is_some() {
            return PrepareFrameOutcome::Idle;
        }
        if self.warmup_frames_remaining > 0 {
            self.warmup_frames_remaining = self.warmup_frames_remaining - 1;
            return PrepareFrameOutcome::WarmingUp;
        }
        if self.frame_times.is_none() {
            match self.collect_stable_frame_times(timeline_times) {
                Err(outcome) => {
                    return outcome;
                },
                Ok(frame_times) => {
                    let frame_count = frame_times.len();
                    self.total_frame_count = frame_count;
                    self.frame_times = Some(frame_times);
                    return PrepareFrameOutcome::FramesCollected { frame_count };
                },
            }
        }
        if !self.output_dir_created {
            return PrepareFrameOutcome::Idle;
        }
        self.next_frame()
    }

    /// Finishes, or asks for the next frame, once the frame times are fixed.
    fn next_frame(&mut self) -> (outcome: PrepareFrameOutcome)
        requires
            old(self)@.inv(),
            old(self)@.options is Some,
            old(self)@.frame_times is Some,
            old(self)@.output_dir_created,
            !old(self)@.done,
            old(self)@.waiting_for_frame is None,
        ensures
            final(self)@ == emit_step(
                old(self)@,
                old(self)@.frame_times->0,
                old(self)@.options->0.output_dir,
            ).0,
            outcome@ == emit_step(
                old(self)@,
                old(self)@.frame_times->0,
                old(self)@.options->0.output_dir,
            ).1,
    {
        let next = self.next_frame_index;
        let (frame_count, frame_time) = match &self.frame_times {
            Some(times) => if next >= times.len() {
                (times.len(), 0)
            } else {
                (times.len(), times[next])
            },
            None => (0, 0),
        };
        if next >= frame_count {
            self.done = true;
            return PrepareFrameOutcome::Finished;
        }
        let frame_index = next as u64;
        let file_name = frame_file_name(frame_index);
        let output_path = match &self.options {
            Some(options) => join_path(&options.output_dir, &file_name),
            None => {
                return PrepareFrameOutcome::Disabled;
            },
        };
        self.waiting_for_frame = Some(frame_index);
        PrepareFrameOutcome::RenderFrame {
            frame_time,
            request: NativePngSequenceExportFrameRequest::new(frame_index, output_path),
        }
    }

    /// Takes whether creating the output directory worked: frames are asked
    /// for only after it was; the export fails if it was not.
    pub fn record_output_dir(&mut self, created: bool)
        requires
            old(self)@.inv(),
        ensures
            final(self)@.inv(),
            final(self)@ == output_dir_step(old(self)@, created),
    {
        if created {
            self.output_dir_created = true;
        } else {
            self.fail();
        }
    }

    /// Checks the request of this frame against what the views scheduled:
    /// reads the request's counter and applies [`Self::apply_scheduled_view_count`].
    /// Returns the failure, if the export failed here.
    pub fn validate_frame_request(&mut self, request: &NativePngSequenceExportFrameRequest) -> (failure:
        Option<ExportFailure>)
        requires
            old(self)@.inv(),
        ensures
            final(self)@.inv(),
            exists|count: usize|
                {
                    &&& final(self)@ == validate_step(old(self)@, request@.frame_index, count).0
                    &&& failure == validate_step(old(self)@, request@.frame_index, count).1
                },
    {
        let frame_index = request.frame_index;
        assert(request@.frame_index == frame_index);
        if self.done || self.failed || !self.is_waiting_for(frame_index) {
            proof {
                assert(self@ == validate_step(old(self)@, frame_index, 0).0);
            }
            return None;
        }
        let count = request.scheduled_view_count();
        let failure = self.apply_scheduled_view_count(frame_index, count);
        assert(self@ == validate_step(old(self)@, frame_index, count).0);
        failure
    }

    fn is_waiting_for(&self, frame_index: u64) -> (waiting: bool)
        ensures
            waiting == (self@.waiting_for_frame == Some(frame_index)),
    {
        match self.waiting_for_frame {
            Some(pending) => pending == frame_index,
            None => false,
        }
    }

    /// Applies to the pending frame `frame_index` that `scheduled_view_count`
    /// views scheduled a screenshot for it: exactly one is right; none means
    /// the frame is asked for again (and the export fails after too many such
    /// frames in a row); more than one fails the export.
    pub fn apply_scheduled_view_count(&mut self, frame_index: u64, scheduled_view_count: usize) -> (failure:
        Option<ExportFailure>)
        requires
            old(self)@.inv(),
        ensures
            final(self)@.inv(),
            final(self)@ == validate_step(old(self)@, frame_index, scheduled_view_count).0,
            failure == validate_step(old(self)@, frame_index, scheduled_view_count).1,
    {
        if self.done || self.failed || !self.is_waiting_for(frame_index) {
            return None;
        }
        if scheduled_view_count == 1 {
            self.unscheduled_frame_attempts = 0;
            None
        } else if scheduled_view_count == 0 {
            self.waiting_for_frame = None;
            self.unscheduled_frame_attempts = self.unscheduled_frame_attempts + 1;
            if self.unscheduled_frame_attempts > MAX_UNSCHEDULED_FRAME_ATTEMPTS {
                self.fail();
                Some(ExportFailure::NoViewScheduled { frame_index })
            } else {
                None
            }
        } else {
            self.waiting_for_frame = None;
            self.fail();
            Some(ExportFailure::TooManyViewsScheduled { frame_index, count: scheduled_view_count })
        }
    }

    /// Takes one screenshot readback and whether its image was saved. A failed
    /// save fails the export; a saved one completes the pending frame; once
    /// the export has failed, readbacks are ignored.
    pub fn record_readback(&mut self, saved: bool) -> (outcome: ReadbackOutcome)
        requires
            old(self)@.inv(),
        ensures
            final(self)@.inv(),
            final(self)@ == readback_step(old(self)@, saved).0,
            outcome == readback_step(old(self)@, saved).1,
    {
        if self.failed {
            ReadbackOutcome::Ignored
        } else if !saved {
            self.waiting_for_frame = None;
            self.fail();
            ReadbackOutcome::SaveFailed
        } else if self.waiting_for_frame.is_some() {
            self.waiting_for_frame = None;
            self.next_frame_index = self.next_frame_index + 1;
            let exported = self.next_frame_index;
            let total = self.total_frame_count;
            ReadbackOutcome::Exported {
                exported,
                total,
                report_progress: exported == total || exported == 1 || exported
                    % PROGRESS_REPORT_INTERVAL == 0,
            }
        } else {
            ReadbackOutcome::Ignored
        }
    }
}

} // verus!
