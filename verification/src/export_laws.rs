//! What holds of the PNG sequence export over all states and runs.
use crate::frame_name::frame_file_name_spec;
use crate::png_export::{
    joined_path, output_dir_step, prepare_frame_step, readback_step, validate_step,
    ExportFailure, ExportOptionsView, ExportState, PrepareFrameEffect, ReadbackOutcome,
    MAX_TIMELINE_WAIT_FRAMES, MAX_UNSCHEDULED_FRAME_ATTEMPTS,
    REQUIRED_STABLE_FRAME_COUNT_OBSERVATIONS,
};
use vstd::prelude::*;

verus! {

/// Every step of the export keeps its invariant: preparing a frame, checking
/// a request, taking a readback, and taking the output directory's result.
pub proof fn steps_preserve_invariant(
    s: ExportState,
    lookup: Option<Seq<i64>>,
    frame_index: u64,
    count: usize,
    saved: bool,
    created: bool,
)
    requires
        s.inv(),
    ensures
        prepare_frame_step(s, lookup).0.inv(),
        validate_step(s, frame_index, count).0.inv(),
        readback_step(s, saved).0.inv(),
        output_dir_step(s, created).inv(),
{
}

/// Once the export is finished or has failed it stays so: no step reopens it.
pub proof fn closing_is_final(
    s: ExportState,
    lookup: Option<Seq<i64>>,
    frame_index: u64,
    count: usize,
    saved: bool,
    created: bool,
)
    requires
        s.should_close(),
    ensures
        prepare_frame_step(s, lookup).0.should_close(),
        validate_step(s, frame_index, count).0.should_close(),
        readback_step(s, saved).0.should_close(),
        output_dir_step(s, created).should_close(),
{
}

/// An export that was not asked for never does anything when preparing a frame.
pub proof fn disabled_export_does_nothing(s: ExportState, lookup: Option<Seq<i64>>)
    requires
        (s.options is None),
    ensures
        prepare_frame_step(s, lookup).0 == s,
        prepare_frame_step(s, lookup).1 == PrepareFrameEffect::Disabled,
{
}

/// While a frame's screenshot is pending no other frame is asked for.
pub proof fn at_most_one_frame_in_flight(s: ExportState, lookup: Option<Seq<i64>>)
    requires
        (s.options is Some),
        (s.waiting_for_frame is Some),
    ensures
        prepare_frame_step(s, lookup).0 == s,
        prepare_frame_step(s, lookup).1 == PrepareFrameEffect::Idle,
{
}

/// A frame asked for is the next one not yet exported, at its time on the
/// timeline, written to its own file in the output directory; it is then the
/// pending frame.
pub proof fn frames_are_requested_in_order(s: ExportState, lookup: Option<Seq<i64>>)
    requires
        s.inv(),
        (prepare_frame_step(s, lookup).1 is RenderFrame),
    ensures
        ({
            let (t, effect) = prepare_frame_step(s, lookup);
            &&& s.options is Some
            &&& s.frame_times is Some
            &&& s.output_dir_created
            &&& s.next_frame_index < s.total_frame_count
            &&& effect == PrepareFrameEffect::RenderFrame {
                frame_index: s.next_frame_index as u64,
                frame_time: s.frame_times->0[s.next_frame_index as int],
                output_path: joined_path(
                    s.options->0.output_dir,
                    frame_file_name_spec(s.next_frame_index as u64),
                ),
            }
            &&& t == ExportState { waiting_for_frame: Some(s.next_frame_index as u64), ..s }
        }),
{
}

/// No frame is asked for before the output directory was reported created:
/// only a successful `record_output_dir` sets that, no other step changes it,
/// and with the frame times fixed but the directory not yet created,
/// preparing a frame (past warm-up) does nothing.
pub proof fn frames_need_created_output_dir(
    s: ExportState,
    lookup: Option<Seq<i64>>,
    frame_index: u64,
    count: usize,
    saved: bool,
    created: bool,
)
    ensures
        (prepare_frame_step(s, lookup).1 is RenderFrame) ==> s.output_dir_created,
        prepare_frame_step(s, lookup).0.output_dir_created == s.output_dir_created,
        validate_step(s, frame_index, count).0.output_dir_created == s.output_dir_created,
        readback_step(s, saved).0.output_dir_created == s.output_dir_created,
        output_dir_step(s, created).output_dir_created == (s.output_dir_created || created),
        ({
            &&& s.options is Some
            &&& s.frame_times is Some
            &&& !s.output_dir_created
            &&& s.warmup_frames_remaining == 0
        }) ==> prepare_frame_step(s, lookup) == (s, PrepareFrameEffect::Idle),
{
}

/// A saved screenshot of the pending frame of an export that has not failed
/// completes exactly that frame.
pub proof fn saved_readback_completes_pending_frame(s: ExportState)
    requires
        s.inv(),
        !s.failed,
        (s.waiting_for_frame is Some),
    ensures
        ({
            let (t, outcome) = readback_step(s, true);
            &&& t == ExportState {
                waiting_for_frame: None,
                next_frame_index: (s.next_frame_index + 1) as usize,
                ..s
            }
            &&& outcome matches ReadbackOutcome::Exported { exported, total, .. } && exported
                == s.next_frame_index + 1 && total == s.total_frame_count
        }),
{
}

/// A screenshot that could not be saved fails the export; once failed, the
/// export ignores readbacks and stays as it is.
pub proof fn failed_save_fails_export(s: ExportState, saved: bool)
    ensures
        s.failed ==> readback_step(s, saved) == (s, ReadbackOutcome::Ignored),
        !s.failed ==> readback_step(s, false).0.failed,
        !s.failed ==> readback_step(s, false).1 == ReadbackOutcome::SaveFailed,
{
}

/// Once the frame times are fixed they never change, and the count of
/// exported frames only grows, up to their number.
pub proof fn frame_times_fixed_and_progress_monotone(
    s: ExportState,
    lookup: Option<Seq<i64>>,
    frame_index: u64,
    count: usize,
    saved: bool,
    created: bool,
)
    requires
        s.inv(),
        (s.frame_times is Some),
    ensures
        prepare_frame_step(s, lookup).0.frame_times == s.frame_times,
        validate_step(s, frame_index, count).0.frame_times == s.frame_times,
        readback_step(s, saved).0.frame_times == s.frame_times,
        output_dir_step(s, created).frame_times == s.frame_times,
        s.next_frame_index <= prepare_frame_step(s, lookup).0.next_frame_index
            <= s.total_frame_count,
        s.next_frame_index <= validate_step(s, frame_index, count).0.next_frame_index
            <= s.total_frame_count,
        s.next_frame_index <= readback_step(s, saved).0.next_frame_index <= s.total_frame_count,
{
}

/// The frame times are fixed only from a timeline with frames whose count was
/// the same in the required number of consecutive lookups.
pub proof fn frame_times_fixed_only_when_stable(s: ExportState, lookup: Option<Seq<i64>>)
    requires
        s.inv(),
        (prepare_frame_step(s, lookup).1 is FramesCollected),
    ensures
        ({
            let (t, effect) = prepare_frame_step(s, lookup);
            &&& s.frame_times is None
            &&& lookup is Some
            &&& lookup->0.len() > 0
            &&& t.frame_times == lookup
            &&& effect == PrepareFrameEffect::FramesCollected { frame_count: lookup->0.len() as usize }
            &&& s.observed_frame_count == lookup->0.len()
            &&& s.stable_frame_count_observations + 1 == REQUIRED_STABLE_FRAME_COUNT_OBSERVATIONS
        }),
{
}

/// A timeline that cannot be read fails the export only after more than the
/// allowed number of lookups.
pub proof fn timeline_failure_only_after_long_wait(s: ExportState, lookup: Option<Seq<i64>>)
    requires
        (prepare_frame_step(s, lookup).1 is TimelineFailed),
    ensures
        prepare_frame_step(s, lookup).0.failed,
        prepare_frame_step(s, lookup).0.timeline_wait_frames > MAX_TIMELINE_WAIT_FRAMES,
{
}

/// A frame that exactly one view scheduled stays pending and clears the count
/// of unscheduled attempts; a frame that none scheduled is asked for again,
/// and fails the export only at the attempt after the allowed number.
pub proof fn scheduling_checks(s: ExportState, frame_index: u64)
    requires
        s.inv(),
        !s.done,
        !s.failed,
        s.waiting_for_frame == Some(frame_index),
    ensures
        validate_step(s, frame_index, 1).0 == (ExportState { unscheduled_frame_attempts: 0, ..s }),
        (validate_step(s, frame_index, 1).1 is None),
        (validate_step(s, frame_index, 0).0.waiting_for_frame is None),
        validate_step(s, frame_index, 0).0.failed == (s.unscheduled_frame_attempts
            == MAX_UNSCHEDULED_FRAME_ATTEMPTS),
        (validate_step(s, frame_index, 0).1 is Some) <==> s.unscheduled_frame_attempts
            == MAX_UNSCHEDULED_FRAME_ATTEMPTS,
        (forall|count: usize|
            count > 1 ==> validate_step(s, frame_index, count).1 == Some(
                (ExportFailure::TooManyViewsScheduled { frame_index, count }),
            ) && #[trigger] validate_step(s, frame_index, count).0.failed),
{
}

/// The first prepared frames of an enabled export only warm up, whatever the
/// timeline holds; after them the export reads the timeline.
pub proof fn warmup_comes_first(
    options: ExportOptionsView,
    l1: Option<Seq<i64>>,
    l2: Option<Seq<i64>>,
    l3: Option<Seq<i64>>,
)
    ensures
        ({
            let s0 = ExportState::initial(Some(options));
            let (s1, e1) = prepare_frame_step(s0, l1);
            let (s2, e2) = prepare_frame_step(s1, l2);
            let (s3, e3) = prepare_frame_step(s2, l3);
            &&& e1 == PrepareFrameEffect::WarmingUp
            &&& e2 == PrepareFrameEffect::WarmingUp
            &&& e3 == PrepareFrameEffect::WarmingUp
            &&& s3.wants_frame_times()
        }),
{
}

/// One frame round: ask for the next frame, exactly one view schedules it,
/// its screenshot is saved.
pub open spec fn frame_round(s: ExportState) -> ExportState {
    let (s1, _) = prepare_frame_step(s, None);
    let (s2, _) = validate_step(s1, s.next_frame_index as u64, 1);
    readback_step(s2, true).0
}

/// `rounds` frame rounds one after the other.
pub open spec fn frame_rounds(s: ExportState, rounds: nat) -> ExportState
    decreases rounds,
{
    if rounds == 0 {
        s
    } else {
        frame_rounds(frame_round(s), (rounds - 1) as nat)
    }
}

/// The export is ready to ask for a frame: enabled, past warm-up, with fixed
/// frame times and a created output directory, nothing pending, neither
/// finished nor failed.
pub open spec fn ready_to_render(s: ExportState) -> bool {
    &&& s.inv()
    &&& s.options is Some
    &&& s.frame_times is Some
    &&& s.output_dir_created
    &&& s.warmup_frames_remaining == 0
    &&& s.waiting_for_frame is None
    &&& !s.done
    &&& !s.failed
}

/// A frame round exports exactly the next frame and changes nothing else but
/// the count of unscheduled attempts, which it clears.
pub proof fn frame_round_exports_next_frame(s: ExportState)
    requires
        ready_to_render(s),
        s.next_frame_index < s.total_frame_count,
    ensures
        frame_round(s) == (ExportState {
            next_frame_index: (s.next_frame_index + 1) as usize,
            unscheduled_frame_attempts: 0,
            ..s
        }),
        ready_to_render(frame_round(s)),
{
}

/// When every view schedules each frame once and every image is saved, the
/// export writes each remaining frame exactly once, in order, and then
/// finishes.
pub proof fn every_frame_exported_then_finished(s: ExportState)
    requires
        ready_to_render(s),
    ensures
        ({
            let end = frame_rounds(s, (s.total_frame_count - s.next_frame_index) as nat);
            &&& end.next_frame_index == s.total_frame_count
            &&& ready_to_render(end)
            &&& prepare_frame_step(end, None).1 == PrepareFrameEffect::Finished
            &&& prepare_frame_step(end, None).0.done
        }),
    decreases s.total_frame_count - s.next_frame_index,
{
    if s.next_frame_index < s.total_frame_count {
        frame_round_exports_next_frame(s);
        every_frame_exported_then_finished(frame_round(s));
        assert(frame_rounds(s, (s.total_frame_count - s.next_frame_index) as nat) == frame_rounds(
            frame_round(s),
            (s.total_frame_count - s.next_frame_index - 1) as nat,
        ));
    }
}

/// The state after `calls` calls of `prepare_frame` that each see `lookup`.
pub open spec fn prepare_repeated(s: ExportState, lookup: Option<Seq<i64>>, calls: nat) -> ExportState
    decreases calls,
{
    if calls == 0 {
        s
    } else {
        prepare_frame_step(prepare_repeated(s, lookup, (calls - 1) as nat), lookup).0
    }
}

/// What call number `calls + 1` of `prepare_frame`, seeing `lookup`, asks of
/// the viewer.
pub open spec fn prepare_effect_after(s: ExportState, lookup: Option<Seq<i64>>, calls: nat) -> PrepareFrameEffect {
    prepare_frame_step(prepare_repeated(s, lookup, calls), lookup).1
}

/// While collecting, after `calls` lookups (1 to 60) of an unchanged timeline
/// whose frame count differed from the one seen before: still collecting, the
/// count seen `calls - 1` times unchanged.
proof fn lemma_stable_lookups(s: ExportState, times: Seq<i64>, calls: nat)
    requires
        s.inv(),
        s.wants_frame_times(),
        0 < times.len() <= usize::MAX,
        s.observed_frame_count != times.len(),
        1 <= calls <= REQUIRED_STABLE_FRAME_COUNT_OBSERVATIONS,
    ensures
        ({
            let r = prepare_repeated(s, Some(times), calls);
            &&& r.inv()
            &&& r.wants_frame_times()
            &&& r.options == s.options
            &&& r.next_frame_index == s.next_frame_index
            &&& r.observed_frame_count == times.len()
            &&& r.stable_frame_count_observations == calls - 1
            &&& prepare_effect_after(s, Some(times), (calls - 1) as nat) == if calls == 1 {
                PrepareFrameEffect::TimelineChanged { frame_count: times.len() as usize }
            } else {
                PrepareFrameEffect::TimelineSettling
            }
        }),
    decreases calls,
{
    reveal_with_fuel(prepare_repeated, 2);
    if calls > 1 {
        lemma_stable_lookups(s, times, (calls - 1) as nat);
    }
}

/// A timeline that stays the same is handed over as the frame times on the
/// 61st lookup and on no earlier one: the first lookup sees its frame count
/// change, the next 59 see it unchanged, and the 61st, having seen it
/// unchanged the required 60 times, fixes the frame times. (These lookups
/// are `collect_step`, which `collect_stable_frame_times` follows exactly and
/// `prepare_frame` reaches while `wants_frame_times` holds.)
pub proof fn frames_handed_out_on_61st_lookup(s: ExportState, times: Seq<i64>)
    requires
        s.inv(),
        s.wants_frame_times(),
        0 < times.len() <= usize::MAX,
        s.observed_frame_count != times.len(),
    ensures
        forall|calls: nat|
            calls < REQUIRED_STABLE_FRAME_COUNT_OBSERVATIONS ==> !(#[trigger] prepare_effect_after(
                s,
                Some(times),
                calls,
            ) is FramesCollected) && prepare_repeated(s, Some(times), calls + 1).wants_frame_times(),
        prepare_effect_after(s, Some(times), REQUIRED_STABLE_FRAME_COUNT_OBSERVATIONS as nat)
            == (PrepareFrameEffect::FramesCollected { frame_count: times.len() as usize }),
        ({
            let r = prepare_repeated(s, Some(times), (REQUIRED_STABLE_FRAME_COUNT_OBSERVATIONS + 1) as nat);
            &&& r.inv()
            &&& r.frame_times == Some(times)
            &&& r.total_frame_count == times.len()
            &&& r.next_frame_index == s.next_frame_index
            &&& r.options == s.options
            &&& r.warmup_frames_remaining == 0
            &&& r.waiting_for_frame is None
            &&& !r.done
            &&& !r.failed
        }),
{
    assert forall|calls: nat| calls < REQUIRED_STABLE_FRAME_COUNT_OBSERVATIONS implies !(
    #[trigger] prepare_effect_after(s, Some(times), calls) is FramesCollected)
        && prepare_repeated(s, Some(times), calls + 1).wants_frame_times() by {
        lemma_stable_lookups(s, times, calls + 1);
    }
    lemma_stable_lookups(s, times, REQUIRED_STABLE_FRAME_COUNT_OBSERVATIONS as nat);
    reveal_with_fuel(prepare_repeated, 2);
}

/// After `rounds` frame rounds from a state ready to render, with that many
/// frames left: still ready, `rounds` frames further on, the same frames and
/// options.
proof fn lemma_frame_rounds(s: ExportState, rounds: nat)
    requires
        ready_to_render(s),
        s.next_frame_index + rounds <= s.total_frame_count,
    ensures
        ready_to_render(frame_rounds(s, rounds)),
        frame_rounds(s, rounds).next_frame_index == s.next_frame_index + rounds,
        frame_rounds(s, rounds).frame_times == s.frame_times,
        frame_rounds(s, rounds).total_frame_count == s.total_frame_count,
        frame_rounds(s, rounds).options == s.options,
    decreases rounds,
{
    if rounds > 0 {
        frame_round_exports_next_frame(s);
        lemma_frame_rounds(frame_round(s), (rounds - 1) as nat);
    }
}

/// A whole export: a fresh export of a timeline that holds the same frames
/// all along warms up for its first three frames, fixes the frame times on
/// the 61st lookup after that, and, once the output directory is created and
/// each frame is scheduled by exactly one view and saved, asks for frames
/// 0, 1, .. in order, each at its time and in its own file, and then
/// finishes, without failing, with every frame exported.
pub proof fn fresh_export_exports_every_frame_then_finishes(
    options: ExportOptionsView,
    times: Seq<i64>,
)
    requires
        times.len() > 0,
        times.len() <= usize::MAX,
    ensures
        ({
            let s0 = ExportState::initial(Some(options));
            let lookup = Some(times);
            let warmed = prepare_repeated(s0, lookup, 3);
            let collected = prepare_repeated(warmed, lookup, 61);
            let ready = output_dir_step(collected, true);
            let end = frame_rounds(ready, times.len());
            &&& prepare_effect_after(s0, lookup, 0) == PrepareFrameEffect::WarmingUp
            &&& prepare_effect_after(s0, lookup, 1) == PrepareFrameEffect::WarmingUp
            &&& prepare_effect_after(s0, lookup, 2) == PrepareFrameEffect::WarmingUp
            &&& (forall|calls: nat|
                calls < 60 ==> !(#[trigger] prepare_effect_after(warmed, lookup, calls) is FramesCollected))
            &&& prepare_effect_after(warmed, lookup, 60) == (PrepareFrameEffect::FramesCollected {
                frame_count: times.len() as usize,
            })
            &&& (forall|i: nat|
                i < times.len() ==> #[trigger] prepare_frame_step(frame_rounds(ready, i), None).1
                    == (PrepareFrameEffect::RenderFrame {
                    frame_index: i as u64,
                    frame_time: times[i as int],
                    output_path: joined_path(options.output_dir, frame_file_name_spec(i as u64)),
                }))
            &&& prepare_frame_step(end, None).1 == PrepareFrameEffect::Finished
            &&& prepare_frame_step(end, None).0.done
            &&& !prepare_frame_step(end, None).0.failed
            &&& prepare_frame_step(end, None).0.next_frame_index == times.len()
        }),
{
    let s0 = ExportState::initial(Some(options));
    let lookup = Some(times);
    reveal_with_fuel(prepare_repeated, 4);
    let warmed = prepare_repeated(s0, lookup, 3);
    assert(warmed.inv() && warmed.wants_frame_times());
    frames_handed_out_on_61st_lookup(warmed, times);
    let collected = prepare_repeated(warmed, lookup, 61);
    let ready = output_dir_step(collected, true);
    assert(ready_to_render(ready));
    assert forall|i: nat| i < times.len() implies #[trigger] prepare_frame_step(
        frame_rounds(ready, i),
        None,
    ).1 == (PrepareFrameEffect::RenderFrame {
        frame_index: i as u64,
        frame_time: times[i as int],
        output_path: joined_path(options.output_dir, frame_file_name_spec(i as u64)),
    }) by {
        lemma_frame_rounds(ready, i);
    }
    lemma_frame_rounds(ready, times.len());
}

} // verus!
