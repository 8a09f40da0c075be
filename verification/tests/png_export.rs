use png_sequence_export::png_export::{
    collect_frame_times, ExportFailure, FrameTimesError, NativePngSequenceExport,
    NativePngSequenceExportFrameRequest, NativePngSequenceExportOptions, PrepareFrameOutcome,
    ReadbackOutcome,
};
use std::path::PathBuf;

fn options() -> NativePngSequenceExportOptions {
    NativePngSequenceExportOptions {
        output_dir: PathBuf::from("/tmp/export"),
        timeline_name: "frame".to_string(),
    }
}

fn warm_up(export: &mut NativePngSequenceExport) {
    for _ in 0..3 {
        assert!(matches!(export.prepare_frame(None), PrepareFrameOutcome::WarmingUp));
    }
    assert!(export.wants_frame_times());
}

/// Feeds the same time points until the frame times are fixed.
fn collect(export: &mut NativePngSequenceExport, times: &[i64]) {
    let first = export.prepare_frame(Some(times.to_vec()));
    assert!(matches!(first, PrepareFrameOutcome::TimelineChanged { frame_count } if frame_count == times.len()));
    for _ in 0..59 {
        assert!(matches!(
            export.prepare_frame(Some(times.to_vec())),
            PrepareFrameOutcome::TimelineSettling
        ));
    }
    let last = export.prepare_frame(Some(times.to_vec()));
    assert!(matches!(last, PrepareFrameOutcome::FramesCollected { frame_count } if frame_count == times.len()));
    assert!(!export.wants_frame_times());
    export.record_output_dir(true);
}

fn render(export: &mut NativePngSequenceExport) -> (i64, NativePngSequenceExportFrameRequest) {
    match export.prepare_frame(None) {
        PrepareFrameOutcome::RenderFrame { frame_time, request } => (frame_time, request),
        other => panic!("expected a frame request, got {other:?}"),
    }
}

#[test]
fn full_export_writes_every_frame_in_order() {
    let mut export = NativePngSequenceExport::new(Some(options()));
    assert!(export.is_enabled());
    warm_up(&mut export);
    collect(&mut export, &[10, 20, 30]);
    for (i, expected_time) in [10, 20, 30].into_iter().enumerate() {
        let (frame_time, request) = render(&mut export);
        assert_eq!(frame_time, expected_time);
        assert_eq!(request.frame_index, i as u64);
        assert_eq!(
            request.output_path,
            PathBuf::from(format!("/tmp/export/frame_{:06}.png", i))
        );
        // No second request while this one is pending.
        assert!(matches!(export.prepare_frame(None), PrepareFrameOutcome::Idle));
        request.mark_scheduled();
        assert_eq!(export.validate_frame_request(&request), None);
        let outcome = export.record_readback(true);
        assert_eq!(
            outcome,
            ReadbackOutcome::Exported {
                exported: i + 1,
                total: 3,
                report_progress: i + 1 == 1 || i + 1 == 3,
            }
        );
        assert!(!export.should_close());
    }
    assert!(matches!(export.prepare_frame(None), PrepareFrameOutcome::Finished));
    assert!(export.should_close());
    assert!(matches!(export.prepare_frame(None), PrepareFrameOutcome::Idle));
}

#[test]
fn disabled_export_does_nothing() {
    let mut export = NativePngSequenceExport::new(None);
    assert!(!export.is_enabled());
    assert!(!export.wants_frame_times());
    for _ in 0..5 {
        assert!(matches!(export.prepare_frame(Some(vec![1])), PrepareFrameOutcome::Disabled));
    }
    assert!(!export.should_close());
    let default_export = NativePngSequenceExport::default();
    assert!(!default_export.is_enabled());
}

#[test]
fn missing_timeline_fails_after_long_wait() {
    let mut export = NativePngSequenceExport::new(Some(options()));
    warm_up(&mut export);
    for wait in 1..=1800usize {
        match export.prepare_frame(None) {
            PrepareFrameOutcome::WaitingForTimeline { report } => {
                assert_eq!(report, wait == 1 || wait % 120 == 0, "wait {wait}");
            }
            other => panic!("unexpected {other:?}"),
        }
    }
    assert!(!export.should_close());
    assert!(matches!(
        export.prepare_frame(None),
        PrepareFrameOutcome::TimelineFailed(FrameTimesError::TimelineNotFound)
    ));
    assert!(export.should_close());
    assert!(!export.accepts_readbacks());
}

#[test]
fn empty_timeline_is_waited_for_then_fails() {
    let mut export = NativePngSequenceExport::new(Some(options()));
    warm_up(&mut export);
    for _ in 0..1800 {
        assert!(matches!(
            export.prepare_frame(Some(Vec::new())),
            PrepareFrameOutcome::WaitingForTimeline { .. }
        ));
    }
    assert!(matches!(
        export.prepare_frame(Some(Vec::new())),
        PrepareFrameOutcome::TimelineFailed(FrameTimesError::NoFrames)
    ));
}

#[test]
fn changing_frame_count_restarts_stability() {
    let mut export = NativePngSequenceExport::new(Some(options()));
    warm_up(&mut export);
    assert!(matches!(
        export.prepare_frame(Some(vec![1, 2])),
        PrepareFrameOutcome::TimelineChanged { frame_count: 2 }
    ));
    for _ in 0..30 {
        assert!(matches!(
            export.prepare_frame(Some(vec![1, 2])),
            PrepareFrameOutcome::TimelineSettling
        ));
    }
    assert!(matches!(
        export.prepare_frame(Some(vec![1, 2, 3])),
        PrepareFrameOutcome::TimelineChanged { frame_count: 3 }
    ));
    collect_after_change(&mut export, &[1, 2, 3]);
}

fn collect_after_change(export: &mut NativePngSequenceExport, times: &[i64]) {
    for _ in 0..59 {
        assert!(matches!(
            export.prepare_frame(Some(times.to_vec())),
            PrepareFrameOutcome::TimelineSettling
        ));
    }
    assert!(matches!(
        export.prepare_frame(Some(times.to_vec())),
        PrepareFrameOutcome::FramesCollected { frame_count: 3 }
    ));
}

#[test]
fn failed_output_dir_fails_export() {
    let mut export = NativePngSequenceExport::new(Some(options()));
    warm_up(&mut export);
    let times = [5i64];
    export.prepare_frame(Some(times.to_vec()));
    for _ in 0..59 {
        export.prepare_frame(Some(times.to_vec()));
    }
    assert!(matches!(
        export.prepare_frame(Some(times.to_vec())),
        PrepareFrameOutcome::FramesCollected { frame_count: 1 }
    ));
    export.record_output_dir(false);
    assert!(export.should_close());
    assert!(matches!(export.prepare_frame(None), PrepareFrameOutcome::Idle));
}

#[test]
fn unscheduled_frame_is_requested_again_then_fails() {
    let mut export = NativePngSequenceExport::new(Some(options()));
    warm_up(&mut export);
    collect(&mut export, &[7, 8]);
    for _ in 0..60 {
        let (_, request) = render(&mut export);
        assert_eq!(request.frame_index, 0);
        assert_eq!(export.validate_frame_request(&request), None);
        assert!(!export.should_close());
    }
    let (_, request) = render(&mut export);
    assert_eq!(
        export.validate_frame_request(&request),
        Some(ExportFailure::NoViewScheduled { frame_index: 0 })
    );
    assert!(export.should_close());
}

#[test]
fn scheduled_frame_clears_unscheduled_attempts() {
    let mut export = NativePngSequenceExport::new(Some(options()));
    warm_up(&mut export);
    collect(&mut export, &[7, 8]);
    for _ in 0..60 {
        let (_, request) = render(&mut export);
        assert_eq!(export.apply_scheduled_view_count(request.frame_index, 0), None);
    }
    let (_, request) = render(&mut export);
    assert_eq!(export.apply_scheduled_view_count(request.frame_index, 1), None);
    assert_eq!(export.record_readback(true), ReadbackOutcome::Exported { exported: 1, total: 2, report_progress: true });
    for _ in 0..60 {
        let (_, request) = render(&mut export);
        assert_eq!(request.frame_index, 1);
        assert_eq!(export.apply_scheduled_view_count(1, 0), None);
    }
    assert!(!export.should_close());
}

#[test]
fn several_scheduled_views_fail_export() {
    let mut export = NativePngSequenceExport::new(Some(options()));
    warm_up(&mut export);
    collect(&mut export, &[7]);
    let (_, request) = render(&mut export);
    let clone = request.clone();
    request.mark_scheduled();
    clone.mark_scheduled();
    assert_eq!(request.scheduled_view_count(), 2);
    assert_eq!(
        export.validate_frame_request(&request),
        Some(ExportFailure::TooManyViewsScheduled { frame_index: 0, count: 2 })
    );
    assert!(export.should_close());
}

#[test]
fn request_for_other_frame_is_ignored() {
    let mut export = NativePngSequenceExport::new(Some(options()));
    warm_up(&mut export);
    collect(&mut export, &[7, 9]);
    let _pending = render(&mut export);
    let stale = NativePngSequenceExportFrameRequest::new(5, PathBuf::from("x.png"));
    assert_eq!(export.validate_frame_request(&stale), None);
    assert_eq!(export.apply_scheduled_view_count(5, 3), None);
    assert!(!export.should_close());
    assert!(matches!(export.prepare_frame(None), PrepareFrameOutcome::Idle));
}

#[test]
fn failed_save_fails_export() {
    let mut export = NativePngSequenceExport::new(Some(options()));
    warm_up(&mut export);
    collect(&mut export, &[7, 9]);
    let _pending = render(&mut export);
    assert!(export.accepts_readbacks());
    assert_eq!(export.record_readback(false), ReadbackOutcome::SaveFailed);
    assert!(export.should_close());
    assert!(!export.accepts_readbacks());
}

#[test]
fn readback_without_pending_frame_is_ignored() {
    let mut export = NativePngSequenceExport::new(Some(options()));
    assert_eq!(export.record_readback(true), ReadbackOutcome::Ignored);
    assert!(!export.should_close());
}

#[test]
fn progress_is_reported_every_25_frames() {
    let mut export = NativePngSequenceExport::new(Some(options()));
    warm_up(&mut export);
    let times: Vec<i64> = (0..60).collect();
    collect(&mut export, &times);
    for i in 1..=60usize {
        let (frame_time, request) = render(&mut export);
        assert_eq!(frame_time, (i - 1) as i64);
        assert_eq!(export.apply_scheduled_view_count(request.frame_index, 1), None);
        match export.record_readback(true) {
            ReadbackOutcome::Exported { exported, total, report_progress } => {
                assert_eq!(exported, i);
                assert_eq!(total, 60);
                assert_eq!(report_progress, i == 1 || i == 25 || i == 50 || i == 60);
            }
            other => panic!("unexpected {other:?}"),
        }
    }
    assert!(matches!(export.prepare_frame(None), PrepareFrameOutcome::Finished));
}

#[test]
fn frame_times_come_from_timeline_points() {
    assert_eq!(collect_frame_times(None), Err(FrameTimesError::TimelineNotFound));
    assert_eq!(collect_frame_times(Some(vec![])), Err(FrameTimesError::NoFrames));
    assert_eq!(collect_frame_times(Some(vec![-3, 4, 9])), Ok(vec![-3, 4, 9]));
}

#[test]
fn frame_request_counts_views_across_clones() {
    let request = NativePngSequenceExportFrameRequest::new(17, PathBuf::from("/out/frame_000017.png"));
    assert_eq!(request.frame_index, 17);
    assert_eq!(request.output_path, PathBuf::from("/out/frame_000017.png"));
    assert_eq!(request.scheduled_view_count(), 0);
    let shared = request.clone();
    shared.mark_scheduled();
    assert_eq!(request.scheduled_view_count(), 1);
    request.mark_scheduled();
    assert_eq!(shared.scheduled_view_count(), 2);
}

#[test]
fn failed_export_ignores_readbacks() {
    let mut export = NativePngSequenceExport::new(Some(options()));
    warm_up(&mut export);
    collect(&mut export, &[7, 9]);
    let (_, request) = render(&mut export);
    export.record_output_dir(false);
    assert!(export.should_close());
    assert_eq!(export.record_readback(true), ReadbackOutcome::Ignored);
    assert_eq!(export.record_readback(false), ReadbackOutcome::Ignored);
    assert_eq!(export.validate_frame_request(&request), None);
    assert!(!export.accepts_readbacks());
}

#[test]
fn no_frame_before_output_dir_is_created() {
    let mut export = NativePngSequenceExport::new(Some(options()));
    warm_up(&mut export);
    let times = [3i64, 4];
    export.prepare_frame(Some(times.to_vec()));
    for _ in 0..59 {
        export.prepare_frame(Some(times.to_vec()));
    }
    assert!(matches!(
        export.prepare_frame(Some(times.to_vec())),
        PrepareFrameOutcome::FramesCollected { frame_count: 2 }
    ));
    for _ in 0..3 {
        assert!(matches!(export.prepare_frame(None), PrepareFrameOutcome::Idle));
    }
    assert!(!export.should_close());
    export.record_output_dir(true);
    let (frame_time, request) = render(&mut export);
    assert_eq!(frame_time, 3);
    assert_eq!(request.frame_index, 0);
}
