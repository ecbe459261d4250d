use scriba::config::{LocalModel, TranscriptionMode};
use scriba::geometry::Rect;
use scriba::chat::HomeRecording;
use scriba::jobs::{Jobs, PendingTranscription};
use scriba::recording::{
    inset_area, is_recording_busy, processing_directory, progress_bar, progress_message,
    recording_indicator_visible, recording_strip_line, refresh_home_busy, toggle_recording,
    volume_bar, wave_sample, RecordingInfo, RecordingKind, RecordingPhase, Toggle,
};

fn job(name: &str) -> PendingTranscription {
    PendingTranscription::Retranscribe {
        recording_name: name.to_string(),
        transcription_mode: TranscriptionMode::Local { model: LocalModel::ParakeetTdt },
    }
}

fn info(kind: RecordingKind, phase: RecordingPhase) -> Option<RecordingInfo> {
    Some(RecordingInfo {
        kind,
        phase,
        source: Some("Zoom".into()),
        directory: Some("dir".into()),
        elapsed_secs: 65,
    })
}

#[test]
fn jobs_run_one_at_a_time_in_order() {
    let mut j = Jobs::new();
    assert_eq!(j.enqueue_transcription(job("a")).unwrap().recording_name(), "a");
    assert!(j.enqueue_transcription(job("b")).is_none());
    assert!(j.enqueue_transcription(job("c")).is_none());
    assert!(j.enqueue_transcription(job("b")).is_none());
    assert!(j.enqueue_transcription(job("a")).is_none());
    assert_eq!(j.queue.len(), 2);
    assert!(j.has_active_transcription());
    assert!(j.is_transcription_pending_or_active("b"));
    assert!(!j.is_transcription_pending_or_active("x"));
    assert!(j.drain_transcription_queue().is_none());
    assert_eq!(j.finish_transcription().unwrap().recording_name(), "b");
    assert_eq!(j.finish_transcription().unwrap().recording_name(), "c");
    assert!(j.finish_transcription().is_none());
    assert!(!j.has_active_transcription());
}

#[test]
fn an_import_goes_by_its_display_name() {
    let p = PendingTranscription::Import {
        source_path: "/tmp/x.wav".into(),
        display_name: "Talk".into(),
        transcription_mode: TranscriptionMode::api("k"),
    };
    assert_eq!(p.recording_name(), "Talk");
}

#[test]
fn ctrl_r_toggles() {
    assert_eq!(toggle_recording(true, &None), Toggle::Stop);
    assert_eq!(toggle_recording(false, &None), Toggle::Start);
    assert_eq!(
        toggle_recording(false, &info(RecordingKind::Meeting, RecordingPhase::Recording)),
        Toggle::StopMeeting
    );
    assert_eq!(
        toggle_recording(false, &info(RecordingKind::Meeting, RecordingPhase::Processing)),
        Toggle::Wait
    );
    assert_eq!(
        toggle_recording(false, &info(RecordingKind::Manual, RecordingPhase::Recording)),
        Toggle::Start
    );
}

#[test]
fn only_capture_is_indicated() {
    assert!(recording_indicator_visible(true, &None));
    assert!(!recording_indicator_visible(false, &None));
    assert!(recording_indicator_visible(
        false,
        &info(RecordingKind::Meeting, RecordingPhase::Recording)
    ));
    assert!(!recording_indicator_visible(
        false,
        &info(RecordingKind::Meeting, RecordingPhase::Processing)
    ));
}

#[test]
fn busy_recordings_are_flagged() {
    let mut j = Jobs::new();
    j.enqueue_transcription(job("a"));
    let processing = info(RecordingKind::Meeting, RecordingPhase::Processing);
    assert_eq!(processing_directory(&processing), Some("dir".to_string()));
    assert!(is_recording_busy(&j, &processing, "dir"));
    assert!(is_recording_busy(&j, &None, "a"));
    assert!(!is_recording_busy(&j, &None, "dir"));
    let mut list: Vec<HomeRecording> = ["a", "b", "dir"]
        .iter()
        .map(|d| HomeRecording {
            recording_id: 1,
            name: String::new(),
            duration_mins: 1,
            summary_line: None,
            directory_name: d.to_string(),
            busy: false,
        })
        .collect();
    refresh_home_busy(&mut list, &j, &processing);
    let flags: Vec<bool> = list.iter().map(|r| r.busy).collect();
    assert_eq!(flags, vec![true, false, true]);
}

#[test]
fn the_bar_grows_and_shrinks() {
    assert_eq!(progress_bar(0).matches('\u{25B0}').count(), 1);
    assert_eq!(progress_bar(38).matches('\u{25B0}').count(), 20);
    assert!(progress_bar(40).starts_with('\u{25B1}'));
    assert_eq!(progress_bar(40).matches('\u{25B0}').count(), 1);
    assert_eq!(progress_bar(80), progress_bar(0));
    assert_eq!(progress_message(1, "Working", "x"), "\u{2819} Working [x]");
    assert_eq!(volume_bar(20, 100).matches('\u{25B0}').count(), 20);
    assert!(volume_bar(5, 25).ends_with("|25%"));
}

#[test]
fn the_strip_tells_what_is_recorded() {
    let l = recording_strip_line(
        &info(RecordingKind::Meeting, RecordingPhase::Recording),
        0,
        0,
        &vec![0, 8],
        60,
        "",
    );
    let text = l.text();
    assert!(text.starts_with("\u{25CF} Recording meeting \u{00B7} Zoom  01:05   \u{2588}"));
    assert!(text.ends_with("[Ctrl+R] Stop"));
    assert_eq!(text.chars().count(), 60);
    let l = recording_strip_line(&None, 3600, 5, &vec![], 0, "  ");
    assert_eq!(l.text(), "  \u{25CF} Recording  60:00  [Ctrl+R] Stop");
    assert_eq!(
        inset_area(Rect { x: 0, y: 3, width: 10, height: 2 }),
        Rect { x: 2, y: 3, width: 6, height: 2 }
    );
    assert_eq!(wave_sample(0, 24, 3), None);
    assert_eq!(wave_sample(23, 24, 3), Some(2));
    assert_eq!(wave_sample(0, 24, 48), Some(24));
}
