use scriba::keys::Key;
use scriba::voice::{
    clip_dir, VoiceAction, VoiceEnrollment, VoiceErrand, VoiceNews, VoicePhase, STUCK_MICROPHONE,
};

fn quiet() -> VoiceNews {
    VoiceNews { level: None, recorder_finished: false, learned: None }
}

#[test]
fn script_uses_the_name_and_prompt_renders() {
    let v = VoiceEnrollment::new("Giovanni");
    assert!(v.script()[0].contains("Giovanni"));
    let lines = v.render_lines(80);
    assert!(lines.lines.len() > 5);
    assert_eq!(v.footer_hint(), "[Enter] Record  [S] Skip");
    let anon = VoiceEnrollment::new("   ");
    assert!(anon.script()[0].contains("it's me"));
}

#[test]
fn skip_finishes_immediately() {
    let mut v = VoiceEnrollment::new("G");
    assert_eq!(v.handle_key(Key::Char('s')), VoiceAction::Finished);
    assert!(matches!(v.phase, VoicePhase::Skipped));
    assert_eq!(v.footer_hint(), "[Enter] Continue");
}

#[test]
fn a_recording_stops_early_once_there_is_enough() {
    let mut v = VoiceEnrollment::new("G");
    assert_eq!(v.handle_key(Key::Enter), VoiceAction::Continue);
    assert_eq!(v.errands, vec![VoiceErrand::Record]);
    v.set_elapsed(3_999);
    v.handle_key(Key::Enter);
    assert_eq!(v.errands.len(), 1);
    v.set_elapsed(4_000);
    v.handle_key(Key::Enter);
    v.handle_key(Key::Enter);
    assert_eq!(v.errands, vec![VoiceErrand::Record, VoiceErrand::Stop]);
}

#[test]
fn the_time_runs_out_and_a_stuck_microphone_is_given_up() {
    let mut v = VoiceEnrollment::new("G");
    v.handle_key(Key::Enter);
    v.set_elapsed(12_000);
    v.tick(&quiet());
    assert_eq!(v.errands.last(), Some(&VoiceErrand::Stop));
    v.set_elapsed(20_000);
    v.tick(&quiet());
    assert!(matches!(v.phase, VoicePhase::Recording { .. }));
    v.set_elapsed(20_001);
    v.tick(&quiet());
    match &v.phase {
        VoicePhase::Failed(msg) => assert_eq!(msg, STUCK_MICROPHONE),
        _ => panic!("not given up"),
    }
    assert_eq!(v.errands.last(), Some(&VoiceErrand::Abort));
    assert_eq!(v.handle_key(Key::Char('r')), VoiceAction::Continue);
    assert!(matches!(v.phase, VoicePhase::Prompt));
}

#[test]
fn samples_are_learned() {
    let mut v = VoiceEnrollment::new("G");
    v.handle_key(Key::Enter);
    v.tick(&VoiceNews { level: Some(100_000), recorder_finished: false, learned: None });
    v.set_elapsed(6_000);
    let lines = v.render_lines(52);
    assert_eq!(lines.lines[0].text(), "\u{25CF} Recording 6s left");
    let time = lines.lines[lines.lines.len() - 2].text();
    assert_eq!(time.matches('\u{2593}').count(), 20);
    assert_eq!(time.matches('\u{2591}').count(), 20);
    let level = lines.lines[lines.lines.len() - 1].text();
    assert_eq!(level.matches('\u{25AE}').count(), 16);
    v.tick(&VoiceNews { level: None, recorder_finished: true, learned: None });
    assert!(matches!(v.phase, VoicePhase::Processing));
    v.tick(&VoiceNews { level: None, recorder_finished: false, learned: Some(Ok((2, 7, 31))) });
    let text = v.render_lines(52).lines[1].text();
    assert_eq!(
        text,
        "Scriba now knows 7 sample(s), 31s in total, and keeps learning from your meetings."
    );
    assert_eq!(v.handle_key(Key::Enter), VoiceAction::Finished);
    assert_eq!(clip_dir(42), "scriba-voice-42");
}

#[test]
fn a_failure_is_reported() {
    let mut v = VoiceEnrollment::new("G");
    v.handle_key(Key::Enter);
    v.tick(&VoiceNews { level: None, recorder_finished: true, learned: None });
    v.tick(&VoiceNews {
        level: None,
        recorder_finished: false,
        learned: Some(Err("no speech".into())),
    });
    assert_eq!(v.render_lines(80).lines[1].text(), "no speech");
    assert_eq!(v.footer_hint(), "[R] Retry  [Enter] Continue");
}
