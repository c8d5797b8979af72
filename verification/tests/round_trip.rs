use promptforge::keys::send_copy;
use promptforge::keys::send_paste;
use promptforge::pipeline::{Action, Event, Pipeline, PipelineError, Replacement};
use promptforge::platform::Platform;

fn s(t: &str) -> String {
    t.to_string()
}

fn start(platform: Platform) -> Pipeline {
    let mut p = Pipeline::new(platform, s("SENT"));
    assert!(matches!(p.step(Event::Start), Action::ReadClipboard));
    p
}

fn capture(p: &mut Pipeline, original: Option<String>, copied: Option<String>) -> Action {
    match p.step(Event::ClipboardRead(original.clone())) {
        Action::WriteClipboard(t) => assert_eq!(t, "SENT"),
        a => panic!("{a:?}"),
    }
    let a = p.step(Event::ClipboardWritten(Ok(())));
    if p.platform == Platform::Windows {
        assert!(matches!(a, Action::PollModifiers));
        assert!(matches!(p.step(Event::Modifiers { held: true, elapsed_ms: 300 }), Action::Sleep(20)));
        assert!(matches!(p.step(Event::Slept), Action::PollModifiers));
        match p.step(Event::Modifiers { held: false, elapsed_ms: 340 }) {
            Action::SendKeys(k) => assert_eq!(k, send_copy(Platform::Windows)),
            a => panic!("{a:?}"),
        }
    } else {
        assert!(matches!(a, Action::Sleep(250)));
        match p.step(Event::Slept) {
            Action::SendKeys(k) => assert_eq!(k, send_copy(p.platform)),
            a => panic!("{a:?}"),
        }
    }
    assert!(matches!(p.step(Event::KeysSent(Ok(()))), Action::Sleep(120)));
    assert!(matches!(p.step(Event::Slept), Action::ReadClipboard));
    match p.step(Event::ClipboardRead(copied)) {
        Action::WriteClipboard(t) => assert_eq!(t, original.unwrap_or_default()),
        a => panic!("{a:?}"),
    }
    p.step(Event::ClipboardWritten(Ok(())))
}

fn finish(p: &mut Pipeline) -> Result<(), PipelineError> {
    match p.step(Event::StatusHidden) {
        Action::Finished(r) => {
            assert!(p.is_done());
            r
        },
        a => panic!("{a:?}"),
    }
}

#[test]
fn successful_round_trip_on_windows() {
    let mut p = start(Platform::Windows);
    assert!(matches!(capture(&mut p, Some(s("old")), Some(s("fix it"))), Action::ShowStatus));
    match p.step(Event::StatusShown) {
        Action::Enhance(t) => assert_eq!(t, "fix it"),
        a => panic!("{a:?}"),
    }
    match p.step(Event::Enhanced(Ok(s("Fix the bug.")))) {
        Action::WriteClipboard(t) => assert_eq!(t, "Fix the bug."),
        a => panic!("{a:?}"),
    }
    assert!(matches!(p.step(Event::ClipboardWritten(Ok(()))), Action::Sleep(120)));
    match p.step(Event::Slept) {
        Action::SendKeys(k) => assert_eq!(k, send_paste(Platform::Windows)),
        a => panic!("{a:?}"),
    }
    assert!(matches!(p.step(Event::KeysSent(Ok(()))), Action::HideStatus));
    assert!(finish(&mut p).is_ok());
    assert!(matches!(p.step(Event::Start), Action::Nothing));
}

#[test]
fn modifier_wait_gives_up_after_its_limit() {
    let mut p = start(Platform::Windows);
    p.step(Event::ClipboardRead(None));
    p.step(Event::ClipboardWritten(Ok(())));
    assert!(matches!(p.step(Event::Modifiers { held: true, elapsed_ms: 1500 }), Action::SendKeys(_)));
}

#[test]
fn sentinel_surviving_means_no_copy() {
    let mut p = start(Platform::Linux);
    assert!(matches!(capture(&mut p, None, Some(s("SENT"))), Action::HideStatus));
    let e = finish(&mut p).unwrap_err();
    assert!(matches!(e, PipelineError::NoCopy));
    assert!(e.message().starts_with("capture failed: synthetic Ctrl+C produced no copy"));
}

#[test]
fn unreadable_clipboard_fails() {
    let mut p = start(Platform::MacOs);
    assert!(matches!(capture(&mut p, Some(s("o")), None), Action::HideStatus));
    assert!(matches!(finish(&mut p), Err(PipelineError::Unreadable)));
}

#[test]
fn blank_selection_is_not_enhanced() {
    let mut p = start(Platform::Linux);
    assert!(matches!(capture(&mut p, None, Some(s(" \n\t"))), Action::HideStatus));
    let e = finish(&mut p).unwrap_err();
    assert_eq!(e.message(), "captured selection is empty");
}

#[test]
fn sentinel_write_failure_stops_the_capture() {
    let mut p = start(Platform::Linux);
    p.step(Event::ClipboardRead(None));
    assert!(matches!(p.step(Event::ClipboardWritten(Err(s("busy")))), Action::HideStatus));
    let e = finish(&mut p).unwrap_err();
    assert_eq!(e.message(), "capture failed: could not plant sentinel on clipboard: busy");
}

#[test]
fn copy_keystroke_failure_stops_the_capture() {
    let mut p = start(Platform::Linux);
    p.step(Event::ClipboardRead(None));
    p.step(Event::ClipboardWritten(Ok(())));
    p.step(Event::Slept);
    match p.step(Event::KeysSent(Err(s("enigo init failed")))) {
        Action::WriteClipboard(t) => assert_eq!(t, ""),
        a => panic!("{a:?}"),
    }
    assert!(matches!(p.step(Event::ClipboardWritten(Ok(()))), Action::HideStatus));
    assert_eq!(finish(&mut p).unwrap_err().message(), "capture failed: enigo init failed");
}

#[test]
fn enhancement_failure_is_reported_after_hiding() {
    let mut p = start(Platform::Linux);
    capture(&mut p, None, Some(s("text")));
    p.step(Event::StatusShown);
    assert!(matches!(p.step(Event::Enhanced(Err(s("timeout")))), Action::HideStatus));
    assert_eq!(finish(&mut p).unwrap_err().message(), "enhance failed: timeout");
}

#[test]
fn replace_failures() {
    let mut p = start(Platform::Linux);
    capture(&mut p, None, Some(s("text")));
    p.step(Event::StatusShown);
    p.step(Event::Enhanced(Ok(s("T"))));
    assert!(matches!(p.step(Event::ClipboardWritten(Err(s("denied")))), Action::HideStatus));
    assert_eq!(
        finish(&mut p).unwrap_err().message(),
        "replace failed: clipboard write failed: denied"
    );

    let mut p = start(Platform::Linux);
    capture(&mut p, None, Some(s("text")));
    p.step(Event::StatusShown);
    p.step(Event::Enhanced(Ok(s("T"))));
    p.step(Event::ClipboardWritten(Ok(())));
    p.step(Event::Slept);
    assert!(matches!(p.step(Event::KeysSent(Err(s("blocked")))), Action::HideStatus));
    assert_eq!(finish(&mut p).unwrap_err().message(), "replace failed: blocked");
}

#[test]
fn unexpected_events_change_nothing() {
    let mut p = start(Platform::Linux);
    assert!(matches!(p.step(Event::Slept), Action::Nothing));
    assert!(matches!(p.step(Event::StatusHidden), Action::Nothing));
    assert!(matches!(p.step(Event::ClipboardRead(None)), Action::WriteClipboard(_)));
}

#[test]
fn failed_copy_keystrokes_restore_the_clipboard() {
    let mut p = start(Platform::Windows);
    p.step(Event::ClipboardRead(Some(s("keep me"))));
    p.step(Event::ClipboardWritten(Ok(())));
    p.step(Event::Modifiers { held: false, elapsed_ms: 0 });
    match p.step(Event::KeysSent(Err(s("SendInput delivered 2/4 events")))) {
        Action::WriteClipboard(t) => assert_eq!(t, "keep me"),
        a => panic!("{a:?}"),
    }
    assert!(matches!(p.step(Event::Slept), Action::Nothing));
    assert!(matches!(p.step(Event::ClipboardWritten(Err(s("busy")))), Action::HideStatus));
    match finish(&mut p) {
        Err(PipelineError::CopyKeys(m)) => assert_eq!(m, "SendInput delivered 2/4 events"),
        other => panic!("{other:?}"),
    }
}

#[test]
fn replacement_writes_settles_and_pastes() {
    let mut r = Replacement::new(Platform::MacOs, s("better"));
    match r.step(Event::Start) {
        Action::WriteClipboard(t) => assert_eq!(t, "better"),
        a => panic!("{a:?}"),
    }
    assert!(matches!(r.step(Event::ClipboardWritten(Ok(()))), Action::Sleep(120)));
    match r.step(Event::Slept) {
        Action::SendKeys(k) => assert_eq!(k, send_paste(Platform::MacOs)),
        a => panic!("{a:?}"),
    }
    assert!(matches!(r.step(Event::KeysSent(Ok(()))), Action::Finished(Ok(()))));
    assert!(matches!(r.step(Event::Start), Action::Nothing));
}

#[test]
fn replacement_failures() {
    let mut r = Replacement::new(Platform::Linux, s("x"));
    r.step(Event::Start);
    match r.step(Event::ClipboardWritten(Err(s("denied")))) {
        Action::Finished(Err(e)) => {
            assert_eq!(e.message(), "replace failed: clipboard write failed: denied")
        }
        a => panic!("{a:?}"),
    }
    let mut r = Replacement::new(Platform::Linux, s("x"));
    r.step(Event::Start);
    r.step(Event::ClipboardWritten(Ok(())));
    r.step(Event::Slept);
    match r.step(Event::KeysSent(Err(s("blocked")))) {
        Action::Finished(Err(e)) => assert_eq!(e.message(), "replace failed: blocked"),
        a => panic!("{a:?}"),
    }
}
