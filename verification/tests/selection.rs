use textfmt::selection::{
    copy_step, decide_paste, strip_bom, wayland_copy_step, wayland_timings, windows_timings, CopyStep, PasteDecision,
    PasteTimings, WaylandCopyAction, WaylandCopyPhase,
};
use textfmt::transform::Transform;

#[test]
fn strip_bom_drops_leading_marks_only() {
    assert_eq!(strip_bom("\u{FEFF}\u{FEFF}abc\u{FEFF}"), "abc\u{FEFF}");
    assert_eq!(strip_bom("abc"), "abc");
    assert_eq!(strip_bom("\u{FEFF}"), "");
    assert_eq!(strip_bom(""), "");
}

#[test]
fn copy_step_takes_new_text() {
    match copy_step(1, "selected", "marker") {
        CopyStep::Copied(s) => assert_eq!(s, "selected"),
        other => panic!("unexpected {:?}", other),
    }
}

#[test]
fn copy_step_retries_until_the_last_attempt() {
    assert!(matches!(copy_step(1, "marker", "marker"), CopyStep::Retry));
    assert!(matches!(copy_step(4, "", "marker"), CopyStep::Retry));
    assert!(matches!(copy_step(5, "", "marker"), CopyStep::GiveUp));
    assert!(matches!(copy_step(5, "marker", "marker"), CopyStep::GiveUp));
}

#[test]
fn decide_paste_skips_an_empty_selection() {
    assert!(matches!(decide_paste(Transform::ToUpper, ""), PasteDecision::NothingSelected));
}

#[test]
fn decide_paste_skips_an_unchanged_text() {
    assert!(matches!(decide_paste(Transform::ToUpper, "ABC"), PasteDecision::Unchanged));
    assert!(matches!(decide_paste(Transform::CleanWhitespace, "a b"), PasteDecision::Unchanged));
}

#[test]
fn decide_paste_pastes_the_transformed_text() {
    match decide_paste(Transform::ToRussian, "ghbdtn") {
        PasteDecision::Paste(s) => assert_eq!(s, "привет"),
        other => panic!("unexpected {:?}", other),
    }
}

#[test]
fn paste_timings() {
    assert_eq!(windows_timings(150), PasteTimings { before_paste_ms: 75, after_paste_ms: 150 });
    assert_eq!(wayland_timings(150), PasteTimings { before_paste_ms: 150, after_paste_ms: 150 });
    assert_eq!(wayland_timings(90), PasteTimings { before_paste_ms: 90, after_paste_ms: 100 });
    assert_eq!(wayland_timings(0), PasteTimings { before_paste_ms: 80, after_paste_ms: 100 });
}

#[test]
fn wayland_clearing_waits_for_an_empty_clipboard() {
    assert_eq!(wayland_copy_step(WaylandCopyPhase::Clearing, true, false), WaylandCopyAction::PollAgain);
    assert_eq!(wayland_copy_step(WaylandCopyPhase::Clearing, false, false), WaylandCopyAction::ConfirmCleared);
    assert_eq!(wayland_copy_step(WaylandCopyPhase::Clearing, false, true), WaylandCopyAction::ConfirmCleared);
}

#[test]
fn wayland_refuses_stale_text_after_clearing() {
    assert_eq!(wayland_copy_step(WaylandCopyPhase::ConfirmCleared, true, false), WaylandCopyAction::FailStale);
    assert_eq!(wayland_copy_step(WaylandCopyPhase::ConfirmCleared, false, false), WaylandCopyAction::SendCtrlC);
}

#[test]
fn wayland_takes_the_first_text_after_ctrl_c() {
    assert_eq!(wayland_copy_step(WaylandCopyPhase::Copying, true, false), WaylandCopyAction::Copied);
    assert_eq!(wayland_copy_step(WaylandCopyPhase::Copying, false, false), WaylandCopyAction::PollAgain);
    assert_eq!(wayland_copy_step(WaylandCopyPhase::Copying, false, true), WaylandCopyAction::FailNothingCopied);
}
