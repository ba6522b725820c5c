//! Classification of inbound structured frames.

use duplex_tts::event::{classify, decode_frame, DecodeError, EventKind, LifecycleEvent};

#[test]
fn classify_started() {
    let e = classify(Some("task-started".to_string()), None);
    assert!(matches!(e, LifecycleEvent::Started));
}

#[test]
fn classify_progress() {
    let e = classify(Some("result-generated".to_string()), None);
    assert!(matches!(e, LifecycleEvent::Progress));
}

#[test]
fn classify_finished() {
    let e = classify(Some("task-finished".to_string()), None);
    assert!(matches!(e, LifecycleEvent::Finished));
}

#[test]
fn classify_failed_with_description() {
    let e = classify(Some("task-failed".to_string()), Some("quota exceeded".to_string()));
    match e {
        LifecycleEvent::Failed { reason } => assert_eq!(reason, "quota exceeded"),
        _ => panic!("expected a failed event"),
    }
}

#[test]
fn classify_failed_without_description_uses_sentinel() {
    let e = classify(Some("task-failed".to_string()), None);
    match e {
        LifecycleEvent::Failed { reason } => assert_eq!(reason, "Unknown error"),
        _ => panic!("expected a failed event"),
    }
}

#[test]
fn classify_unknown_string_is_unrecognized() {
    let e = classify(Some("task-paused".to_string()), None);
    assert!(matches!(e, LifecycleEvent::Unrecognized));
}

#[test]
fn classify_missing_key_is_unrecognized() {
    let e = classify(None, Some("stray".to_string()));
    assert!(matches!(e, LifecycleEvent::Unrecognized));
}

#[test]
fn terminal_events() {
    assert!(!LifecycleEvent::Started.is_terminal());
    assert!(!LifecycleEvent::Progress.is_terminal());
    assert!(LifecycleEvent::Finished.is_terminal());
    assert!(LifecycleEvent::Failed { reason: "x".to_string() }.is_terminal());
    assert!(!LifecycleEvent::Unrecognized.is_terminal());
}

#[test]
fn event_kind_is_copyable_and_comparable() {
    let k = EventKind::Started;
    let l = k;
    assert_eq!(k, l);
    assert_ne!(EventKind::Started, EventKind::Failed);
}

#[test]
fn decode_started_frame() {
    let e = decode_frame("{\"header\":{\"event\":\"task-started\"}}").unwrap();
    assert!(matches!(e, LifecycleEvent::Started));
}

#[test]
fn decode_finished_frame_with_extra_fields() {
    let e = decode_frame(
        "{\"header\":{\"event\":\"task-finished\",\"task_id\":\"t\"},\"payload\":{\"usage\":3}}",
    )
    .unwrap();
    assert!(matches!(e, LifecycleEvent::Finished));
}

#[test]
fn decode_failed_frame_surfaces_exact_description() {
    let e = decode_frame(
        "{\"header\":{\"event\":\"task-failed\",\"error_message\":\"quota exceeded\"}}",
    )
    .unwrap();
    match e {
        LifecycleEvent::Failed { reason } => assert_eq!(reason, "quota exceeded"),
        _ => panic!("expected a failed event"),
    }
}

#[test]
fn decode_failed_frame_without_description_uses_sentinel() {
    let e = decode_frame("{\"header\":{\"event\":\"task-failed\"}}").unwrap();
    match e {
        LifecycleEvent::Failed { reason } => assert_eq!(reason, "Unknown error"),
        _ => panic!("expected a failed event"),
    }
}

#[test]
fn decode_unknown_event_is_unrecognized() {
    let e = decode_frame("{\"header\":{\"event\":\"task-suspended\"}}").unwrap();
    assert!(matches!(e, LifecycleEvent::Unrecognized));
}

#[test]
fn decode_frame_without_header_is_unrecognized() {
    let e = decode_frame("{\"note\":\"no header here\"}").unwrap();
    assert!(matches!(e, LifecycleEvent::Unrecognized));
}

#[test]
fn decode_non_string_event_is_unrecognized() {
    let e = decode_frame("{\"header\":{\"event\":7}}").unwrap();
    assert!(matches!(e, LifecycleEvent::Unrecognized));
}

#[test]
fn decode_malformed_text_is_an_error() {
    let r = decode_frame("{\"header\":{\"event\":");
    assert_eq!(r.unwrap_err(), DecodeError::Malformed);
    let r = decode_frame("not json at all");
    assert_eq!(r.unwrap_err(), DecodeError::Malformed);
}
