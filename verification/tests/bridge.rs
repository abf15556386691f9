use rtos_bridge::actions::{action_from_tag, action_tag, VisionUiAction};
use rtos_bridge::callback::{trampoline_answer, CallbackSlot};
use rtos_bridge::events::{action_for_event, decode_event, decode_received, poll_action, EncoderEvent};
use rtos_bridge::logger::Logger;
use rtos_bridge::report::format_report;
use rtos_bridge::section::CriticalSection;
use rtos_bridge::sink::BoundedSink;
use rtos_bridge::tasks::TaskLifecycle;

#[test]
fn sink_truncates_at_capacity() {
    let mut s = BoundedSink::new(8);
    s.append(b"ab");
    s.append(b"cdef");
    s.append(b"ghij");
    assert_eq!(s.text_bytes(), b"abcdefg".to_vec());
    assert_eq!(s.capacity(), 8);
}

#[test]
fn sink_starts_empty_and_resets() {
    let mut s = BoundedSink::new(4);
    assert_eq!(s.text_bytes(), Vec::<u8>::new());
    s.append(b"xy");
    assert_eq!(s.text_bytes(), b"xy".to_vec());
    s.reset();
    assert_eq!(s.text_bytes(), Vec::<u8>::new());
}

#[test]
fn sink_keeps_terminator_byte_free() {
    let mut s = BoundedSink::new(4);
    s.append(b"abc");
    assert_eq!(s.text_bytes(), b"abc".to_vec());
    s.append(b"z");
    assert_eq!(s.text_bytes(), b"abc".to_vec());
    assert!(s.text_bytes().len() < s.capacity());
}

#[test]
fn sink_set_text_overwrites() {
    let mut s = BoundedSink::new(8);
    s.append(b"hello");
    s.set_text(b"hi");
    assert_eq!(s.text_bytes(), b"hi".to_vec());
}

#[test]
fn sink_set_text_truncates() {
    let mut s = BoundedSink::new(4);
    s.set_text(b"abcdef");
    assert_eq!(s.text_bytes(), b"abc".to_vec());
}

#[test]
fn decode_event_known_bytes() {
    assert_eq!(decode_event(0), Some(EncoderEvent::CW));
    assert_eq!(decode_event(1), Some(EncoderEvent::CCW));
    assert_eq!(decode_event(2), Some(EncoderEvent::Click));
    assert_eq!(decode_event(3), Some(EncoderEvent::Press));
}

#[test]
fn decode_event_unknown_bytes() {
    assert_eq!(decode_event(4), None);
    assert_eq!(decode_event(17), None);
    assert_eq!(decode_event(255), None);
}

#[test]
fn receive_on_empty_queue_is_no_event() {
    assert_eq!(decode_received(false, 0), None);
    assert_eq!(decode_received(false, 3), None);
}

#[test]
fn receive_decodes_queued_byte() {
    assert_eq!(decode_received(true, 0), Some(EncoderEvent::CW));
    assert_eq!(decode_received(true, 2), Some(EncoderEvent::Click));
    assert_eq!(decode_received(true, 9), None);
}

#[test]
fn actions_for_events() {
    assert_eq!(
        action_for_event(Some(EncoderEvent::CW)),
        VisionUiAction::UiActionGoNext
    );
    assert_eq!(
        action_for_event(Some(EncoderEvent::CCW)),
        VisionUiAction::UiActionGoPrev
    );
    assert_eq!(
        action_for_event(Some(EncoderEvent::Click)),
        VisionUiAction::UiActionEnter
    );
    assert_eq!(
        action_for_event(Some(EncoderEvent::Press)),
        VisionUiAction::UiActionExit
    );
    assert_eq!(action_for_event(None), VisionUiAction::UiActionNone);
}

#[test]
fn poll_action_composes_receive_and_mapping() {
    assert_eq!(poll_action(true, 0), VisionUiAction::UiActionGoNext);
    assert_eq!(poll_action(true, 3), VisionUiAction::UiActionExit);
    assert_eq!(poll_action(false, 0), VisionUiAction::UiActionNone);
    assert_eq!(poll_action(true, 200), VisionUiAction::UiActionNone);
}

#[test]
fn action_tags_are_stable() {
    assert_eq!(action_tag(VisionUiAction::UiActionNone), 0);
    assert_eq!(action_tag(VisionUiAction::UiActionGoPrev), 1);
    assert_eq!(action_tag(VisionUiAction::UiActionGoNext), 2);
    assert_eq!(action_tag(VisionUiAction::UiActionEnter), 3);
    assert_eq!(action_tag(VisionUiAction::UiActionExit), 4);
}

#[test]
fn action_tag_round_trips() {
    for a in [
        VisionUiAction::UiActionNone,
        VisionUiAction::UiActionGoPrev,
        VisionUiAction::UiActionGoNext,
        VisionUiAction::UiActionEnter,
        VisionUiAction::UiActionExit,
    ] {
        assert_eq!(action_from_tag(action_tag(a)), a);
    }
}

#[test]
fn unknown_tag_reads_as_no_action() {
    assert_eq!(action_from_tag(5), VisionUiAction::UiActionNone);
    assert_eq!(action_from_tag(200), VisionUiAction::UiActionNone);
}

#[test]
fn spawn_success_runs_closure_exactly_once() {
    let mut t = TaskLifecycle::spawn(1);
    assert!(t.is_live());
    assert!(t.pending());
    assert_eq!(t.invocations(), 0);
    t.run_trampoline();
    assert_eq!(t.invocations(), 1);
    assert!(!t.pending());
    assert!(t.freed());
    assert!(t.exit_was_requested());
}

#[test]
fn spawn_failure_frees_closure_without_running_it() {
    let t = TaskLifecycle::spawn(0);
    assert!(!t.is_live());
    assert!(t.freed());
    assert!(!t.pending());
    assert_eq!(t.invocations(), 0);
}

#[test]
fn dropping_live_handle_terminates_exactly_once() {
    let mut t = TaskLifecycle::spawn(1);
    t.drop_handle();
    assert_eq!(t.termination_requests(), 1);
    assert!(!t.is_live());
    t.drop_handle();
    assert_eq!(t.termination_requests(), 1);
}

#[test]
fn dropping_null_handle_requests_nothing() {
    let mut t = TaskLifecycle::spawn(0);
    t.drop_handle();
    assert_eq!(t.termination_requests(), 0);
    assert!(!t.is_live());
}

#[test]
fn install_replaces_previous_callback() {
    let mut slot = CallbackSlot::empty();
    assert_eq!(slot.poll_target(), None);
    slot.install(1);
    assert_eq!(slot.poll_target(), Some(1));
    assert_eq!(slot.retired_count(), 0);
    slot.install(2);
    assert_eq!(slot.poll_target(), Some(2));
    assert_eq!(slot.retired_count(), 1);
    assert_eq!(slot.retired_at(0), 1);
    // One trigger of the trampoline now reaches only the second
    // callback; its action is what the display observes.
    assert_eq!(
        trampoline_answer(slot.poll_target(), VisionUiAction::UiActionEnter),
        VisionUiAction::UiActionEnter
    );
}

#[test]
fn empty_slot_answers_no_action() {
    let slot = CallbackSlot::empty();
    assert_eq!(
        trampoline_answer(slot.poll_target(), VisionUiAction::UiActionEnter),
        VisionUiAction::UiActionNone
    );
}

#[test]
fn logger_severity_tiers() {
    let mut l = Logger::new(16);
    assert_eq!(l.current_level(), 1);
    l.debug(b"d");
    assert_eq!(l.current_level(), 0);
    l.info(b"i");
    assert_eq!(l.current_level(), 1);
    l.error(b"e");
    assert_eq!(l.current_level(), 2);
    l.warn(b"w");
    assert_eq!(l.current_level(), 3);
    l.trace(b"t");
    assert_eq!(l.current_level(), 4);
}

#[test]
fn logger_renders_line() {
    let mut l = Logger::new(16);
    l.info(b"boot ok");
    assert_eq!(l.line_bytes(), b"boot ok".to_vec());
    l.warn(b"fuse");
    assert_eq!(l.line_bytes(), b"fuse".to_vec());
}

#[test]
fn logger_truncates_long_line() {
    let mut l = Logger::new(4);
    l.info(b"abcdef");
    assert_eq!(l.line_bytes(), b"abc".to_vec());
}

#[test]
fn report_holds_prefix_and_details() {
    let mut s = BoundedSink::new(32);
    format_report(&mut s, b"Panic: ", b"boom");
    assert_eq!(s.text_bytes(), b"Panic: boom".to_vec());
}

#[test]
fn report_truncates_but_stays_terminated() {
    let mut s = BoundedSink::new(8);
    format_report(&mut s, b"Panic: ", b"boom");
    assert_eq!(s.text_bytes(), b"Panic: ".to_vec());
    assert!(s.text_bytes().len() < s.capacity());
}

#[test]
fn critical_section_nests_and_unwinds() {
    let mut cs = CriticalSection::new();
    assert_eq!(cs.depth_now(), 0);
    cs.acquire();
    assert_eq!(cs.depth_now(), 1);
    cs.acquire();
    assert_eq!(cs.depth_now(), 2);
    cs.release();
    assert_eq!(cs.depth_now(), 1);
    cs.release();
    assert_eq!(cs.depth_now(), 0);
}
