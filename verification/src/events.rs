//! Decoding of rotary-encoder events from the scheduler's event queue.
//!
//! The encoder driver posts a single raw byte per event. The queue is
//! polled with a zero timeout, so an empty queue yields "no event"
//! rather than blocking. A recognized payload byte decodes to one of
//! the four encoder events; any other byte also yields "no event".

use vstd::prelude::*;
use crate::actions::VisionUiAction;
use crate::actions::spec_action_tag;

verus! {

/// An input event produced by the rotary encoder.
#[derive(Copy, Clone, Debug, PartialEq, Eq, Structural)]
pub enum EncoderEvent {
    CW,
    CCW,
    Click,
    Press,
}

/// The event a raw queue byte decodes to: bytes 0 through 3 carry the
/// four encoder events; every other byte carries no event.
pub open spec fn spec_decode_event(byte: u8) -> Option<EncoderEvent> {
    if byte == 0 {
        Some(EncoderEvent::CW)
    } else if byte == 1 {
        Some(EncoderEvent::CCW)
    } else if byte == 2 {
        Some(EncoderEvent::Click)
    } else if byte == 3 {
        Some(EncoderEvent::Press)
    } else {
        None
    }
}

/// Decode the single-byte payload read from the encoder queue.
pub fn decode_event(byte: u8) -> (e: Option<EncoderEvent>)
    ensures
        e == spec_decode_event(byte),
{
    if byte == 0 {
        Some(EncoderEvent::CW)
    } else if byte == 1 {
        Some(EncoderEvent::CCW)
    } else if byte == 2 {
        Some(EncoderEvent::Click)
    } else if byte == 3 {
        Some(EncoderEvent::Press)
    } else {
        None
    }
}

/// The outcome of one non-blocking receive on the encoder queue,
/// given whether the queue reported an item (`received`) and the
/// payload byte it wrote.
pub open spec fn spec_decode_received(received: bool, byte: u8) -> Option<EncoderEvent> {
    if received {
        spec_decode_event(byte)
    } else {
        None
    }
}

/// Turn the result of one non-blocking queue poll into a typed event.
/// When the poll reported nothing, there is no event and the payload
/// byte is ignored.
pub fn decode_received(received: bool, byte: u8) -> (e: Option<EncoderEvent>)
    ensures
        e == spec_decode_received(received, byte),
        !received ==> e is None,
{
    if received {
        decode_event(byte)
    } else {
        None
    }
}

/// The UI action the polling closure answers for a given event:
/// clockwise moves forward, counterclockwise moves back, a click
/// enters, a long press exits, and no event means no action.
pub open spec fn spec_action_for_event(e: Option<EncoderEvent>) -> VisionUiAction {
    match e {
        Some(EncoderEvent::CW) => VisionUiAction::UiActionGoNext,
        Some(EncoderEvent::CCW) => VisionUiAction::UiActionGoPrev,
        Some(EncoderEvent::Click) => VisionUiAction::UiActionEnter,
        Some(EncoderEvent::Press) => VisionUiAction::UiActionExit,
        None => VisionUiAction::UiActionNone,
    }
}

/// Map an optional encoder event to the UI action it stands for.
pub fn action_for_event(e: Option<EncoderEvent>) -> (a: VisionUiAction)
    ensures
        a == spec_action_for_event(e),
{
    match e {
        Some(EncoderEvent::CW) => VisionUiAction::UiActionGoNext,
        Some(EncoderEvent::CCW) => VisionUiAction::UiActionGoPrev,
        Some(EncoderEvent::Click) => VisionUiAction::UiActionEnter,
        Some(EncoderEvent::Press) => VisionUiAction::UiActionExit,
        None => VisionUiAction::UiActionNone,
    }
}

/// One full poll of the display's input source: decode the result of
/// a non-blocking queue receive and answer the matching UI action.
/// This is the body of the closure installed in the polling-callback
/// bridge.
pub fn poll_action(received: bool, byte: u8) -> (a: VisionUiAction)
    ensures
        a == spec_action_for_event(spec_decode_received(received, byte)),
        !received ==> spec_action_tag(a) == 0,
{
    let e = decode_received(received, byte);
    action_for_event(e)
}

} // verus!
