//! UI-action codes exchanged with the display subsystem.
//!
//! The display subsystem polls the application through a C-ABI
//! trampoline that returns one of these actions as a fixed-width tag.
//! The numeric tag of each variant is part of the wire contract with
//! the display subsystem and must stay stable.

use vstd::prelude::*;

verus! {

/// An action the user interface should take, as answered to the
/// display subsystem's poll.
#[derive(Copy, Clone, Debug, PartialEq, Eq, Structural)]
pub enum VisionUiAction {
    UiActionNone,
    UiActionGoPrev,
    UiActionGoNext,
    UiActionEnter,
    UiActionExit,
}

/// The stable numeric tag each action carries on the wire.
pub open spec fn spec_action_tag(a: VisionUiAction) -> u8 {
    match a {
        VisionUiAction::UiActionNone => 0,
        VisionUiAction::UiActionGoPrev => 1,
        VisionUiAction::UiActionGoNext => 2,
        VisionUiAction::UiActionEnter => 3,
        VisionUiAction::UiActionExit => 4,
    }
}

/// The action a tag decodes to: the inverse of `spec_action_tag` on
/// the five assigned tags; every unassigned tag reads as "no action".
pub open spec fn spec_action_from_tag(t: u8) -> VisionUiAction {
    if t == 1 {
        VisionUiAction::UiActionGoPrev
    } else if t == 2 {
        VisionUiAction::UiActionGoNext
    } else if t == 3 {
        VisionUiAction::UiActionEnter
    } else if t == 4 {
        VisionUiAction::UiActionExit
    } else {
        VisionUiAction::UiActionNone
    }
}

/// Encode an action as its wire tag.
pub fn action_tag(a: VisionUiAction) -> (t: u8)
    ensures
        t == spec_action_tag(a),
        t <= 4,
{
    match a {
        VisionUiAction::UiActionNone => 0,
        VisionUiAction::UiActionGoPrev => 1,
        VisionUiAction::UiActionGoNext => 2,
        VisionUiAction::UiActionEnter => 3,
        VisionUiAction::UiActionExit => 4,
    }
}

/// Decode a wire tag back into an action.
pub fn action_from_tag(t: u8) -> (a: VisionUiAction)
    ensures
        a == spec_action_from_tag(t),
        spec_action_tag(a) == if t <= 4 { t } else { 0 },
{
    if t == 1 {
        VisionUiAction::UiActionGoPrev
    } else if t == 2 {
        VisionUiAction::UiActionGoNext
    } else if t == 3 {
        VisionUiAction::UiActionEnter
    } else if t == 4 {
        VisionUiAction::UiActionExit
    } else {
        VisionUiAction::UiActionNone
    }
}

} // verus!
