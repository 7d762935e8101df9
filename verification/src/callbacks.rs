//! The decisions of the two hook procedures.
//!
//! Both are functions of the event alone. The host's hook procedures read
//! the event, ask here, inject the keystrokes they are given and answer the
//! operating system with the verdict.

use vstd::prelude::*;
use crate::event::{KeyboardEvent, MouseEvent, Verdict};
use crate::keys::{task_view_keys, task_view_sequence, KeyStroke, VK_LWIN};

verus! {

/// What the mouse hook does with one event.
#[derive(Debug, PartialEq, Eq)]
pub struct MouseResponse {
    /// Whether the event is kept from the rest of the system.
    pub verdict: Verdict,
    /// The keystrokes to inject, in order and with nothing in between.
    pub keys: Vec<KeyStroke>,
}

/// The verdict of the mouse hook: a hot-corner hit is consumed, every other
/// event passes through.
pub open spec fn mouse_verdict(event: MouseEvent) -> Verdict {
    if event.spec_is_hot_corner_hit() {
        Verdict::Consume
    } else {
        Verdict::PassThrough
    }
}

/// The keystrokes the mouse hook injects: the task-view gesture for a
/// hot-corner hit, none for every other event.
pub open spec fn mouse_synthesis(event: MouseEvent) -> Seq<KeyStroke> {
    if event.spec_is_hot_corner_hit() {
        task_view_sequence()
    } else {
        Seq::empty()
    }
}

/// The verdict of the keyboard hook: an event of the left Windows key is
/// consumed, every other event passes through.
pub open spec fn keyboard_verdict(event: KeyboardEvent) -> Verdict {
    if event.spec_carries_key(VK_LWIN) {
        Verdict::Consume
    } else {
        Verdict::PassThrough
    }
}

/// Decides one event of the low-level mouse hook.
///
/// A press of the left button inside the hot corner is a gesture and never a
/// click: it is consumed, and the task-view keystrokes are to be injected.
/// Everything else passes through and injects nothing; so does an event that
/// is no press of the left button, wherever the cursor is.
pub fn mouse_callback(event: &MouseEvent) -> (response: MouseResponse)
    ensures
        response.verdict == mouse_verdict(*event),
        response.keys@ == mouse_synthesis(*event),
        event.spec_is_hot_corner_hit() ==> response.verdict == Verdict::Consume
            && response.keys@ == task_view_sequence(),
        !event.spec_is_hot_corner_hit() ==> response.verdict == Verdict::PassThrough
            && response.keys@.len() == 0,
        !event.spec_is_left_button_down() ==> response.verdict == Verdict::PassThrough
            && response.keys@.len() == 0,
{
    if event.is_hot_corner_hit() {
        MouseResponse { verdict: Verdict::Consume, keys: task_view_keys() }
    } else {
        MouseResponse { verdict: Verdict::PassThrough, keys: Vec::new() }
    }
}

/// Decides one event of the low-level keyboard hook.
///
/// The left Windows key is consumed going down and going up, so that it is
/// inert altogether. No other event is consumed.
pub fn keyboard_callback(event: &KeyboardEvent) -> (verdict: Verdict)
    ensures
        verdict == keyboard_verdict(*event),
        event.spec_carries_key(VK_LWIN) ==> verdict == Verdict::Consume,
        event.vk_code != Some(0x5Bu32) ==> verdict == Verdict::PassThrough,
        event.code != 0 ==> verdict == Verdict::PassThrough,
{
    if event.carries_key(VK_LWIN) {
        Verdict::Consume
    } else {
        Verdict::PassThrough
    }
}

} // verus!
