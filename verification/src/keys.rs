//! Virtual keys and the keystrokes injected to open the task view.

use vstd::prelude::*;

verus! {

/// Virtual-key code of the Tab key.
pub const VK_TAB: u8 = 0x09;

/// Virtual-key code of the left Windows key.
pub const VK_LWIN: u8 = 0x5B;

/// Virtual-key code of the right Windows key.
pub const VK_RWIN: u8 = 0x5C;

/// Flag of an injected key event: the key is an extended key.
pub const KEYEVENTF_EXTENDEDKEY: u32 = 0x0001;

/// Flag of an injected key event: the key is being released.
pub const KEYEVENTF_KEYUP: u32 = 0x0002;

/// Which way a key moves.
#[derive(Clone, Copy, Debug, PartialEq, Eq, Structural)]
pub enum KeyMotion {
    Down,
    Up,
}

/// One key event to inject into the input stream.
#[derive(Clone, Copy, Debug, PartialEq, Eq, Structural)]
pub struct KeyStroke {
    pub vk: u8,
    pub motion: KeyMotion,
}

impl KeyStroke {
    /// The flag word of this stroke: always an extended key, and a key-up
    /// exactly when the key is released.
    pub open spec fn spec_flags(&self) -> u32 {
        match self.motion {
            KeyMotion::Down => KEYEVENTF_EXTENDEDKEY,
            KeyMotion::Up => KEYEVENTF_EXTENDEDKEY | KEYEVENTF_KEYUP,
        }
    }

    /// The flag word to hand to the operating system with this stroke.
    #[verifier::when_used_as_spec(spec_flags)]
    pub fn flags(&self) -> (flags: u32)
        ensures
            flags == self.spec_flags(),
            flags == (if self.motion == KeyMotion::Up { 3u32 } else { 1u32 }),
            flags & KEYEVENTF_EXTENDEDKEY == KEYEVENTF_EXTENDEDKEY,
            (flags & KEYEVENTF_KEYUP != 0) == (self.motion == KeyMotion::Up),
    {
        assert(1u32 | 2u32 == 3u32) by (bit_vector);
        assert(1u32 & 1u32 == 1u32) by (bit_vector);
        assert(3u32 & 1u32 == 1u32) by (bit_vector);
        assert(1u32 & 2u32 == 0u32) by (bit_vector);
        assert(3u32 & 2u32 == 2u32) by (bit_vector);
        match self.motion {
            KeyMotion::Down => KEYEVENTF_EXTENDEDKEY,
            KeyMotion::Up => KEYEVENTF_EXTENDEDKEY | KEYEVENTF_KEYUP,
        }
    }
}

/// The keystrokes that ask for the task view: right Windows key down, Tab
/// down, Tab up, right Windows key up.
pub open spec fn task_view_sequence() -> Seq<KeyStroke> {
    seq![
        KeyStroke { vk: VK_RWIN, motion: KeyMotion::Down },
        KeyStroke { vk: VK_TAB, motion: KeyMotion::Down },
        KeyStroke { vk: VK_TAB, motion: KeyMotion::Up },
        KeyStroke { vk: VK_RWIN, motion: KeyMotion::Up },
    ]
}

/// Builds the keystrokes of the task-view gesture, in the order in which
/// they are to be injected.
pub fn task_view_keys() -> (keys: Vec<KeyStroke>)
    ensures
        keys@ == task_view_sequence(),
{
    let mut keys: Vec<KeyStroke> = Vec::new();
    keys.push(KeyStroke { vk: VK_RWIN, motion: KeyMotion::Down });
    keys.push(KeyStroke { vk: VK_TAB, motion: KeyMotion::Down });
    keys.push(KeyStroke { vk: VK_TAB, motion: KeyMotion::Up });
    keys.push(KeyStroke { vk: VK_RWIN, motion: KeyMotion::Up });
    keys
}

/// Whether the key pressed by the stroke at `i` is released by a later
/// stroke of the sequence.
pub open spec fn released_later(strokes: Seq<KeyStroke>, i: int) -> bool {
    exists|j: int|
        i < j < strokes.len() && #[trigger] strokes[j] == (KeyStroke {
            vk: strokes[i].vk,
            motion: KeyMotion::Up,
        })
}

/// The task-view gesture leaves no key held down: every key that it presses
/// it releases later on.
pub proof fn lemma_task_view_holds_no_key()
    ensures
        forall|i: int|
            0 <= i < task_view_sequence().len() && task_view_sequence()[i].motion
                == KeyMotion::Down ==> #[trigger] released_later(task_view_sequence(), i),
{
    let strokes = task_view_sequence();
    assert(strokes[3] == KeyStroke { vk: strokes[0].vk, motion: KeyMotion::Up });
    assert(released_later(strokes, 0));
    assert(strokes[2] == KeyStroke { vk: strokes[1].vk, motion: KeyMotion::Up });
    assert(released_later(strokes, 1));
}

} // verus!
