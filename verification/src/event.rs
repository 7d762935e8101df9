//! Low-level input events as the hook procedures see them.

use vstd::prelude::*;

verus! {

/// Hook code of a notification that carries an input event.
pub const HC_ACTION: i32 = 0;

/// Message identifier of a press of the left mouse button.
pub const WM_LBUTTONDOWN: usize = 0x0201;

/// Side of the square at the screen origin that counts as the hot corner,
/// in pixels.
pub const HOT_CORNER_EXTENT: i32 = 3;

/// What a hook procedure answers for one event.
#[derive(Clone, Copy, Debug, PartialEq, Eq, Structural)]
pub enum Verdict {
    /// The event stops here and reaches no other handler or application.
    Consume,
    /// The event goes on to the next handler unchanged.
    PassThrough,
}

impl Verdict {
    /// The value a hook procedure returns for this verdict by itself; for
    /// `PassThrough` there is none, the answer of the next hook is returned.
    pub fn hook_result(&self) -> (result: Option<isize>)
        ensures
            result == (match *self {
                Verdict::Consume => Some(1isize),
                Verdict::PassThrough => None,
            }),
    {
        match self {
            Verdict::Consume => Some(1),
            Verdict::PassThrough => None,
        }
    }
}

/// A position on the screen, in pixels from the origin of the primary display.
#[derive(Clone, Copy, Debug, PartialEq, Eq, Structural)]
pub struct Point {
    pub x: i32,
    pub y: i32,
}

impl Point {
    /// Whether the point lies in the hot corner: both coordinates below
    /// `HOT_CORNER_EXTENT`.
    pub open spec fn spec_in_hot_corner(&self) -> bool {
        self.x < HOT_CORNER_EXTENT && self.y < HOT_CORNER_EXTENT
    }

    /// Tests whether the point lies in the hot corner.
    #[verifier::when_used_as_spec(spec_in_hot_corner)]
    pub fn in_hot_corner(&self) -> (inside: bool)
        ensures
            inside == self.spec_in_hot_corner(),
            inside == (self.x < 3 && self.y < 3),
    {
        self.x < HOT_CORNER_EXTENT && self.y < HOT_CORNER_EXTENT
    }
}

/// Tests whether a notification with this hook code carries an input event.
/// Only then may the host read the event's data.
pub fn is_action(code: i32) -> (action: bool)
    ensures
        action == (code == HC_ACTION),
{
    code == HC_ACTION
}

/// One notification of the low-level mouse hook.
#[derive(Clone, Copy, Debug, PartialEq, Eq, Structural)]
pub struct MouseEvent {
    /// The hook code.
    pub code: i32,
    /// The identifier of the mouse message.
    pub message: usize,
    /// Where the cursor was, if that could be read.
    pub position: Option<Point>,
}

impl MouseEvent {
    /// Whether the event is a press of the left button.
    pub open spec fn spec_is_left_button_down(&self) -> bool {
        self.code == HC_ACTION && self.message == WM_LBUTTONDOWN
    }

    /// Whether the event is a hot-corner hit: a press of the left button at
    /// a readable position inside the hot corner.
    pub open spec fn spec_is_hot_corner_hit(&self) -> bool {
        &&& self.spec_is_left_button_down()
        &&& self.position matches Some(point)
        &&& point.spec_in_hot_corner()
    }

    /// A press of the left button at `(x, y)`.
    pub fn left_button_down(x: i32, y: i32) -> (event: MouseEvent)
        ensures
            event == (MouseEvent {
                code: HC_ACTION,
                message: WM_LBUTTONDOWN,
                position: Some(Point { x, y }),
            }),
            event.spec_is_left_button_down(),
            event.spec_is_hot_corner_hit() == (x < 3 && y < 3),
    {
        MouseEvent { code: HC_ACTION, message: WM_LBUTTONDOWN, position: Some(Point { x, y }) }
    }

    /// Tests whether the event is a press of the left button.
    #[verifier::when_used_as_spec(spec_is_left_button_down)]
    pub fn is_left_button_down(&self) -> (pressed: bool)
        ensures
            pressed == self.spec_is_left_button_down(),
    {
        self.code == HC_ACTION && self.message == WM_LBUTTONDOWN
    }

    /// Tests whether the event is a hot-corner hit. An event whose position
    /// could not be read is none.
    #[verifier::when_used_as_spec(spec_is_hot_corner_hit)]
    pub fn is_hot_corner_hit(&self) -> (hit: bool)
        ensures
            hit == self.spec_is_hot_corner_hit(),
            hit ==> self.spec_is_left_button_down(),
            hit == (self.spec_is_left_button_down() && match self.position {
                Some(point) => point.x < 3 && point.y < 3,
                None => false,
            }),
    {
        if !self.is_left_button_down() {
            return false;
        }
        match self.position {
            Some(point) => point.in_hot_corner(),
            None => false,
        }
    }
}

/// One notification of the low-level keyboard hook.
#[derive(Clone, Copy, Debug, PartialEq, Eq, Structural)]
pub struct KeyboardEvent {
    /// The hook code.
    pub code: i32,
    /// The virtual-key code of the key, if that could be read.
    pub vk_code: Option<u32>,
}

impl KeyboardEvent {
    /// Whether the event carries the virtual key `vk`, going down or up.
    pub open spec fn spec_carries_key(&self, vk: u8) -> bool {
        self.code == HC_ACTION && self.vk_code == Some(vk as u32)
    }

    /// An event of the key with virtual-key code `vk_code`.
    pub fn key(vk_code: u32) -> (event: KeyboardEvent)
        ensures
            event == (KeyboardEvent { code: HC_ACTION, vk_code: Some(vk_code) }),
            forall|vk: u8| event.spec_carries_key(vk) == (vk_code == vk),
    {
        KeyboardEvent { code: HC_ACTION, vk_code: Some(vk_code) }
    }

    /// Tests whether the event carries the virtual key `vk`.
    #[verifier::when_used_as_spec(spec_carries_key)]
    pub fn carries_key(&self, vk: u8) -> (carried: bool)
        ensures
            carried == self.spec_carries_key(vk),
    {
        if self.code != HC_ACTION {
            return false;
        }
        match self.vk_code {
            Some(code) => code == vk as u32,
            None => false,
        }
    }
}

} // verus!
