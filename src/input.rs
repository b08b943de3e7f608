//! Input decisions: which camera rotation an arrow key asks for, and the
//! drag tracker that turns cursor motion into rotation requests.
use vstd::prelude::*;

verus! {

/// Rotation step of one arrow-key press, 0.1 rad.
pub const KEY_STEP: u32 = 0x3dcc_cccd;

/// The negated key step, -0.1 rad.
pub const NEG_KEY_STEP: u32 = 0xbdcc_cccd;

/// Pixels of cursor motion per radian of rotation, 200 (double precision).
pub const DRAG_DIVISOR: u64 = 0x4069_0000_0000_0000;

/// The arrow keys that rotate the camera.
#[derive(Clone, Copy, Debug, PartialEq, Eq, Structural)]
pub enum ArrowKey {
    Left,
    Right,
    Up,
    Down,
}

/// The (pitch, yaw) delta of a key: left and right turn the yaw down and
/// up, up and down turn the pitch up and down, by one key step.
pub open spec fn key_delta_spec(key: ArrowKey) -> (u32, u32) {
    match key {
        ArrowKey::Left => (0, NEG_KEY_STEP),
        ArrowKey::Right => (0, KEY_STEP),
        ArrowKey::Up => (KEY_STEP, 0),
        ArrowKey::Down => (NEG_KEY_STEP, 0),
    }
}

/// The (pitch, yaw) rotation delta asked for by `key`.
pub fn key_delta(key: ArrowKey) -> (r: (u32, u32))
    ensures
        r == key_delta_spec(key),
{
    match key {
        ArrowKey::Left => (0, NEG_KEY_STEP),
        ArrowKey::Right => (0, KEY_STEP),
        ArrowKey::Up => (KEY_STEP, 0),
        ArrowKey::Down => (NEG_KEY_STEP, 0),
    }
}

/// Mouse-drag state: whether the button is held and the last cursor
/// position seen while it was (double-precision bit patterns).
#[derive(Clone, Copy, Debug, PartialEq)]
pub struct DragState {
    pub pressed: bool,
    pub previous: Option<(u64, u64)>,
}

impl DragState {
    /// Button released, no position seen.
    pub fn new() -> (r: DragState)
        ensures
            r == (DragState { pressed: false, previous: None }),
    {
        DragState { pressed: false, previous: None }
    }

    /// A press or release of the button starts a new drag: the last
    /// position is forgotten.
    pub fn button(&mut self, pressed: bool)
        ensures
            *final(self) == (DragState { pressed, previous: None }),
    {
        self.pressed = pressed;
        self.previous = None;
    }

    /// The cursor moved to `pos`. While the button is held, returns the
    /// position it moved from, if one was seen since the button went down
    /// (the caller then rotates by the motion), and remembers `pos`. With
    /// the button up nothing changes.
    pub fn cursor_moved(&mut self, pos: (u64, u64)) -> (r: Option<(u64, u64)>)
        ensures
            old(self).pressed ==> r == old(self).previous && *final(self) == (DragState {
                pressed: true,
                previous: Some(pos),
            }),
            !old(self).pressed ==> r is None && *final(self) == *old(self),
    {
        if self.pressed {
            let r = self.previous;
            self.previous = Some(pos);
            r
        } else {
            None
        }
    }
}

} // verus!
