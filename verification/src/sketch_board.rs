//! The input events that the drawing surface hands to the active tool.

use vstd::prelude::*;

use crate::math::Vec2D;

verus! {

/// Key value of the Escape key.
pub const KEY_ESCAPE: u32 = 0xff1b;

/// Modifier bit that is set while a Shift key is held.
pub const SHIFT_MASK: u32 = 1;

/// A key, named by its key value.
#[derive(Clone, Copy, Debug, PartialEq, Eq, Structural)]
pub struct Key {
    pub keyval: u32,
}

impl Key {
    /// The Escape key.
    pub open spec fn spec_escape() -> Key {
        Key { keyval: KEY_ESCAPE }
    }

    /// The key with the given key value.
    pub fn new(keyval: u32) -> (key: Self)
        ensures
            key.keyval == keyval,
    {
        Key { keyval }
    }

    /// The Escape key.
    #[verifier::when_used_as_spec(spec_escape)]
    pub fn escape() -> (key: Self)
        ensures
            key == Self::spec_escape(),
    {
        Key { keyval: KEY_ESCAPE }
    }
}

/// The set of modifier keys and buttons held during an event, one bit each.
#[derive(Clone, Copy, Debug, PartialEq, Eq, Structural)]
pub struct ModifierType {
    pub bits: u32,
}

impl ModifierType {
    /// Some modifier is held in both sets.
    pub open spec fn spec_intersects(self, other: ModifierType) -> bool {
        self.bits & other.bits != 0
    }

    /// A Shift key is held.
    pub open spec fn shift_held(self) -> bool {
        self.bits & SHIFT_MASK != 0
    }

    /// The set with the given bits.
    pub fn from_bits(bits: u32) -> (modifier: Self)
        ensures
            modifier.bits == bits,
    {
        ModifierType { bits }
    }

    /// The set without any modifier.
    pub fn empty() -> (modifier: Self)
        ensures
            modifier.bits == 0,
            !modifier.shift_held(),
    {
        assert(0u32 & SHIFT_MASK == 0) by (bit_vector);
        ModifierType { bits: 0 }
    }

    /// The set that holds Shift alone.
    pub fn shift_mask() -> (modifier: Self)
        ensures
            modifier.bits == SHIFT_MASK,
            modifier.shift_held(),
    {
        assert(SHIFT_MASK & SHIFT_MASK != 0) by (bit_vector);
        ModifierType { bits: SHIFT_MASK }
    }

    /// Tests whether the two sets have a modifier in common.
    #[verifier::when_used_as_spec(spec_intersects)]
    pub fn intersects(self, other: ModifierType) -> (common: bool)
        ensures
            common == self.spec_intersects(other),
    {
        self.bits & other.bits != 0
    }
}

/// What the pointer did.
#[derive(Clone, Copy, Debug, PartialEq, Eq, Structural)]
pub enum MouseEventType {
    BeginDrag,
    EndDrag,
    UpdateDrag,
    Click,
}

/// A pointer event.
///
/// For `BeginDrag`, `pos` is the point where the button went down. For
/// `UpdateDrag` and `EndDrag` it is the displacement of the pointer from that
/// point, so a release without movement carries the zero vector.
#[derive(Clone, Copy, Debug)]
pub struct MouseEventMsg {
    pub type_: MouseEventType,
    pub modifier: ModifierType,
    pub pos: Vec2D,
    /// `pos` turned to the nearest multiple of 15 degrees at unchanged length.
    /// The surface computes it in floating point; a tool uses it in place of
    /// `pos` while Shift is held.
    pub snapped_pos: Vec2D,
}

impl MouseEventMsg {
    /// The vector that a drag tool takes as the gesture's extent: the snapped
    /// displacement while Shift is held, the displacement itself otherwise.
    pub open spec fn spec_drag_vector(&self) -> Vec2D {
        if self.modifier.shift_held() {
            self.snapped_pos
        } else {
            self.pos
        }
    }

    /// The extent of the gesture that this event reports.
    #[verifier::when_used_as_spec(spec_drag_vector)]
    pub fn drag_vector(&self) -> (v: Vec2D)
        ensures
            v == self.spec_drag_vector(),
    {
        if self.modifier.intersects(ModifierType::shift_mask()) {
            self.snapped_pos
        } else {
            self.pos
        }
    }
}

/// A key press.
#[derive(Clone, Copy, Debug)]
pub struct KeyEventMsg {
    pub key: Key,
}

} // verus!
