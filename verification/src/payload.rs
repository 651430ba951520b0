//! The closed universe of inter-pass payload types.
//!
//! Slots of pass-chosen types must live in one homogeneous array, so every
//! payload is stored as a `SlotValue`. The `SlotPayload` trait plays the
//! role a run-time downcast would play for type-erased storage: each
//! payload type names the tag of the slots that may hold it, says how its
//! values are stored, and recovers a payload from a stored value only when
//! the stored value is of its own shape.

use vstd::prelude::*;

verus! {

/// Slot tag of `u32` payloads.
pub const TAG_U32: u8 = 0;

/// Slot tag of `u64` payloads.
pub const TAG_U64: u8 = 1;

/// Slot tag of `String` payloads.
pub const TAG_TEXT: u8 = 2;

/// One stored inter-pass payload.
pub enum SlotValue {
    U32(u32),
    U64(u64),
    Text(String),
}

/// A type that can be exchanged between passes through the slot store.
///
/// `wrap_spec` is the stored form of a payload; it must be injective, so
/// that reading a slot back observes exactly the payload that was stored
/// (`lemma_wrap_injective`). `unwrap_value` recovers a payload from a
/// stored value exactly when one maps to it, which is the run-time type
/// check that type-erased storage needs.
pub trait SlotPayload: Sized {
    /// Tag of the slots that hold this payload type.
    spec fn tag_spec() -> u8;

    /// The stored form of this payload.
    spec fn wrap_spec(self) -> SlotValue;

    /// Two payloads with the same stored form are the same payload.
    proof fn lemma_wrap_injective(self, other: Self)
        requires
            self.wrap_spec() == other.wrap_spec(),
        ensures
            self == other,
    ;

    /// Tag of the slots that hold this payload type.
    fn tag() -> (t: u8)
        ensures
            t == Self::tag_spec(),
    ;

    /// Stores this payload.
    fn wrap(self) -> (w: SlotValue)
        ensures
            w == self.wrap_spec(),
    ;

    /// Recovers a payload from a stored value, exactly when the stored
    /// value is one of this type's stored forms.
    fn unwrap_value(w: &SlotValue) -> (r: Option<Self>)
        ensures
            (r matches Some(x) ==> *w == x.wrap_spec()),
            (r is None ==> forall|x: Self| *w != x.wrap_spec()),
    ;
}

impl SlotPayload for u32 {
    open spec fn tag_spec() -> u8 {
        TAG_U32
    }

    open spec fn wrap_spec(self) -> SlotValue {
        SlotValue::U32(self)
    }

    proof fn lemma_wrap_injective(self, other: Self) {
    }

    fn tag() -> u8 {
        TAG_U32
    }

    fn wrap(self) -> SlotValue {
        SlotValue::U32(self)
    }

    fn unwrap_value(w: &SlotValue) -> Option<Self> {
        match w {
            SlotValue::U32(x) => Some(*x),
            _ => None,
        }
    }
}

impl SlotPayload for u64 {
    open spec fn tag_spec() -> u8 {
        TAG_U64
    }

    open spec fn wrap_spec(self) -> SlotValue {
        SlotValue::U64(self)
    }

    proof fn lemma_wrap_injective(self, other: Self) {
    }

    fn tag() -> u8 {
        TAG_U64
    }

    fn wrap(self) -> SlotValue {
        SlotValue::U64(self)
    }

    fn unwrap_value(w: &SlotValue) -> Option<Self> {
        match w {
            SlotValue::U64(x) => Some(*x),
            _ => None,
        }
    }
}

impl SlotPayload for String {
    open spec fn tag_spec() -> u8 {
        TAG_TEXT
    }

    open spec fn wrap_spec(self) -> SlotValue {
        SlotValue::Text(self)
    }

    proof fn lemma_wrap_injective(self, other: Self) {
    }

    fn tag() -> u8 {
        TAG_TEXT
    }

    fn wrap(self) -> SlotValue {
        SlotValue::Text(self)
    }

    fn unwrap_value(w: &SlotValue) -> Option<Self> {
        match w {
            SlotValue::Text(s) => Some(s.clone()),
            _ => None,
        }
    }
}

} // verus!
