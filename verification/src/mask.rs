//! The event mask handed to the OS at registration: one bit per event type
//! of interest, built once at startup, decodable back into exactly the set
//! of types it was built from.

use vstd::prelude::*;
use crate::event::EventType;

verus! {

/// The bit position that stands for each event type in an interception mask.
pub open spec fn type_bit(ty: EventType) -> u64 {
    match ty {
        EventType::PointerMoved => 5,
        EventType::PrimaryButtonDown => 1,
        EventType::PrimaryButtonUp => 2,
        EventType::SecondaryButtonDown => 25,
        EventType::SecondaryButtonUp => 26,
        EventType::ScrollWheel => 22,
    }
}

/// Whether a mask admits the given event type.
pub open spec fn mask_has(mask: u64, ty: EventType) -> bool {
    (mask >> type_bit(ty)) & 1 == 1
}

/// The event types the interceptor registers for: scroll and both
/// secondary-button events.
pub open spec fn configured(ty: EventType) -> bool {
    ||| ty == EventType::ScrollWheel
    ||| ty == EventType::SecondaryButtonDown
    ||| ty == EventType::SecondaryButtonUp
}

proof fn lemma_type_bit_bound(ty: EventType)
    ensures
        type_bit(ty) < 64,
{
}

proof fn lemma_type_bit_injective(a: EventType, b: EventType)
    ensures
        type_bit(a) == type_bit(b) ==> a == b,
{
}

proof fn lemma_empty_mask_bit(t: u64)
    by (bit_vector)
    requires
        t < 64,
    ensures
        (0u64 >> t) & 1 != 1,
{
}

proof fn lemma_or_bit(m: u64, b: u64, t: u64)
    by (bit_vector)
    requires
        b < 64,
        t < 64,
    ensures
        t == b ==> ((m | (1u64 << b)) >> t) & 1 == 1,
        t != b ==> ((m | (1u64 << b)) >> t) & 1 == (m >> t) & 1,
{
}

/// The bit position for an event type.
pub fn event_type_bit(ty: EventType) -> (r: u64)
    ensures
        r == type_bit(ty),
        r < 64,
{
    match ty {
        EventType::PointerMoved => 5,
        EventType::PrimaryButtonDown => 1,
        EventType::PrimaryButtonUp => 2,
        EventType::SecondaryButtonDown => 25,
        EventType::SecondaryButtonUp => 26,
        EventType::ScrollWheel => 22,
    }
}

/// Build the interception mask for a list of event types by OR-ing their
/// bits together. The mask decodes back into exactly the listed types.
pub fn event_mask(types: &Vec<EventType>) -> (r: u64)
    ensures
        forall|ty: EventType| #[trigger] mask_has(r, ty) <==> types@.contains(ty),
{
    let mut mask: u64 = 0;
    let mut i: usize = 0;
    proof {
        assert forall|ty: EventType| !mask_has(0u64, ty) by {
            lemma_type_bit_bound(ty);
            lemma_empty_mask_bit(type_bit(ty));
        }
    }
    while i < types.len()
        invariant
            i <= types@.len(),
            forall|ty: EventType| #[trigger] mask_has(mask, ty) <==> types@.take(i as int).contains(
                ty,
            ),
        decreases types@.len() - i,
    {
        let b = event_type_bit(types[i]);
        let ghost prev = mask;
        mask = mask | (1u64 << b);
        proof {
            assert forall|ty: EventType| #[trigger] mask_has(mask, ty) <==> types@.take(
                i + 1 as int,
            ).contains(ty) by {
                lemma_type_bit_bound(ty);
                lemma_or_bit(prev, b, type_bit(ty));
                lemma_type_bit_injective(ty, types@[i as int]);
                if mask_has(mask, ty) {
                    if type_bit(ty) == b {
                        assert(ty == types@[i as int]);
                        assert(types@.take(i + 1 as int)[i as int] == ty);
                    } else {
                        assert(mask_has(prev, ty));
                        let j = choose|j: int|
                            0 <= j < i && #[trigger] types@.take(i as int)[j] == ty;
                        assert(types@.take(i + 1 as int)[j] == ty);
                    }
                }
                if types@.take(i + 1 as int).contains(ty) {
                    let j = choose|j: int|
                        0 <= j < i + 1 && #[trigger] types@.take(i + 1 as int)[j] == ty;
                    if j < i {
                        assert(types@.take(i as int)[j] == ty);
                        assert(mask_has(prev, ty));
                    } else {
                        assert(ty == types@[i as int]);
                    }
                    assert(mask_has(mask, ty));
                }
            }
        }
        i += 1;
    }
    proof {
        assert(types@.take(types@.len() as int) =~= types@);
    }
    mask
}

/// Whether a mask admits the given event type, decoded the way the OS
/// reads it: by testing the type's bit.
pub fn mask_contains(mask: u64, ty: EventType) -> (r: bool)
    ensures
        r == mask_has(mask, ty),
{
    let b = event_type_bit(ty);
    ((mask >> b) & 1) == 1
}

/// The mask requested at startup. Decoded back into individual event-type
/// flags it holds exactly the configured set: scroll, secondary-button-down
/// and secondary-button-up, and no others.
pub fn interception_mask() -> (r: u64)
    ensures
        forall|ty: EventType| #[trigger] mask_has(r, ty) <==> configured(ty),
{
    let mut types: Vec<EventType> = Vec::new();
    types.push(EventType::ScrollWheel);
    types.push(EventType::SecondaryButtonDown);
    types.push(EventType::SecondaryButtonUp);
    let r = event_mask(&types);
    proof {
        assert forall|ty: EventType| types@.contains(ty) <==> configured(ty) by {
            if configured(ty) {
                if ty == EventType::ScrollWheel {
                    assert(types@[0] == ty);
                } else if ty == EventType::SecondaryButtonDown {
                    assert(types@[1] == ty);
                } else {
                    assert(types@[2] == ty);
                }
            }
            if types@.contains(ty) {
                let j = choose|j: int| 0 <= j < types@.len() && #[trigger] types@[j] == ty;
                assert(j == 0 || j == 1 || j == 2);
            }
        }
    }
    r
}

} // verus!
