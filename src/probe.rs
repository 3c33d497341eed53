//! Decoding of the two capability bitmaps of a probe: event types from the
//! type bitmap, buttons from the key bitmap.
use vstd::prelude::*;
use crate::bits::{bit_set, set_bits};
use crate::event::{event_code_value, type_code, type_of_code, EventCode, EventType};

verus! {

broadcast use vstd::seq_lib::lemma_seq_contains_after_push;

/// Number of event-type bits the type bitmap holds.
pub const TYPE_BITS: usize = 32;


/// Number of key codes the key bitmap holds.
pub const KEY_BITS: usize = 0x300;

/// The event types decoded from a type bitmap, with the set indices that
/// name no known type.
pub struct TypeDecoding {
    pub types: Vec<EventType>,
    pub unmapped: Vec<usize>,
}

/// Decodes the event-type bitmap `bits` over the indices `[0, 32)`. Synchro is
/// always present; every other type is present exactly when its bit is set.
/// Set bits with no known type are listed in `unmapped`.
pub fn decode_event_types(bits: u64) -> (r: TypeDecoding)
    ensures
        r.types@.len() >= 1,
        r.types@[0] == EventType::Synchro,
        r.types@.no_duplicates(),
        forall|t: EventType| #[trigger] r.types@.contains(t) <==>
            (t == EventType::Synchro || bit_set(seq![bits], type_code(t) as int)),
        forall|i: usize| #[trigger] r.unmapped@.contains(i) <==>
            (i < 32 && bit_set(seq![bits], i as int) && type_of_code(i as int) is None),
{
    let words: Vec<u64> = vec![bits];
    assert(words@ == seq![bits]);
    let idx = set_bits(&words, 0, TYPE_BITS);
    let mut types: Vec<EventType> = vec![EventType::Synchro];
    let mut unmapped: Vec<usize> = Vec::new();
    let mut k: usize = 0;
    while k < idx.len()
        invariant
            k <= idx@.len(),
            words@ == seq![bits],
            forall|i: usize| idx@.contains(i) <==> (0 <= i < 32 && bit_set(words@, i as int)),
            forall|j: int, l: int| 0 <= j < l < idx@.len() ==> idx@[j] < idx@[l],
            types@.len() >= 1,
            types@[0] == EventType::Synchro,
            types@.no_duplicates(),
            forall|t: EventType| #[trigger] types@.contains(t) <==>
                (t == EventType::Synchro || idx@.subrange(0, k as int).contains(type_code(t) as usize)),
            forall|i: usize| #[trigger] unmapped@.contains(i) <==>
                (idx@.subrange(0, k as int).contains(i) && type_of_code(i as int) is None),
        decreases idx@.len() - k,
    {
        let i = idx[k];
        assert(idx@.contains(i)) by {
            assert(idx@[k as int] == i);
        }
        let ghost done = idx@.subrange(0, k as int);
        let ghost next = idx@.subrange(0, k as int + 1);
        assert(next =~= done.push(i));
        assert(!done.contains(i)) by {
            if done.contains(i) {
                let m = choose|m: int| 0 <= m < done.len() && #[trigger] done[m] == i;
                assert(idx@[m] < idx@[k as int]);
            }
        }
        let ghost types_before = types@;
        let ghost unmapped_before = unmapped@;
        match EventType::new(i as u8) {
            Some(t) => {
                if i != 0 {
                    proof {
                        crate::event::lemma_type_code_inverse(t, i as int);
                        if types_before.contains(t) {
                            assert(done.contains(type_code(t) as usize));
                        }
                    }
                    types.push(t);
                }
            },
            None => {
                unmapped.push(i);
            },
        }
        proof {
            assert forall|u: EventType| #[trigger] types@.contains(u) <==>
                (u == EventType::Synchro || next.contains(type_code(u) as usize)) by {
                crate::event::lemma_type_code_inverse(u, i as int);
                assert(types_before.contains(u) <==>
                    (u == EventType::Synchro || done.contains(type_code(u) as usize)));
            }
            assert forall|x: usize| #[trigger] unmapped@.contains(x) <==>
                (next.contains(x) && type_of_code(x as int) is None) by {
                assert(unmapped_before.contains(x) <==>
                    (done.contains(x) && type_of_code(x as int) is None));
            }
        }
        k = k + 1;
    }
    assert(idx@.subrange(0, k as int) =~= idx@);
    proof {
        assert forall|t: EventType| #[trigger] types@.contains(t) <==>
            (t == EventType::Synchro || bit_set(seq![bits], type_code(t) as int)) by {
            assert(idx@.contains(type_code(t) as usize) <==> bit_set(words@, type_code(t) as int));
        }
    }
    TypeDecoding { types, unmapped }
}

/// Decodes the key bitmap `words` over the indices `[0, 0x300)`: a button is
/// present exactly when the bit of its code is set. Set bits that name no
/// modelled button are dropped.
pub fn decode_key_codes(words: &Vec<u64>) -> (r: Vec<EventCode>)
    requires
        words@.len() == 12,
    ensures
        r@.no_duplicates(),
        forall|c: EventCode| #[trigger] r@.contains(c) <==>
            bit_set(words@, event_code_value(c) as int),
{
    let idx = set_bits(words, 0, KEY_BITS);
    let mut codes: Vec<EventCode> = Vec::new();
    let mut k: usize = 0;
    while k < idx.len()
        invariant
            k <= idx@.len(),
            forall|i: usize| idx@.contains(i) <==> (0 <= i < 0x300 && bit_set(words@, i as int)),
            forall|j: int, l: int| 0 <= j < l < idx@.len() ==> idx@[j] < idx@[l],
            codes@.no_duplicates(),
            forall|c: EventCode| #[trigger] codes@.contains(c) <==>
                idx@.subrange(0, k as int).contains(event_code_value(c) as usize),
        decreases idx@.len() - k,
    {
        let i = idx[k];
        assert(idx@.contains(i)) by {
            assert(idx@[k as int] == i);
        }
        let ghost done = idx@.subrange(0, k as int);
        let ghost next = idx@.subrange(0, k as int + 1);
        assert(next =~= done.push(i));
        assert(!done.contains(i)) by {
            if done.contains(i) {
                let m = choose|m: int| 0 <= m < done.len() && #[trigger] done[m] == i;
                assert(idx@[m] < idx@[k as int]);
            }
        }
        let ghost before = codes@;
        match EventCode::new(EventType::Key, i) {
            Some(c) => {
                proof {
                    crate::event::lemma_event_code_inverse(c, i as int);
                    if before.contains(c) {
                        assert(done.contains(event_code_value(c) as usize));
                    }
                }
                codes.push(c);
            },
            None => {},
        }
        proof {
            assert forall|c: EventCode| #[trigger] codes@.contains(c) <==>
                next.contains(event_code_value(c) as usize) by {
                crate::event::lemma_event_code_inverse(c, i as int);
                assert(before.contains(c) <==> done.contains(event_code_value(c) as usize));
            }
        }
        k = k + 1;
    }
    assert(idx@.subrange(0, k as int) =~= idx@);
    proof {
        assert forall|c: EventCode| #[trigger] codes@.contains(c) <==>
            bit_set(words@, event_code_value(c) as int) by {
            assert(idx@.contains(event_code_value(c) as usize) <==>
                bit_set(words@, event_code_value(c) as int));
        }
    }
    codes
}

/// Whether the decoded event types call for the key bitmap.
pub fn needs_key_codes(types: &Vec<EventType>) -> (r: bool)
    ensures
        r == types@.contains(EventType::Key),
{
    let mut k: usize = 0;
    while k < types.len()
        invariant
            k <= types@.len(),
            forall|j: int| 0 <= j < k ==> types@[j] != EventType::Key,
        decreases types@.len() - k,
    {
        if types[k] == EventType::Key {
            assert(types@[k as int] == EventType::Key);
            return true;
        }
        k = k + 1;
    }
    false
}

} // verus!
