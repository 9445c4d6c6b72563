//! Selection of the visible hit among intersection distances.
//!
//! A distance is handed over as the bit pattern of an IEEE-754 binary64
//! value (`f64::to_bits`). Within each sign, binary64 magnitudes are ordered
//! as their bit patterns are, so a non-NaN value orders as its signed
//! magnitude ([`ordinal`]); both zeros get ordinal 0.

use vstd::prelude::*;

verus! {

/// The sign bit of a binary64 pattern.
pub open spec fn sign_set(bits: u64) -> bool {
    bits >= 0x8000_0000_0000_0000
}

/// The pattern without its sign bit: exponent and fraction.
pub open spec fn magnitude(bits: u64) -> int {
    (bits as int) % 0x8000_0000_0000_0000
}

/// The pattern encodes a NaN: all exponent bits set and a nonzero fraction.
pub open spec fn is_nan(bits: u64) -> bool {
    magnitude(bits) > 0x7FF0_0000_0000_0000
}

/// The signed magnitude of a pattern: two non-NaN values `a`, `b` satisfy
/// `a < b` exactly when `ordinal(a) < ordinal(b)`, and `a >= 0` exactly when
/// `ordinal(a) >= 0`.
pub open spec fn ordinal(bits: u64) -> int {
    if sign_set(bits) {
        -magnitude(bits)
    } else {
        magnitude(bits)
    }
}

/// A distance that may be selected: a number, not below zero.
pub open spec fn in_front(bits: u64) -> bool {
    !is_nan(bits) && ordinal(bits) >= 0
}

/// `k` is the hit of `ts`: in front, no other distance in front is nearer,
/// and every earlier one in front is farther.
pub open spec fn is_hit(ts: Seq<u64>, k: int) -> bool {
    &&& 0 <= k < ts.len()
    &&& in_front(ts[k])
    &&& forall|j: int| 0 <= j < ts.len() && in_front(ts[j]) ==> ordinal(ts[k]) <= #[trigger] ordinal(ts[j])
    &&& forall|j: int| 0 <= j < k && in_front(ts[j]) ==> ordinal(ts[k]) < #[trigger] ordinal(ts[j])
}

fn ordinal_of(bits: u64) -> (r: i64)
    ensures
        r == ordinal(bits),
{
    let m = (bits % 0x8000_0000_0000_0000) as i64;
    if bits >= 0x8000_0000_0000_0000 {
        -m
    } else {
        m
    }
}

/// The index of the hit among the distances `ts`: the first of the nearest
/// distances that are not negative. NaN and negative distances are never
/// selected; `None` when no distance is left.
pub fn hit(ts: &Vec<u64>) -> (r: Option<usize>)
    ensures
        r matches Some(k) ==> is_hit(ts@, k as int),
        r is None <==> forall|j: int| 0 <= j < ts@.len() ==> !#[trigger] in_front(ts@[j]),
{
    let mut best: Option<usize> = None;
    let mut best_ord: i64 = 0;
    let mut i: usize = 0;
    while i < ts.len()
        invariant
            i <= ts@.len(),
            best matches Some(k) ==> is_hit(ts@.take(i as int), k as int) && best_ord == ordinal(
                ts@[k as int],
            ),
            best is None <==> forall|j: int| 0 <= j < i ==> !#[trigger] in_front(ts@[j]),
        decreases ts@.len() - i,
    {
        let t = ts[i];
        let o = ordinal_of(t);
        let nan = t % 0x8000_0000_0000_0000 > 0x7FF0_0000_0000_0000;
        if !nan && o >= 0 {
            match best {
                None => {
                    best = Some(i);
                    best_ord = o;
                },
                Some(_) => {
                    if o < best_ord {
                        best = Some(i);
                        best_ord = o;
                    }
                },
            }
        }
        assert(ts@.take(i + 1 as int) =~= ts@.take(i as int).push(t));
        proof {
            if let Some(k) = best {
                assert(ts@.take(i + 1 as int)[k as int] == ts@[k as int]);
                assert(in_front(ts@[k as int]));
            }
        }
        i = i + 1;
    }
    assert(ts@.take(i as int) =~= ts@);
    best
}

/// The hit does not depend on the order of the distances: two sequences
/// holding the same distances, each as often, have hits at the same
/// distance, or no hit at all.
pub proof fn lemma_hit_ignores_order(ts: Seq<u64>, us: Seq<u64>, k: int, m: int)
    requires
        ts.to_multiset() == us.to_multiset(),
        is_hit(ts, k),
        is_hit(us, m),
    ensures
        ordinal(ts[k]) == ordinal(us[m]),
{
    ts.to_multiset_ensures();
    us.to_multiset_ensures();
    assert(ts.contains(ts[k]));
    assert(ts.to_multiset().count(ts[k]) > 0);
    assert(us.contains(ts[k]));
    let j = choose|j: int| 0 <= j < us.len() && us[j] == ts[k];
    assert(ordinal(us[m]) <= ordinal(us[j]));
    assert(us.contains(us[m]));
    assert(us.to_multiset().count(us[m]) > 0);
    assert(ts.contains(us[m]));
    let i = choose|i: int| 0 <= i < ts.len() && ts[i] == us[m];
    assert(ordinal(ts[k]) <= ordinal(ts[i]));
}

/// Whether a hit exists does not depend on the order of the distances.
pub proof fn lemma_no_hit_ignores_order(ts: Seq<u64>, us: Seq<u64>)
    requires
        ts.to_multiset() == us.to_multiset(),
        forall|j: int| 0 <= j < ts.len() ==> !#[trigger] in_front(ts[j]),
    ensures
        forall|j: int| 0 <= j < us.len() ==> !#[trigger] in_front(us[j]),
{
    ts.to_multiset_ensures();
    us.to_multiset_ensures();
    assert forall|j: int| 0 <= j < us.len() implies !#[trigger] in_front(us[j]) by {
        assert(us.contains(us[j]));
        assert(us.to_multiset().count(us[j]) > 0);
        assert(ts.contains(us[j]));
        let i = choose|i: int| 0 <= i < ts.len() && ts[i] == us[j];
        assert(!in_front(ts[i]));
    }
}

} // verus!
