//! The layout that splits one machine word evenly between length and
//! capacity.

use vstd::prelude::*;
use vstd::arithmetic::div_mod::lemma_fundamental_div_mod_converse;
use vstd::arithmetic::div_mod::lemma_mod_pos_bound;
use crate::traits::Capacity;

verus! {

/// Packs length and capacity into one word: the low half holds the length,
/// the high half the capacity. A high half of zero means borrowed.
///
/// Lengths and capacities above [`half_max`] cannot be held.
#[derive(Clone, Copy, PartialEq, Eq, Debug)]
pub struct Lean;

/// A clone-on-write value whose length and capacity share a word, half by
/// half.
pub type Cow<'a, T> = crate::generic::Cow<'a, T, Lean>;

/// The largest value that half a machine word holds.
pub open spec fn half_max() -> usize {
    if usize::BITS == 64 {
        0xffff_ffff
    } else {
        0xffff
    }
}

/// The number of values that half a machine word can take.
pub open spec fn radix() -> int {
    half_max() + 1
}

/// The low half of a word.
pub open spec fn low(fat: usize) -> usize {
    (fat as int % radix()) as usize
}

/// The high half of a word.
pub open spec fn high(fat: usize) -> usize {
    (fat as int / radix()) as usize
}

/// The word with the given halves.
pub open spec fn join(high: usize, low: usize) -> usize
    recommends
        high <= half_max(),
        low <= half_max(),
{
    (high * radix() + low) as usize
}

/// Both halves of a joined word are the halves it was joined from.
pub proof fn lemma_join_halves(hi: usize, lo: usize)
    requires
        hi <= half_max(),
        lo <= half_max(),
    ensures
        hi * radix() + lo <= usize::MAX,
        high(join(hi, lo)) == hi,
        low(join(hi, lo)) == lo,
{
    assert(hi * radix() + lo <= usize::MAX) by (nonlinear_arith)
        requires
            hi <= half_max(),
            lo <= half_max(),
            radix() == half_max() + 1,
            half_max() * radix() + half_max() <= usize::MAX,
    ;
    lemma_fundamental_div_mod_converse(hi * radix() + lo, radix(), hi as int, lo as int);
}

/// The low half of a word is a word with an empty high half, and a word that
/// fits in a half is its own low half.
pub proof fn lemma_low(fat: usize)
    ensures
        low(fat) <= half_max(),
        high(low(fat)) == 0,
        fat <= half_max() ==> low(fat) == fat,
{
    lemma_mod_pos_bound(fat as int, radix());
    lemma_fundamental_div_mod_converse(low(fat) as int, radix(), 0, low(fat) as int);
    if fat <= half_max() {
        lemma_fundamental_div_mod_converse(fat as int, radix(), 0, fat as int);
    }
}

/// The mask of the low half has the value of [`half_max`].
proof fn lemma_mask(h: u32, m: usize)
    by (bit_vector)
    requires
        h == usize::BITS / 2,
        m == (!0usize) >> h,
    ensures
        m == (if usize::BITS == 64 { 0xffff_ffffusize } else { 0xffffusize }),
{
}

/// Mask and shift take a word apart into a low and a high half, of which it
/// is the sum.
proof fn lemma_split_bits(fat: usize, h: u32, m: usize, r: usize)
    by (bit_vector)
    requires
        h == usize::BITS / 2,
        m == (!0usize) >> h,
        r == (m + 1) as usize,
    ensures
        fat == (fat >> h) * r + (fat & m),
        fat >> h <= m,
        fat & m <= m,
        (fat & !m) >> h == fat >> h,
        (fat & !m == 0) <==> fat <= m,
        (fat & !m == 0) <==> fat >> h == 0,
{
}

/// Shifting a capacity into the high half and a length into the low half
/// adds the two up.
proof fn lemma_join_bits(len: usize, capacity: usize, h: u32, m: usize, r: usize)
    by (bit_vector)
    requires
        h == usize::BITS / 2,
        m == (!0usize) >> h,
        r == (m + 1) as usize,
        capacity <= m,
    ensures
        ((capacity & m) << h) | (len & m) == capacity * r + (len & m),
{
}

/// What masks and shifts compute from a word are its two halves.
proof fn lemma_split(fat: usize, h: u32, m: usize)
    requires
        h == usize::BITS / 2,
        m == half_max(),
        m == (!0usize) >> h,
    ensures
        fat & m == low(fat),
        fat >> h == high(fat),
        (fat & !m) >> h == high(fat),
        (fat & !m == 0) <==> fat <= half_max(),
        (fat & !m == 0) <==> high(fat) == 0,
{
    let r = radix() as usize;
    lemma_split_bits(fat, h, m, r);
    lemma_fundamental_div_mod_converse(fat as int, radix(), (fat >> h) as int, (fat & m) as int);
}

/// The number of bits in half a word.
fn half() -> (h: u32)
    ensures
        h == usize::BITS / 2,
{
    usize::BITS / 2
}

/// The mask of the low half of a word.
fn mask_lo() -> (m: usize)
    ensures
        m == half_max(),
        m == (!0usize) >> ((usize::BITS / 2) as u32),
{
    let m: usize = usize::MAX >> half();
    proof {
        assert(0xffff_ffffu32 == !0u32) by (bit_vector);
        assert(0xffff_ffff_ffff_ffffu64 == !0u64) by (bit_vector);
        lemma_mask((usize::BITS / 2) as u32, m);
    }
    m
}

impl Lean {
    /// The length as the low half of a word holds it.
    pub fn mask_len(len: usize) -> (r: usize)
        ensures
            r == low(len),
    {
        let m: usize = mask_lo();
        proof {
            lemma_split(len, (usize::BITS / 2) as u32, m);
        }
        len & m
    }
}

impl Capacity for Lean {
    type Field = Lean;

    type NonZero = Lean;

    open spec fn limit() -> usize {
        half_max()
    }

    open spec fn spec_len(fat: usize) -> usize {
        low(fat)
    }

    open spec fn spec_empty(len: usize) -> (usize, Lean) {
        (low(len), Lean)
    }

    open spec fn spec_store(len: usize, capacity: usize) -> (usize, Lean) {
        (join(capacity, low(len)), Lean)
    }

    open spec fn spec_unpack(fat: usize, capacity: Lean) -> (usize, usize) {
        (low(fat), high(fat))
    }

    open spec fn spec_maybe(fat: usize, capacity: Lean) -> Option<Lean> {
        if high(fat) != 0 {
            Some(Lean)
        } else {
            None
        }
    }

    proof fn lemma_empty(len: usize) {
        lemma_low(len);
        lemma_low(low(len));
    }

    proof fn lemma_round_trip(len: usize, capacity: usize) {
        lemma_low(len);
        lemma_join_halves(capacity, low(len));
    }

    proof fn lemma_unpack(fat: usize, capacity: Lean) {
    }

    fn fits(capacity: usize) -> (r: bool) {
        let m: usize = mask_lo();
        proof {
            lemma_split(capacity, (usize::BITS / 2) as u32, m);
        }
        capacity & !m == 0
    }

    fn len(fat: usize) -> (r: usize) {
        Lean::mask_len(fat)
    }

    fn empty(len: usize) -> (r: (usize, Lean)) {
        (Lean::mask_len(len), Lean)
    }

    fn store(len: usize, capacity: usize) -> (r: (usize, Lean)) {
        let h: u32 = half();
        let m: usize = mask_lo();
        let fat: usize = ((capacity & m) << h) | (len & m);
        proof {
            lemma_split(len, h, m);
            lemma_low(len);
            lemma_join_bits(len, capacity, h, m, radix() as usize);
            lemma_join_halves(capacity, low(len));
        }
        (fat, Lean)
    }

    fn unpack(fat: usize, capacity: Lean) -> (r: (usize, usize)) {
        let h: u32 = half();
        let m: usize = mask_lo();
        proof {
            lemma_split(fat, h, m);
        }
        (fat & m, (fat & !m) >> h)
    }

    fn maybe(fat: usize, capacity: Lean) -> (r: Option<Lean>) {
        let m: usize = mask_lo();
        proof {
            lemma_split(fat, (usize::BITS / 2) as u32, m);
        }
        if fat & !m != 0 {
            Some(Lean)
        } else {
            None
        }
    }
}

} // verus!
