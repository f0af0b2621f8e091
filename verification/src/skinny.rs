//! The layout that gives length and capacity 32 bits each of one word,
//! whatever the width of a machine word.

use vstd::prelude::*;
use vstd::arithmetic::div_mod::lemma_fundamental_div_mod_converse;
use vstd::arithmetic::div_mod::lemma_mod_pos_bound;
use crate::traits::Capacity;

verus! {

/// Packs length and capacity into one word: the low 32 bits hold the length,
/// the bits above them the capacity. No bits set above the low 32 means
/// borrowed.
///
/// A word of 64 bits holds capacities below 2^32. A word of 32 bits has no
/// room above the length, and holds no capacity but zero; the limit of the
/// layout is that of the capacity.
#[derive(Clone, Copy, PartialEq, Eq, Debug)]
pub struct Cursed;

/// A clone-on-write value whose length and capacity share a word, 32 bits
/// each.
pub type Cow<'a, T> = crate::generic::Cow<'a, T, Cursed>;

/// The largest value that 32 bits hold.
pub const LOW_MAX: usize = 0xffff_ffff;

/// The number of values that 32 bits can take.
pub open spec fn radix() -> int {
    0x1_0000_0000
}

/// The largest capacity for which a word has room above its low 32 bits.
pub open spec fn high_max() -> usize {
    if usize::BITS == 64 {
        0xffff_ffff
    } else {
        0
    }
}

/// The low 32 bits of a word.
pub open spec fn low(fat: usize) -> usize {
    (fat as int % radix()) as usize
}

/// What a word holds above its low 32 bits.
pub open spec fn high(fat: usize) -> usize {
    (fat as int / radix()) as usize
}

/// The word with the given parts.
pub open spec fn join(high: usize, low: usize) -> usize
    recommends
        high <= high_max(),
        low <= LOW_MAX,
{
    (high * radix() + low) as usize
}

/// Both parts of a joined word are the parts it was joined from.
pub proof fn lemma_join_parts(hi: usize, lo: usize)
    requires
        hi <= high_max(),
        lo <= LOW_MAX,
    ensures
        hi * radix() + lo <= usize::MAX,
        high(join(hi, lo)) == hi,
        low(join(hi, lo)) == lo,
{
    lemma_fundamental_div_mod_converse(hi * radix() + lo, radix(), hi as int, lo as int);
}

/// The low 32 bits of a word are a word with nothing above them, and a word
/// of no more than 32 bits is its own low part.
pub proof fn lemma_low(fat: usize)
    ensures
        low(fat) <= LOW_MAX,
        high(low(fat)) == 0,
        fat <= LOW_MAX ==> low(fat) == fat,
{
    lemma_mod_pos_bound(fat as int, radix());
    lemma_fundamental_div_mod_converse(low(fat) as int, radix(), 0, low(fat) as int);
    if fat <= LOW_MAX {
        lemma_fundamental_div_mod_converse(fat as int, radix(), 0, fat as int);
    }
}

/// Mask and shift take a word apart into its low 32 bits and what is above
/// them, of which it is the sum.
proof fn lemma_split_bits(fat: usize)
    by (bit_vector)
    ensures
        fat == ((fat >> 16) >> 16) * 0x1_0000_0000 + (fat & 0xffff_ffff),
        fat & 0xffff_ffff <= 0xffff_ffff,
        ((fat & !0xffff_ffffusize) >> 16) >> 16 == (fat >> 16) >> 16,
        (fat & !0xffff_ffffusize == 0) <==> (fat >> 16) >> 16 == 0,
{
}

/// What is left of a word of ones after a shift by 32 bits has the value of
/// [`high_max`].
proof fn lemma_top_bits(top: usize)
    by (bit_vector)
    requires
        top == ((!0usize) >> 16) >> 16,
    ensures
        top == (if usize::BITS == 64 { 0xffff_ffffusize } else { 0usize }),
{
}

/// Shifting a capacity above the low 32 bits and masking a length into them
/// adds the two up.
proof fn lemma_join_bits(len: usize, capacity: usize)
    by (bit_vector)
    requires
        capacity <= (if usize::BITS == 64 { 0xffff_ffffusize } else { 0usize }),
    ensures
        ((capacity << 16) << 16) | (len & 0xffff_ffff) == capacity * 0x1_0000_0000 + (len
            & 0xffff_ffff),
{
}

/// What masks and shifts compute from a word are its two parts.
proof fn lemma_split(fat: usize)
    ensures
        fat & LOW_MAX == low(fat),
        ((fat & !LOW_MAX) >> 16) >> 16 == high(fat),
        (fat & !LOW_MAX == 0) <==> high(fat) == 0,
{
    lemma_split_bits(fat);
    lemma_fundamental_div_mod_converse(
        fat as int,
        radix(),
        ((fat >> 16) >> 16) as int,
        (fat & LOW_MAX) as int,
    );
}

/// The largest capacity that the word holds. The shift by 32 bits is made in
/// two steps, each of which a word of 32 bits allows too.
fn mask_top() -> (top: usize)
    ensures
        top == high_max(),
        top == ((!0usize) >> 16) >> 16,
{
    let top: usize = (usize::MAX >> 16) >> 16;
    proof {
        assert(0xffff_ffffu32 == !0u32) by (bit_vector);
        assert(0xffff_ffff_ffff_ffffu64 == !0u64) by (bit_vector);
        lemma_top_bits(top);
    }
    top
}

impl Capacity for Cursed {
    type Field = Cursed;

    type NonZero = Cursed;

    open spec fn limit() -> usize {
        high_max()
    }

    open spec fn spec_len(fat: usize) -> usize {
        low(fat)
    }

    open spec fn spec_empty(len: usize) -> (usize, Cursed) {
        (low(len), Cursed)
    }

    open spec fn spec_store(len: usize, capacity: usize) -> (usize, Cursed) {
        (join(capacity, low(len)), Cursed)
    }

    open spec fn spec_unpack(fat: usize, capacity: Cursed) -> (usize, usize) {
        (low(fat), high(fat))
    }

    open spec fn spec_maybe(fat: usize, capacity: Cursed) -> Option<Cursed> {
        if high(fat) != 0 {
            Some(Cursed)
        } else {
            None
        }
    }

    proof fn lemma_empty(len: usize) {
        lemma_low(len);
        lemma_low(low(len));
    }

    proof fn lemma_round_trip(len: usize, capacity: usize) {
        lemma_low(len);
        lemma_join_parts(capacity, low(len));
    }

    proof fn lemma_unpack(fat: usize, capacity: Cursed) {
    }

    fn fits(capacity: usize) -> (r: bool) {
        capacity <= mask_top()
    }

    fn len(fat: usize) -> (r: usize) {
        proof {
            lemma_split(fat);
        }
        fat & LOW_MAX
    }

    fn empty(len: usize) -> (r: (usize, Cursed)) {
        proof {
            lemma_split(len);
        }
        (len & LOW_MAX, Cursed)
    }

    fn store(len: usize, capacity: usize) -> (r: (usize, Cursed)) {
        let fat: usize = ((capacity << 16) << 16) | (len & LOW_MAX);
        proof {
            lemma_split(len);
            lemma_low(len);
            lemma_join_bits(len, capacity);
            lemma_join_parts(capacity, low(len));
        }
        (fat, Cursed)
    }

    fn unpack(fat: usize, capacity: Cursed) -> (r: (usize, usize)) {
        proof {
            lemma_split(fat);
        }
        (fat & LOW_MAX, ((fat & !LOW_MAX) >> 16) >> 16)
    }

    fn maybe(fat: usize, capacity: Cursed) -> (r: Option<Cursed>) {
        proof {
            lemma_split(fat);
        }
        if fat & !LOW_MAX != 0 {
            Some(Cursed)
        } else {
            None
        }
    }
}

} // verus!
