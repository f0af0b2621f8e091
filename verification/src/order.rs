//! The order of clone-on-write values: that of their contents, element by
//! element from the front, as slices and strings are ordered.

use vstd::prelude::*;
use vstd::std_specs::cmp::PartialOrdSpec;
use vstd::std_specs::cmp::PartialOrdSpecImpl;
use vstd::utf8::encode_utf8;
use std::cmp::Ordering;
use crate::generic::Cow;
use crate::traits::Capacity;

verus! {

/// The order of two sequences by their first elements that are not equal, or
/// by their lengths where one is the beginning of the other. Where the first
/// two elements that are not equal cannot be compared, neither can the
/// sequences.
pub open spec fn lex_order<T: PartialOrd>(a: Seq<T>, b: Seq<T>) -> Option<Ordering>
    decreases a.len(),
{
    if a.len() == 0 && b.len() == 0 {
        Some(Ordering::Equal)
    } else if a.len() == 0 {
        Some(Ordering::Less)
    } else if b.len() == 0 {
        Some(Ordering::Greater)
    } else {
        match a[0].partial_cmp_spec(&b[0]) {
            Some(Ordering::Equal) => lex_order(a.drop_first(), b.drop_first()),
            other => other,
        }
    }
}

/// The order of two slices, element by element from the front.
pub fn slice_partial_cmp<T: PartialOrd>(a: &[T], b: &[T]) -> (r: Option<Ordering>)
    ensures
        T::obeys_partial_cmp_spec() ==> r == lex_order(a@, b@),
{
    let mut i: usize = 0;
    let ghost mut rest_a: Seq<T> = a@;
    let ghost mut rest_b: Seq<T> = b@;
    while i < a.len() && i < b.len()
        invariant
            i <= a@.len(),
            i <= b@.len(),
            rest_a.len() + i == a@.len(),
            rest_b.len() + i == b@.len(),
            forall|j: int| 0 <= j < rest_a.len() ==> rest_a[j] == a@[j + i],
            forall|j: int| 0 <= j < rest_b.len() ==> rest_b[j] == b@[j + i],
            T::obeys_partial_cmp_spec() ==> lex_order(a@, b@) == lex_order(rest_a, rest_b),
        decreases a@.len() - i,
    {
        let step = a[i].partial_cmp(&b[i]);
        proof {
            assert(rest_a[0] == a@[0 + i]);
            assert(rest_b[0] == b@[0 + i]);
        }
        match step {
            Some(Ordering::Equal) => {
                proof {
                    rest_a = rest_a.drop_first();
                    rest_b = rest_b.drop_first();
                }
                i += 1;
            },
            other => {
                return other;
            },
        }
    }
    if a.len() < b.len() {
        Some(Ordering::Less)
    } else if a.len() > b.len() {
        Some(Ordering::Greater)
    } else {
        Some(Ordering::Equal)
    }
}

/// The order of two strings, byte by byte from the front.
pub fn str_partial_cmp(a: &str, b: &str) -> (r: Option<Ordering>)
    ensures
        r == lex_order(encode_utf8(a@), encode_utf8(b@)),
{
    slice_partial_cmp(a.as_bytes(), b.as_bytes())
}

impl<'a, 'b, U: Capacity, V: Capacity> PartialOrd<Cow<'b, str, V>> for Cow<'a, str, U> {
    /// Two values are in the order of their contents.
    fn partial_cmp(&self, other: &Cow<'b, str, V>) -> (r: Option<Ordering>) {
        str_partial_cmp(self.as_ref(), other.as_ref())
    }
}

impl<'a, 'b, U: Capacity, V: Capacity> PartialOrdSpecImpl<Cow<'b, str, V>> for Cow<'a, str, U> {
    open spec fn obeys_partial_cmp_spec() -> bool {
        true
    }

    open spec fn partial_cmp_spec(&self, other: &Cow<'b, str, V>) -> Option<Ordering> {
        lex_order(encode_utf8(self@), encode_utf8(other@))
    }
}

impl<'a, 'b, T: Clone + PartialOrd, U: Capacity, V: Capacity> PartialOrd<
    Cow<'b, [T], V>,
> for Cow<'a, [T], U> {
    /// Two values are in the order of their contents.
    fn partial_cmp(&self, other: &Cow<'b, [T], V>) -> (r: Option<Ordering>) {
        slice_partial_cmp(self.as_ref(), other.as_ref())
    }
}

impl<'a, 'b, T: Clone + PartialOrd, U: Capacity, V: Capacity> PartialOrdSpecImpl<
    Cow<'b, [T], V>,
> for Cow<'a, [T], U> {
    open spec fn obeys_partial_cmp_spec() -> bool {
        T::obeys_partial_cmp_spec()
    }

    open spec fn partial_cmp_spec(&self, other: &Cow<'b, [T], V>) -> Option<Ordering> {
        lex_order(self@, other@)
    }
}

} // verus!
