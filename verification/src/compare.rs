//! Equality of clone-on-write values: that of their contents. Whether a
//! value owns its data, and how its length and capacity are packed, makes no
//! difference.

use vstd::prelude::*;
use vstd::std_specs::cmp::PartialEqSpec;
use vstd::std_specs::cmp::PartialEqSpecImpl;
use vstd::utf8::encode_utf8_decode_utf8;
use crate::generic::Cow;
use crate::traits::Capacity;

verus! {

/// Whether two sequences have the same length and hold, place by place,
/// elements that their own `==` says are equal.
pub open spec fn seq_eq<T: PartialEq>(a: Seq<T>, b: Seq<T>) -> bool {
    &&& a.len() == b.len()
    &&& forall|i: int| 0 <= i < a.len() ==> #[trigger] a[i].eq_spec(&b[i])
}

/// Whether two slices are equal, element by element.
pub fn slice_eq<T: PartialEq>(a: &[T], b: &[T]) -> (r: bool)
    ensures
        T::obeys_eq_spec() ==> r == seq_eq(a@, b@),
{
    if a.len() != b.len() {
        return false;
    }
    let mut i: usize = 0;
    while i < a.len()
        invariant
            a@.len() == b@.len(),
            i <= a@.len(),
            T::obeys_eq_spec() ==> forall|j: int| 0 <= j < i ==> #[trigger] a@[j].eq_spec(&b@[j]),
        decreases a@.len() - i,
    {
        if !(a[i] == b[i]) {
            return false;
        }
        i += 1;
    }
    true
}

/// Whether two slices hold the same bytes.
fn bytes_eq(a: &[u8], b: &[u8]) -> (r: bool)
    ensures
        r == (a@ == b@),
{
    let r = slice_eq(a, b);
    proof {
        if r {
            assert forall|i: int| 0 <= i < a@.len() implies a@[i] == b@[i] by {
                assert(PartialEqSpec::eq_spec(&a@[i], &b@[i]));
            }
            assert(a@ =~= b@);
        }
    }
    r
}

/// Whether two strings hold the same characters.
pub fn str_eq(a: &str, b: &str) -> (r: bool)
    ensures
        r == (a@ == b@),
{
    proof {
        encode_utf8_decode_utf8(a@);
        encode_utf8_decode_utf8(b@);
    }
    bytes_eq(a.as_bytes(), b.as_bytes())
}

impl<'a, 'b, U: Capacity, V: Capacity> PartialEq<Cow<'b, str, V>> for Cow<'a, str, U> {
    /// Two values are equal when their contents are.
    fn eq(&self, other: &Cow<'b, str, V>) -> (r: bool) {
        str_eq(self.as_ref(), other.as_ref())
    }
}

impl<'a, 'b, U: Capacity, V: Capacity> PartialEqSpecImpl<Cow<'b, str, V>> for Cow<'a, str, U> {
    open spec fn obeys_eq_spec() -> bool {
        true
    }

    open spec fn eq_spec(&self, other: &Cow<'b, str, V>) -> bool {
        self@ == other@
    }
}

/// Equality of text is an equivalence.
impl<'a, U: Capacity> Eq for Cow<'a, str, U> {
}

impl<'a, 'b, T: Clone + PartialEq, U: Capacity, V: Capacity> PartialEq<
    Cow<'b, [T], V>,
> for Cow<'a, [T], U> {
    /// Two values are equal when their contents are, element by element.
    fn eq(&self, other: &Cow<'b, [T], V>) -> (r: bool) {
        slice_eq(self.as_ref(), other.as_ref())
    }
}

impl<'a, 'b, T: Clone + PartialEq, U: Capacity, V: Capacity> PartialEqSpecImpl<
    Cow<'b, [T], V>,
> for Cow<'a, [T], U> {
    open spec fn obeys_eq_spec() -> bool {
        T::obeys_eq_spec()
    }

    open spec fn eq_spec(&self, other: &Cow<'b, [T], V>) -> bool {
        seq_eq(self@, other@)
    }
}

/// Equality of slices is an equivalence where that of their elements is.
impl<'a, T: Clone + Eq, U: Capacity> Eq for Cow<'a, [T], U> {
}

impl<'a, U: Capacity> PartialEq<str> for Cow<'a, str, U> {
    /// A value equals a sequence when its contents are those of the sequence.
    fn eq(&self, other: &str) -> (r: bool) {
        str_eq(self.as_ref(), other)
    }
}

impl<'a, U: Capacity> PartialEqSpecImpl<str> for Cow<'a, str, U> {
    open spec fn obeys_eq_spec() -> bool {
        true
    }

    open spec fn eq_spec(&self, other: &str) -> bool {
        self@ == other@
    }
}

impl<'a, U: Capacity> PartialEq<Cow<'a, str, U>> for str {
    /// A sequence equals a value when its contents are those of the value.
    fn eq(&self, other: &Cow<'a, str, U>) -> (r: bool) {
        str_eq(self, other.as_ref())
    }
}

impl<'a, U: Capacity> PartialEqSpecImpl<Cow<'a, str, U>> for str {
    open spec fn obeys_eq_spec() -> bool {
        true
    }

    open spec fn eq_spec(&self, other: &Cow<'a, str, U>) -> bool {
        self@ == other@
    }
}

impl<'a, 'b, U: Capacity> PartialEq<&'b str> for Cow<'a, str, U> {
    /// A value equals a sequence when its contents are those of the sequence.
    fn eq(&self, other: &&'b str) -> (r: bool) {
        str_eq(self.as_ref(), *other)
    }
}

impl<'a, 'b, U: Capacity> PartialEqSpecImpl<&'b str> for Cow<'a, str, U> {
    open spec fn obeys_eq_spec() -> bool {
        true
    }

    open spec fn eq_spec(&self, other: &&'b str) -> bool {
        self@ == other@
    }
}

impl<'a, 'b, U: Capacity> PartialEq<Cow<'a, str, U>> for &'b str {
    /// A sequence equals a value when its contents are those of the value.
    fn eq(&self, other: &Cow<'a, str, U>) -> (r: bool) {
        str_eq(*self, other.as_ref())
    }
}

impl<'a, 'b, U: Capacity> PartialEqSpecImpl<Cow<'a, str, U>> for &'b str {
    open spec fn obeys_eq_spec() -> bool {
        true
    }

    open spec fn eq_spec(&self, other: &Cow<'a, str, U>) -> bool {
        self@ == other@
    }
}

impl<'a, U: Capacity> PartialEq<String> for Cow<'a, str, U> {
    /// A value equals a sequence when its contents are those of the sequence.
    fn eq(&self, other: &String) -> (r: bool) {
        str_eq(self.as_ref(), other.as_str())
    }
}

impl<'a, U: Capacity> PartialEqSpecImpl<String> for Cow<'a, str, U> {
    open spec fn obeys_eq_spec() -> bool {
        true
    }

    open spec fn eq_spec(&self, other: &String) -> bool {
        self@ == other@
    }
}

impl<'a, U: Capacity> PartialEq<Cow<'a, str, U>> for String {
    /// A sequence equals a value when its contents are those of the value.
    fn eq(&self, other: &Cow<'a, str, U>) -> (r: bool) {
        str_eq(self.as_str(), other.as_ref())
    }
}

impl<'a, U: Capacity> PartialEqSpecImpl<Cow<'a, str, U>> for String {
    open spec fn obeys_eq_spec() -> bool {
        true
    }

    open spec fn eq_spec(&self, other: &Cow<'a, str, U>) -> bool {
        self@ == other@
    }
}

impl<'a, T: Clone + PartialEq, U: Capacity> PartialEq<[T]> for Cow<'a, [T], U> {
    /// A value equals a sequence when its contents are those of the sequence.
    fn eq(&self, other: &[T]) -> (r: bool) {
        slice_eq(self.as_ref(), other)
    }
}

impl<'a, T: Clone + PartialEq, U: Capacity> PartialEqSpecImpl<[T]> for Cow<'a, [T], U> {
    open spec fn obeys_eq_spec() -> bool {
        T::obeys_eq_spec()
    }

    open spec fn eq_spec(&self, other: &[T]) -> bool {
        seq_eq(self@, other@)
    }
}

impl<'a, T: Clone + PartialEq, U: Capacity> PartialEq<Cow<'a, [T], U>> for [T] {
    /// A sequence equals a value when its contents are those of the value.
    fn eq(&self, other: &Cow<'a, [T], U>) -> (r: bool) {
        slice_eq(self, other.as_ref())
    }
}

impl<'a, T: Clone + PartialEq, U: Capacity> PartialEqSpecImpl<Cow<'a, [T], U>> for [T] {
    open spec fn obeys_eq_spec() -> bool {
        T::obeys_eq_spec()
    }

    open spec fn eq_spec(&self, other: &Cow<'a, [T], U>) -> bool {
        seq_eq(self@, other@)
    }
}

impl<'a, 'b, T: Clone + PartialEq, U: Capacity> PartialEq<&'b [T]> for Cow<'a, [T], U> {
    /// A value equals a sequence when its contents are those of the sequence.
    fn eq(&self, other: &&'b [T]) -> (r: bool) {
        slice_eq(self.as_ref(), *other)
    }
}

impl<'a, 'b, T: Clone + PartialEq, U: Capacity> PartialEqSpecImpl<&'b [T]> for Cow<'a, [T], U> {
    open spec fn obeys_eq_spec() -> bool {
        T::obeys_eq_spec()
    }

    open spec fn eq_spec(&self, other: &&'b [T]) -> bool {
        seq_eq(self@, other@)
    }
}

impl<'a, 'b, T: Clone + PartialEq, U: Capacity> PartialEq<Cow<'a, [T], U>> for &'b [T] {
    /// A sequence equals a value when its contents are those of the value.
    fn eq(&self, other: &Cow<'a, [T], U>) -> (r: bool) {
        slice_eq(*self, other.as_ref())
    }
}

impl<'a, 'b, T: Clone + PartialEq, U: Capacity> PartialEqSpecImpl<Cow<'a, [T], U>> for &'b [T] {
    open spec fn obeys_eq_spec() -> bool {
        T::obeys_eq_spec()
    }

    open spec fn eq_spec(&self, other: &Cow<'a, [T], U>) -> bool {
        seq_eq(self@, other@)
    }
}

impl<'a, T: Clone + PartialEq, U: Capacity> PartialEq<Vec<T>> for Cow<'a, [T], U> {
    /// A value equals a sequence when its contents are those of the sequence.
    fn eq(&self, other: &Vec<T>) -> (r: bool) {
        slice_eq(self.as_ref(), other.as_slice())
    }
}

impl<'a, T: Clone + PartialEq, U: Capacity> PartialEqSpecImpl<Vec<T>> for Cow<'a, [T], U> {
    open spec fn obeys_eq_spec() -> bool {
        T::obeys_eq_spec()
    }

    open spec fn eq_spec(&self, other: &Vec<T>) -> bool {
        seq_eq(self@, other@)
    }
}

impl<'a, T: Clone + PartialEq, U: Capacity> PartialEq<Cow<'a, [T], U>> for Vec<T> {
    /// A sequence equals a value when its contents are those of the value.
    fn eq(&self, other: &Cow<'a, [T], U>) -> (r: bool) {
        slice_eq(self.as_slice(), other.as_ref())
    }
}

impl<'a, T: Clone + PartialEq, U: Capacity> PartialEqSpecImpl<Cow<'a, [T], U>> for Vec<T> {
    open spec fn obeys_eq_spec() -> bool {
        T::obeys_eq_spec()
    }

    open spec fn eq_spec(&self, other: &Cow<'a, [T], U>) -> bool {
        seq_eq(self@, other@)
    }
}

} // verus!
