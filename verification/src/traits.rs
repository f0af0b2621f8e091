//! The two abstractions a clone-on-write value is built from: a layout for
//! length and capacity, and a family of sequences that can be borrowed or owned.

use vstd::prelude::*;
use vstd::utf8::encode_scalar;
use vstd::utf8::encode_utf8;

verus! {

/// A layout that packs a length and an allocated capacity into a word and a
/// strategy-specific field.
///
/// A packed capacity of zero means that nothing is owned: the layout keeps no
/// other record of ownership.
pub trait Capacity {
    /// What the layout stores beside the packed word.
    type Field: Copy;

    /// Evidence that a packed pair holds a capacity other than zero.
    type NonZero: Copy;

    /// The largest length, and the largest capacity, that the layout holds.
    spec fn limit() -> usize;

    /// The length held in a packed word.
    spec fn spec_len(fat: usize) -> usize;

    /// The packed pair for a view of `len` elements.
    spec fn spec_empty(len: usize) -> (usize, Self::Field);

    /// The packed pair for a buffer of `len` elements allocated for `capacity`.
    spec fn spec_store(len: usize, capacity: usize) -> (usize, Self::Field);

    /// Length and capacity of a packed pair known to hold a capacity.
    spec fn spec_unpack(fat: usize, capacity: Self::NonZero) -> (usize, usize);

    /// The evidence of a capacity in a packed pair, if it holds one.
    spec fn spec_maybe(fat: usize, capacity: Self::Field) -> Option<Self::NonZero>;

    /// The pair packed for a view holds no capacity, and holds the length it
    /// was given if that is within the limit.
    proof fn lemma_empty(len: usize)
        ensures
            Self::spec_maybe(Self::spec_empty(len).0, Self::spec_empty(len).1) is None,
            len <= Self::limit() ==> Self::spec_len(Self::spec_empty(len).0) == len,
    ;

    /// Round trip: what was stored within the limit is what comes out, and a
    /// capacity is found exactly when the stored one was not zero.
    proof fn lemma_round_trip(len: usize, capacity: usize)
        requires
            len <= Self::limit(),
            capacity <= Self::limit(),
        ensures
            Self::spec_len(Self::spec_store(len, capacity).0) == len,
            capacity == 0 <==> Self::spec_maybe(
                Self::spec_store(len, capacity).0,
                Self::spec_store(len, capacity).1,
            ) is None,
            Self::spec_maybe(
                Self::spec_store(len, capacity).0,
                Self::spec_store(len, capacity).1,
            ) matches Some(nz) ==> Self::spec_unpack(Self::spec_store(len, capacity).0, nz) == (
                len,
                capacity,
            ),
    ;

    /// The length that unpacking yields is the length of the word.
    proof fn lemma_unpack(fat: usize, capacity: Self::NonZero)
        ensures
            Self::spec_unpack(fat, capacity).0 == Self::spec_len(fat),
    ;

    /// Whether `capacity` is within the limit.
    fn fits(capacity: usize) -> (r: bool)
        ensures
            r == (capacity <= Self::limit()),
    ;

    /// Reads the length out of a packed word.
    fn len(fat: usize) -> (r: usize)
        ensures
            r == Self::spec_len(fat),
    ;

    /// Packs the length of a view. The pair holds no capacity.
    fn empty(len: usize) -> (r: (usize, Self::Field))
        ensures
            r == Self::spec_empty(len),
    ;

    /// Packs the length and the allocated capacity of a buffer.
    fn store(len: usize, capacity: usize) -> (r: (usize, Self::Field))
        requires
            capacity <= Self::limit(),
        ensures
            r == Self::spec_store(len, capacity),
    ;

    /// Reads length and capacity out of a pair that holds a capacity.
    fn unpack(fat: usize, capacity: Self::NonZero) -> (r: (usize, usize))
        ensures
            r == Self::spec_unpack(fat, capacity),
    ;

    /// Tests whether a pair holds a capacity: the test of ownership.
    fn maybe(fat: usize, capacity: Self::Field) -> (r: Option<Self::NonZero>)
        ensures
            r == Self::spec_maybe(fat, capacity),
    ;
}

/// The handle of a sequence: a view shared with whoever owns the data, or a
/// buffer that is held exclusively.
#[derive(Debug)]
pub enum Handle<'a, T: ?Sized, O> {
    /// A view into data that somebody else owns.
    Shared(&'a T),
    /// A buffer that the holder of the handle owns.
    Exclusive(O),
}

impl<'a, T: View + ?Sized, O: View<V = T::V>> View for Handle<'a, T, O> {
    type V = T::V;

    /// The contents of the sequence behind the handle.
    open spec fn view(&self) -> T::V {
        match self {
            Handle::Shared(shared) => shared@,
            Handle::Exclusive(owned) => owned@,
        }
    }
}

impl<'a, T: ?Sized, O> Handle<'a, T, O> {
    /// The view that a shared handle holds, for as long as the data lives.
    pub fn shared(self) -> (r: &'a T)
        requires
            self is Shared,
        ensures
            self matches Handle::Shared(shared) && shared == r,
    {
        match self {
            Handle::Shared(shared) => shared,
            Handle::Exclusive(_) => vstd::pervasive::unreached(),
        }
    }

    /// The buffer that an exclusive handle holds.
    pub fn exclusive(self) -> (r: O)
        requires
            self is Exclusive,
        ensures
            self matches Handle::Exclusive(owned) && owned == r,
    {
        match self {
            Handle::Exclusive(owned) => owned,
            Handle::Shared(_) => vstd::pervasive::unreached(),
        }
    }
}

/// A family of sequences that can be viewed through a reference or owned as
/// a buffer with an allocated capacity.
///
/// The contents of a view and of a buffer are the same kind of sequence,
/// [`View::V`]. The four `parts` functions take a view or a buffer apart into
/// a handle and the pair that a [`Capacity`] packs, and put them together
/// again.
pub trait Beef: View {
    /// The buffer that owns a sequence of this family.
    type Owned: View<V = Self::V>;

    /// The length that `len` measures of a sequence with the given contents.
    spec fn spec_len(contents: Self::V) -> nat;

    /// Whether `copy` can be the contents of a buffer into which a sequence
    /// with the contents `model` was copied.
    spec fn is_copy(model: Self::V, copy: Self::V) -> bool;

    /// A copy measures what its model measures.
    proof fn lemma_copy_len(model: Self::V, copy: Self::V)
        requires
            Self::is_copy(model, copy),
        ensures
            Self::spec_len(copy) == Self::spec_len(model),
    ;

    /// A sequence that measures zero has no contents, so that any two of
    /// them are the same.
    proof fn lemma_len_zero(a: Self::V, b: Self::V)
        requires
            Self::spec_len(a) == 0,
            Self::spec_len(b) == 0,
        ensures
            a == b,
    ;

    /// The view of a sequence without contents.
    fn empty<'a>() -> (r: &'a Self)
        ensures
            Self::spec_len(r@) == 0,
    ;

    /// The length of the view.
    fn len(&self) -> (r: usize)
        ensures
            r == Self::spec_len(self@),
    ;

    /// The capacity that was allocated for the buffer. It is the allocator's
    /// to choose, and never less than the length.
    fn capacity(owned: &Self::Owned) -> (r: usize)
        ensures
            Self::spec_len(owned@) <= r,
    ;

    /// Copies the sequence into a fresh buffer.
    fn deep_copy(&self) -> (r: Self::Owned)
        ensures
            Self::is_copy(self@, r@),
    ;

    /// Takes a view apart: the handle shares the view, and the pair is the
    /// one that `U` packs for a view of that length. Nothing is allocated.
    fn ref_into_parts<'a, U: Capacity>(&'a self) -> (r: (
        Handle<'a, Self, Self::Owned>,
        usize,
        U::Field,
    ))
        ensures
            r.0 matches Handle::Shared(shared) && shared == self,
            (r.1, r.2) == U::spec_empty(Self::spec_len(self@) as usize),
    ;

    /// The view behind a handle, whichever kind of handle it is: the view
    /// that a shared handle holds, or a view of the buffer. The handle knows
    /// how far its data reaches, so that the packed word has nothing to add.
    fn ref_from_parts<'b, U: Capacity>(
        inner: &'b Handle<'_, Self, Self::Owned>,
        fat: usize,
    ) -> (r: &'b Self)
        ensures
            r@ == inner@,
            inner matches Handle::Shared(shared) ==> r == shared,
    ;

    /// Takes a buffer with the given allocated capacity apart. The pair is
    /// the one that `U` stores for its length and capacity. The handle holds
    /// the buffer, unless the pair holds no capacity: a buffer for which
    /// nothing was allocated is empty, and the handle shares an empty view in
    /// its place.
    fn owned_into_parts<'a, U: Capacity>(owned: Self::Owned, capacity: usize) -> (r: (
        Handle<'a, Self, Self::Owned>,
        usize,
        U::Field,
    ))
        requires
            Self::spec_len(owned@) <= capacity,
            capacity <= U::limit(),
        ensures
            (r.1, r.2) == U::spec_store(Self::spec_len(owned@) as usize, capacity),
            r.0@ == owned@,
            capacity != 0 ==> (r.0 matches Handle::Exclusive(held) && held == owned),
            capacity == 0 ==> r.0 is Shared,
    ;

    /// Puts a buffer together again from the parts it was taken apart into.
    fn owned_from_parts<U: Capacity>(
        inner: Handle<'_, Self, Self::Owned>,
        fat: usize,
        capacity: U::NonZero,
    ) -> (r: Self::Owned)
        requires
            inner is Exclusive,
            U::spec_unpack(fat, capacity).0 == Self::spec_len(inner@),
        ensures
            inner matches Handle::Exclusive(held) && held == r,
    ;
}

/// Whether every copy of a sequence of the family has the very contents of
/// its model. It is so for `str`, and for slices of elements whose clones
/// are what was cloned.
pub open spec fn exact_copies<T: Beef + ?Sized>() -> bool {
    forall|model: T::V, copy: T::V| #[trigger] T::is_copy(model, copy) ==> copy == model
}

/// Copies of a `str` are exact.
pub proof fn lemma_str_exact_copies()
    ensures
        exact_copies::<str>(),
{
}

/// Copies of a slice are exact where the clone of an element is that element.
pub proof fn lemma_slice_exact_copies<T: Clone>()
    requires
        forall|a: T, b: T| #[trigger] cloned(a, b) ==> a == b,
    ensures
        exact_copies::<[T]>(),
{
    assert forall|model: Seq<T>, copy: Seq<T>| #[trigger]
        <[T] as Beef>::is_copy(model, copy) implies copy == model by {
        assert forall|i: int| 0 <= i < model.len() implies copy[i] == model[i] by {
            assert(cloned(model[i], copy[i]));
        }
        assert(copy =~= model);
    }
}

/// A sequence of characters that takes no bytes has no characters.
pub proof fn lemma_no_bytes(chars: Seq<char>)
    requires
        encode_utf8(chars).len() == 0,
    ensures
        chars =~= Seq::<char>::empty(),
{
    if chars.len() > 0 {
        assert(encode_utf8(chars) == encode_scalar(chars[0] as u32) + encode_utf8(
            chars.drop_first(),
        ));
    }
}

/// `String::capacity` of std: the number of bytes that the string's
/// allocation has room for. All that is claimed of it is that the bytes which
/// the string holds have room there.
#[verifier::external_body]
fn string_capacity(owned: &String) -> (r: usize)
    ensures
        encode_utf8(owned@).len() <= r,
{
    owned.capacity()
}

/// `Vec::capacity` of std: the number of elements that the vector's
/// allocation has room for. All that is claimed of it is that the elements
/// which the vector holds have room there.
#[verifier::external_body]
fn vec_capacity<T>(owned: &Vec<T>) -> (r: usize)
    ensures
        owned@.len() <= r,
{
    owned.capacity()
}

impl Beef for str {
    type Owned = String;

    /// A `str` measures its bytes in UTF-8.
    open spec fn spec_len(contents: Seq<char>) -> nat {
        encode_utf8(contents).len()
    }

    /// A copy of a `str` holds the same characters.
    open spec fn is_copy(model: Seq<char>, copy: Seq<char>) -> bool {
        copy == model
    }

    proof fn lemma_copy_len(model: Seq<char>, copy: Seq<char>) {
    }

    proof fn lemma_len_zero(a: Seq<char>, b: Seq<char>) {
        lemma_no_bytes(a);
        lemma_no_bytes(b);
    }

    fn empty<'a>() -> (r: &'a str) {
        proof {
            reveal_strlit("");
        }
        ""
    }

    fn len(&self) -> (r: usize) {
        self.as_bytes().len()
    }

    fn capacity(owned: &String) -> (r: usize) {
        string_capacity(owned)
    }

    fn deep_copy(&self) -> (r: String) {
        self.to_owned()
    }

    fn ref_into_parts<'a, U: Capacity>(&'a self) -> (r: (
        Handle<'a, str, String>,
        usize,
        U::Field,
    )) {
        let (fat, cap) = U::empty(self.as_bytes().len());
        (Handle::Shared(self), fat, cap)
    }

    fn ref_from_parts<'b, U: Capacity>(inner: &'b Handle<'_, str, String>, fat: usize) -> (r:
        &'b str) {
        match inner {
            Handle::Shared(shared) => shared,
            Handle::Exclusive(owned) => owned.as_str(),
        }
    }

    fn owned_into_parts<'a, U: Capacity>(owned: String, capacity: usize) -> (r: (
        Handle<'a, str, String>,
        usize,
        U::Field,
    )) {
        let len: usize = owned.as_str().as_bytes().len();
        let (fat, cap) = U::store(len, capacity);
        proof {
            U::lemma_round_trip(len, capacity);
        }
        match U::maybe(fat, cap) {
            Some(_) => (Handle::Exclusive(owned), fat, cap),
            None => {
                let empty: &'a str = Self::empty();
                proof {
                    Self::lemma_len_zero(empty@, owned@);
                }
                (Handle::Shared(empty), fat, cap)
            },
        }
    }

    fn owned_from_parts<U: Capacity>(
        inner: Handle<'_, str, String>,
        fat: usize,
        capacity: U::NonZero,
    ) -> (r: String) {
        inner.exclusive()
    }
}

impl<T: Clone> Beef for [T] {
    type Owned = Vec<T>;

    /// A slice measures its elements.
    open spec fn spec_len(contents: Seq<T>) -> nat {
        contents.len()
    }

    /// A copy of a slice holds, place by place, a clone of each element.
    open spec fn is_copy(model: Seq<T>, copy: Seq<T>) -> bool {
        &&& copy.len() == model.len()
        &&& forall|i: int| 0 <= i < model.len() ==> cloned(model[i], #[trigger] copy[i])
    }

    proof fn lemma_copy_len(model: Seq<T>, copy: Seq<T>) {
    }

    proof fn lemma_len_zero(a: Seq<T>, b: Seq<T>) {
        assert(a =~= b);
    }

    fn empty<'a>() -> (r: &'a [T]) {
        &[]
    }

    fn len(&self) -> (r: usize) {
        self.len()
    }

    fn capacity(owned: &Vec<T>) -> (r: usize) {
        vec_capacity(owned)
    }

    fn deep_copy(&self) -> (r: Vec<T>) {
        let mut copy: Vec<T> = Vec::with_capacity(self.len());
        let mut i: usize = 0;
        while i < self.len()
            invariant
                i <= self@.len(),
                copy@.len() == i,
                forall|j: int| 0 <= j < i ==> cloned(self@[j], #[trigger] copy@[j]),
            decreases self@.len() - i,
        {
            copy.push(self[i].clone());
            i += 1;
        }
        copy
    }

    fn ref_into_parts<'a, U: Capacity>(&'a self) -> (r: (
        Handle<'a, [T], Vec<T>>,
        usize,
        U::Field,
    )) {
        let (fat, cap) = U::empty(self.len());
        (Handle::Shared(self), fat, cap)
    }

    fn ref_from_parts<'b, U: Capacity>(inner: &'b Handle<'_, [T], Vec<T>>, fat: usize) -> (r:
        &'b [T]) {
        match inner {
            Handle::Shared(shared) => shared,
            Handle::Exclusive(owned) => owned.as_slice(),
        }
    }

    fn owned_into_parts<'a, U: Capacity>(owned: Vec<T>, capacity: usize) -> (r: (
        Handle<'a, [T], Vec<T>>,
        usize,
        U::Field,
    )) {
        let len: usize = owned.len();
        let (fat, cap) = U::store(len, capacity);
        proof {
            U::lemma_round_trip(len, capacity);
        }
        match U::maybe(fat, cap) {
            Some(_) => (Handle::Exclusive(owned), fat, cap),
            None => {
                let empty: &'a [T] = Self::empty();
                proof {
                    Self::lemma_len_zero(empty@, owned@);
                }
                (Handle::Shared(empty), fat, cap)
            },
        }
    }

    fn owned_from_parts<U: Capacity>(
        inner: Handle<'_, [T], Vec<T>>,
        fat: usize,
        capacity: U::NonZero,
    ) -> (r: Vec<T>) {
        inner.exclusive()
    }
}

} // verus!
