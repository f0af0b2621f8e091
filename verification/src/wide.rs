//! The layout that keeps a word for the length and a word for the capacity.

use vstd::prelude::*;
use vstd::std_specs::convert::FromSpecImpl;
use std::borrow::Cow as StdCow;
use std::borrow::ToOwned;
use crate::traits::Beef;
use crate::traits::Capacity;
use crate::traits::Handle;

verus! {

/// Keeps the length in a word of its own and the capacity in the field
/// beside it. A field of `None` means borrowed.
///
/// Every length and every capacity can be held.
#[derive(Clone, Copy, PartialEq, Eq, Debug)]
pub struct Wide;

/// A capacity that is known not to be zero.
#[derive(Clone, Copy, Debug)]
pub struct NonZeroCapacity {
    value: usize,
}

impl NonZeroCapacity {
    #[verifier::type_invariant]
    spec fn nonzero(self) -> bool {
        self.value != 0
    }

    /// The capacity itself.
    pub closed spec fn value(self) -> usize {
        self.value
    }

    /// `None` for zero, and for any other number the capacity of that value.
    pub closed spec fn spec_new(value: usize) -> Option<NonZeroCapacity> {
        if value == 0 {
            None
        } else {
            Some(NonZeroCapacity { value })
        }
    }

    /// What [`Self::spec_new`] yields, told by the value that went in.
    pub broadcast proof fn lemma_spec_new(value: usize)
        ensures
            value == 0 <==> (#[trigger] Self::spec_new(value)) is None,
            Self::spec_new(value) matches Some(nz) ==> nz.value() == value,
    {
    }

    /// The capacity of the given value, unless that is zero.
    pub fn new(value: usize) -> (r: Option<NonZeroCapacity>)
        ensures
            r == Self::spec_new(value),
    {
        if value == 0 {
            None
        } else {
            Some(NonZeroCapacity { value })
        }
    }

    /// The value, which is never zero.
    pub fn get(self) -> (r: usize)
        ensures
            r == self.value(),
            r != 0,
    {
        proof {
            use_type_invariant(&self);
        }
        self.value
    }
}

impl Capacity for Wide {
    type Field = Option<NonZeroCapacity>;

    type NonZero = NonZeroCapacity;

    open spec fn limit() -> usize {
        usize::MAX
    }

    open spec fn spec_len(fat: usize) -> usize {
        fat
    }

    open spec fn spec_empty(len: usize) -> (usize, Option<NonZeroCapacity>) {
        (len, None)
    }

    open spec fn spec_store(len: usize, capacity: usize) -> (usize, Option<NonZeroCapacity>) {
        (len, NonZeroCapacity::spec_new(capacity))
    }

    open spec fn spec_unpack(fat: usize, capacity: NonZeroCapacity) -> (usize, usize) {
        (fat, capacity.value())
    }

    open spec fn spec_maybe(fat: usize, capacity: Option<NonZeroCapacity>) -> Option<
        NonZeroCapacity,
    > {
        capacity
    }

    proof fn lemma_empty(len: usize) {
    }

    proof fn lemma_round_trip(len: usize, capacity: usize) {
        NonZeroCapacity::lemma_spec_new(capacity);
    }

    proof fn lemma_unpack(fat: usize, capacity: NonZeroCapacity) {
    }

    fn fits(capacity: usize) -> (r: bool) {
        true
    }

    fn len(fat: usize) -> (r: usize) {
        fat
    }

    fn empty(len: usize) -> (r: (usize, Option<NonZeroCapacity>)) {
        (len, None)
    }

    fn store(len: usize, capacity: usize) -> (r: (usize, Option<NonZeroCapacity>)) {
        (len, NonZeroCapacity::new(capacity))
    }

    fn unpack(fat: usize, capacity: NonZeroCapacity) -> (r: (usize, usize)) {
        (fat, capacity.get())
    }

    fn maybe(fat: usize, capacity: Option<NonZeroCapacity>) -> (r: Option<NonZeroCapacity>) {
        capacity
    }
}

/// A clone-on-write value with a word for its length and a word for its
/// capacity.
pub type Cow<'a, T> = crate::generic::Cow<'a, T, Wide>;

impl<'a, T: Beef + ?Sized> Clone for Cow<'a, T> {
    /// A borrowed value is cloned by sharing its view: nothing is allocated.
    /// An owned value is cloned by copying its contents into a buffer that
    /// the clone owns and shares with nobody.
    fn clone(&self) -> (r: Self)
        ensures
            self.is_clone(r),
    {
        match self.try_clone() {
            Some(copy) => copy,
            None => vstd::pervasive::unreached(),
        }
    }
}

impl<'a, T: Beef + ?Sized> From<&'a T> for Cow<'a, T> {
    /// Borrowed data.
    fn from(val: &'a T) -> (cow: Self)
        ensures
            cow.wf(),
            cow.handle() matches Handle::Shared(shared) && shared == val,
            cow.spec_capacity() == 0,
    {
        Cow::borrowed(val)
    }
}

impl<'a, T: Beef + ?Sized> FromSpecImpl<&'a T> for Cow<'a, T> {
    open spec fn obeys_from_spec() -> bool {
        true
    }

    open spec fn from_spec(val: &'a T) -> Self {
        Cow::spec_borrowed(val)
    }
}

impl<'a> From<String> for Cow<'a, str> {
    /// Owned data.
    fn from(val: String) -> (cow: Self)
        ensures
            cow.wf(),
            cow@ == val@,
            cow.spec_is_owned() ==> (cow.handle() matches Handle::Exclusive(held) && held == val),
            val@.len() > 0 ==> cow.spec_is_owned(),
    {
        let cow: Self = Cow::owned(val);
        proof {
            cow.lemma_wf();
            if str::spec_len(val@) == 0 {
                crate::traits::lemma_no_bytes(val@);
            }
        }
        cow
    }
}

impl<'a> FromSpecImpl<String> for Cow<'a, str> {
    /// The capacity of a buffer is the allocator's to choose: no function
    /// of the buffer gives the value.
    open spec fn obeys_from_spec() -> bool {
        false
    }

    open spec fn from_spec(val: String) -> Self {
        arbitrary()
    }
}

impl<'a, T: Clone> From<Vec<T>> for Cow<'a, [T]> {
    /// Owned data.
    fn from(val: Vec<T>) -> (cow: Self)
        ensures
            cow.wf(),
            cow@ == val@,
            cow.spec_is_owned() ==> (cow.handle() matches Handle::Exclusive(held) && held == val),
            val@.len() > 0 ==> cow.spec_is_owned(),
    {
        let cow: Self = Cow::owned(val);
        proof {
            cow.lemma_wf();
        }
        cow
    }
}

impl<'a, T: Clone> FromSpecImpl<Vec<T>> for Cow<'a, [T]> {
    /// The capacity of a buffer is the allocator's to choose: no function
    /// of the buffer gives the value.
    open spec fn obeys_from_spec() -> bool {
        false
    }

    open spec fn from_spec(val: Vec<T>) -> Self {
        arbitrary()
    }
}

impl<'a, T> From<StdCow<'a, T>> for Cow<'a, T> where
    T: Beef + ?Sized + ToOwned<Owned = <T as Beef>::Owned>,
 {
    /// Borrowed data for `Borrowed`, owned data for `Owned`.
    fn from(val: StdCow<'a, T>) -> (cow: Self)
        ensures
            Self::is_from_std(val, cow),
    {
        Cow::from_std_cow(val)
    }
}

impl<'a, T> FromSpecImpl<StdCow<'a, T>> for Cow<'a, T> where
    T: Beef + ?Sized + ToOwned<Owned = <T as Beef>::Owned>,
 {
    /// The capacity of a buffer is the allocator's to choose: no function
    /// of the buffer gives the value.
    open spec fn obeys_from_spec() -> bool {
        false
    }

    open spec fn from_spec(val: StdCow<'a, T>) -> Self {
        arbitrary()
    }
}

} // verus!
