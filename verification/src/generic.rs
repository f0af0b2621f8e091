//! The clone-on-write value itself, generic in the family of sequences it
//! holds and in the layout that packs its length and capacity.

use vstd::prelude::*;
use vstd::std_specs::convert::FromSpecImpl;
use std::borrow::Cow as StdCow;
use std::borrow::ToOwned;
use crate::traits::Beef;
use crate::traits::Capacity;
use crate::traits::Handle;
use crate::traits::exact_copies;
use crate::error::OwnedVariantError;
use crate::lean::Lean;
use crate::lean::half_max;
use crate::wide::Wide;

verus! {

/// A clone-on-write value: a view into data that somebody else owns, or a
/// buffer of its own.
///
/// The value keeps a handle and the pair that `U` packs from length and
/// capacity. Whether it owns its data is read off that pair and nothing
/// else: it owns a buffer exactly when the pair holds a capacity other than
/// zero. A buffer for which nothing was allocated therefore counts as
/// borrowed: it is empty, and an empty view stands in its place.
///
/// The handle is what gives access to the data. It is never asked which kind
/// of handle it is: the invariant of the type keeps it in agreement with the
/// pair. When the value goes, the handle goes with it, which frees a buffer
/// and leaves a view alone.
#[derive(Debug)]
pub struct Cow<'a, T: Beef + ?Sized + 'a, U: Capacity> {
    /// The handle of the data.
    ptr: Handle<'a, T, T::Owned>,
    /// The packed word. It holds the length and, depending on `U`, more, and
    /// is read through `U` only.
    fat: usize,
    /// What `U` keeps beside the word.
    cap: U::Field,
}

/// Whether a length of `n` is one that `U` holds.
pub open spec fn within<U: Capacity>(n: nat) -> bool {
    U::limit() == usize::MAX || n <= U::limit()
}

impl<'a, T: Beef + ?Sized, U: Capacity> View for Cow<'a, T, U> {
    type V = T::V;

    /// The contents of the sequence that the value gives access to.
    open spec fn view(&self) -> T::V {
        self.handle()@
    }
}

impl<'a, T: Beef + ?Sized, U: Capacity> Cow<'a, T, U> {
    /// What holds of every value: the packed length is the length of the
    /// data, and a capacity is packed exactly when the handle holds a buffer,
    /// in which case it is not zero and not less than the length.
    #[verifier::type_invariant]
    pub closed spec fn wf(self) -> bool {
        &&& U::spec_len(self.fat) == T::spec_len(self.ptr@)
        &&& U::spec_maybe(self.fat, self.cap) is Some <==> self.ptr is Exclusive
        &&& U::spec_maybe(self.fat, self.cap) matches Some(nz) ==> {
            &&& U::spec_unpack(self.fat, nz).1 != 0
            &&& U::spec_unpack(self.fat, nz).1 >= T::spec_len(self.ptr@)
        }
    }

    /// The handle of the data: the view that was borrowed, or the buffer that
    /// is owned.
    pub closed spec fn handle(self) -> Handle<'a, T, T::Owned> {
        self.ptr
    }

    /// The capacity that is packed: that of the buffer, or zero where none is
    /// owned.
    pub closed spec fn spec_capacity(self) -> usize {
        match U::spec_maybe(self.fat, self.cap) {
            Some(nz) => U::spec_unpack(self.fat, nz).1,
            None => 0,
        }
    }

    /// The value that borrows `val`.
    pub closed spec fn spec_borrowed(val: &'a T) -> Self {
        Cow {
            ptr: Handle::Shared(val),
            fat: U::spec_empty(T::spec_len(val@) as usize).0,
            cap: U::spec_empty(T::spec_len(val@) as usize).1,
        }
    }

    /// Whether the value owns a buffer.
    pub open spec fn spec_is_owned(&self) -> bool {
        self.handle() is Exclusive
    }

    /// Whether the value is a view into data of somebody else.
    pub open spec fn spec_is_borrowed(&self) -> bool {
        self.handle() is Shared
    }

    /// The value that borrows a view is borrowed, packs no capacity, and
    /// holds that very view. It is well formed if the layout holds the length
    /// of the view.
    pub proof fn lemma_borrowed(val: &'a T)
        ensures
            Self::spec_borrowed(val).handle() matches Handle::Shared(shared) && shared == val,
            Self::spec_borrowed(val).spec_capacity() == 0,
            Self::spec_borrowed(val)@ == val@,
            T::spec_len(val@) <= usize::MAX && within::<U>(T::spec_len(val@))
                ==> Self::spec_borrowed(val).wf(),
    {
        U::lemma_empty(T::spec_len(val@) as usize);
    }

    /// A buffer is owned exactly when the packed capacity is not zero, and
    /// that capacity has room for the contents.
    pub proof fn lemma_wf(self)
        requires
            self.wf(),
        ensures
            self.spec_is_owned() <==> self.spec_capacity() != 0,
            self.spec_is_owned() ==> self.spec_capacity() >= T::spec_len(self@),
    {
    }

    /// Puts a value together from its parts.
    fn from_parts(ptr: Handle<'a, T, T::Owned>, fat: usize, cap: U::Field) -> (cow:
        Self)
        requires
            U::spec_len(fat) == T::spec_len(ptr@),
            U::spec_maybe(fat, cap) is Some <==> ptr is Exclusive,
            U::spec_maybe(fat, cap) matches Some(nz) ==> {
                &&& U::spec_unpack(fat, nz).1 != 0
                &&& U::spec_unpack(fat, nz).1 >= T::spec_len(ptr@)
            },
        ensures
            cow.wf(),
            cow.handle() == ptr,
            cow.fat == fat,
            cow.cap == cap,
    {
        Cow { ptr, fat, cap }
    }

    /// Takes the value apart.
    fn to_parts(self) -> (r: (Handle<'a, T, T::Owned>, usize, U::Field))
        ensures
            r.0 == self.handle(),
            r.1 == self.fat,
            r.2 == self.cap,
            U::spec_len(r.1) == T::spec_len(r.0@),
            U::spec_maybe(r.1, r.2) is Some <==> r.0 is Exclusive,
    {
        proof {
            use_type_invariant(&self);
        }
        (self.ptr, self.fat, self.cap)
    }

    /// Borrowed data: a view of `val` for as long as `val` lives.
    pub fn borrowed(val: &'a T) -> (cow: Self)
        requires
            within::<U>(T::spec_len(val@)),
        ensures
            cow == Self::spec_borrowed(val),
            cow.wf(),
            cow.handle() matches Handle::Shared(shared) && shared == val,
            cow.spec_capacity() == 0,
    {
        let len: usize = val.len();
        let (ptr, fat, cap) = val.ref_into_parts::<U>();
        proof {
            U::lemma_empty(len);
        }
        Self::from_parts(ptr, fat, cap)
    }

    /// Owned data whose allocated capacity is `capacity`. The buffer moves
    /// in, nothing is copied. Where `U` cannot hold the capacity, the buffer
    /// comes back.
    pub fn owned_with_capacity(val: T::Owned, capacity: usize) -> (r: Result<Self, T::Owned>)
        requires
            T::spec_len(val@) <= capacity,
        ensures
            match r {
                Ok(cow) => {
                    &&& capacity <= U::limit()
                    &&& cow.wf()
                    &&& cow@ == val@
                    &&& cow.spec_capacity() == capacity
                    &&& cow.spec_is_owned() <==> capacity != 0
                    &&& capacity != 0 ==> (cow.handle() matches Handle::Exclusive(held) && held
                        == val)
                },
                Err(back) => capacity > U::limit() && back == val,
            },
    {
        if U::fits(capacity) {
            let ghost len = T::spec_len(val@) as usize;
            let (ptr, fat, cap) = T::owned_into_parts::<U>(val, capacity);
            proof {
                U::lemma_round_trip(len, capacity);
            }
            Ok(Self::from_parts(ptr, fat, cap))
        } else {
            Err(val)
        }
    }

    /// Owned data, if `U` can hold the capacity that was allocated for the
    /// buffer; the buffer itself if it cannot.
    pub fn try_owned(val: T::Owned) -> (r: Result<Self, T::Owned>)
        ensures
            match r {
                Ok(cow) => {
                    &&& cow.wf()
                    &&& cow@ == val@
                    &&& cow.spec_capacity() >= T::spec_len(val@)
                    &&& T::spec_len(val@) > 0 ==> cow.spec_is_owned()
                    &&& cow.spec_is_owned() ==> (cow.handle() matches Handle::Exclusive(held)
                        && held == val)
                },
                Err(back) => U::limit() < usize::MAX && back == val,
            },
            T::spec_len(val@) > U::limit() ==> r is Err,
    {
        let capacity: usize = T::capacity(&val);
        Self::owned_with_capacity(val, capacity)
    }

    /// Owned data, for a layout that holds every capacity.
    pub fn owned(val: T::Owned) -> (cow: Self)
        requires
            U::limit() == usize::MAX,
        ensures
            cow.wf(),
            cow@ == val@,
            cow.spec_capacity() >= T::spec_len(val@),
            T::spec_len(val@) > 0 ==> cow.spec_is_owned(),
            cow.spec_is_owned() ==> (cow.handle() matches Handle::Exclusive(held) && held == val),
    {
        let capacity: usize = T::capacity(&val);
        let ghost len = T::spec_len(val@) as usize;
        let (ptr, fat, cap) = T::owned_into_parts::<U>(val, capacity);
        proof {
            U::lemma_round_trip(len, capacity);
        }
        Self::from_parts(ptr, fat, cap)
    }

    /// The packed capacity, if there is one: the test of ownership.
    fn capacity(&self) -> (r: Option<U::NonZero>)
        ensures
            r == U::spec_maybe(self.fat, self.cap),
            r is Some <==> self.spec_is_owned(),
    {
        proof {
            use_type_invariant(self);
        }
        U::maybe(self.fat, self.cap)
    }

    /// Whether the data is borrowed, or is a buffer for which nothing was
    /// allocated.
    pub fn is_borrowed(&self) -> (r: bool)
        ensures
            r == self.spec_is_borrowed(),
    {
        self.capacity().is_none()
    }

    /// Whether the data is an owned buffer for which something was
    /// allocated.
    pub fn is_owned(&self) -> (r: bool)
        ensures
            r == self.spec_is_owned(),
    {
        self.capacity().is_some()
    }

    /// The view of the data, borrowed or owned.
    fn borrow(&self) -> (r: &T)
        ensures
            r@ == self@,
            self.handle() matches Handle::Shared(shared) ==> r == shared,
    {
        proof {
            use_type_invariant(self);
        }
        T::ref_from_parts::<U>(&self.ptr, self.fat)
    }

    /// The view of the data, borrowed or owned. Always there, and free: no
    /// test of ownership is made, and nothing changes hands.
    pub fn as_ref(&self) -> (r: &T)
        ensures
            r@ == self@,
            self.handle() matches Handle::Shared(shared) ==> r == shared,
    {
        self.borrow()
    }

    /// The view, if the data is borrowed.
    pub fn as_borrowed(&self) -> (r: Option<&T>)
        ensures
            match r {
                Some(view) => self.handle() matches Handle::Shared(shared) && shared == view,
                None => self.spec_is_owned(),
            },
    {
        if self.is_borrowed() {
            Some(self.borrow())
        } else {
            None
        }
    }

    /// The view that was borrowed, for as long as the data lives.
    pub fn unwrap_borrowed(self) -> (r: &'a T)
        requires
            self.spec_is_borrowed(),
        ensures
            self.handle() matches Handle::Shared(shared) && shared == r,
    {
        self.ptr.shared()
    }

    /// Whether `copy` can be a clone of this value. The clone of a borrowed
    /// value shares the same view, and nothing is allocated for it. The clone
    /// of an owned value holds a copy of the contents, in a buffer of its own
    /// if anything was allocated for the copy.
    pub open spec fn is_clone(self, copy: Self) -> bool {
        &&& copy.wf()
        &&& match self.handle() {
            Handle::Shared(shared) => copy.handle() matches Handle::Shared(again) && again
                == shared,
            Handle::Exclusive(held) => {
                &&& T::is_copy(held@, copy@)
                &&& T::spec_len(held@) > 0 ==> copy.spec_is_owned()
            },
        }
    }

    /// Whether `buffer` can be what [`Self::into_owned`] yields: the buffer
    /// that was owned, or a copy of what was borrowed.
    pub open spec fn is_extract(self, buffer: T::Owned) -> bool {
        match self.handle() {
            Handle::Exclusive(held) => buffer == held,
            Handle::Shared(shared) => T::is_copy(shared@, buffer@),
        }
    }

    /// Cloning a value and extracting the buffer of the clone, done twice,
    /// yields the same contents both times: those of the value. It is stated
    /// for families whose copies are exact.
    pub proof fn lemma_clone_into_owned(
        self,
        first_clone: Self,
        first: T::Owned,
        second_clone: Self,
        second: T::Owned,
    )
        requires
            self.wf(),
            exact_copies::<T>(),
            self.is_clone(first_clone),
            first_clone.is_extract(first),
            self.is_clone(second_clone),
            second_clone.is_extract(second),
        ensures
            first@ == self@,
            second@ == self@,
    {
    }

    /// A second value for the view that this one has borrowed.
    fn share(&self) -> (r: Self)
        requires
            self.spec_is_borrowed(),
        ensures
            self.is_clone(r),
    {
        proof {
            use_type_invariant(self);
        }
        match &self.ptr {
            Handle::Shared(shared) => Cow {
                ptr: Handle::Shared(*shared),
                fat: self.fat,
                cap: self.cap,
            },
            Handle::Exclusive(_) => vstd::pervasive::unreached(),
        }
    }

    /// A clone, if the layout can hold the capacity that is allocated for
    /// the copy of an owned buffer. A borrowed value always has one.
    pub fn try_clone(&self) -> (r: Option<Self>)
        ensures
            r matches Some(copy) ==> self.is_clone(copy),
            r is None ==> self.spec_is_owned() && U::limit() < usize::MAX,
    {
        proof {
            use_type_invariant(self);
        }
        match self.capacity() {
            Some(_) => {
                let copy = self.borrow().deep_copy();
                proof {
                    T::lemma_copy_len(self@, copy@);
                }
                match Self::try_owned(copy) {
                    Ok(cow) => {
                        proof {
                            cow.lemma_wf();
                        }
                        Some(cow)
                    },
                    Err(_) => None,
                }
            },
            None => Some(self.share()),
        }
    }

    /// The view that was borrowed, or the error that the data is owned: a
    /// buffer that is given up here cannot be borrowed from any longer.
    pub fn try_unwrap_borrowed(self) -> (r: Result<&'a T, OwnedVariantError>)
        ensures
            match r {
                Ok(view) => self.handle() matches Handle::Shared(shared) && shared == view,
                Err(_) => self.spec_is_owned(),
            },
    {
        if self.is_borrowed() {
            Ok(self.unwrap_borrowed())
        } else {
            Err(OwnedVariantError)
        }
    }

    /// The data as a buffer. An owned buffer moves out as it is; borrowed
    /// data is copied into a fresh one.
    pub fn into_owned(self) -> (r: T::Owned)
        ensures
            self.is_extract(r),
    {
        proof {
            use_type_invariant(&self);
        }
        match self.capacity() {
            Some(capacity) => {
                proof {
                    U::lemma_unpack(self.fat, capacity);
                }
                T::owned_from_parts::<U>(self.ptr, self.fat, capacity)
            },
            None => T::ref_from_parts::<U>(&self.ptr, self.fat).deep_copy(),
        }
    }
}

/// The contents of a clone-on-write value of std.
pub open spec fn std_view<T>(cow: StdCow<'_, T>) -> T::V where
    T: Beef + ?Sized + ToOwned<Owned = <T as Beef>::Owned>,
 {
    match cow {
        StdCow::Borrowed(borrowed) => borrowed@,
        StdCow::Owned(owned) => owned@,
    }
}

impl<'a, T, U> Cow<'a, T, U> where
    T: Beef + ?Sized + ToOwned<Owned = <T as Beef>::Owned>,
    U: Capacity,
 {
    /// Takes a clone-on-write value of std apart, variant by variant.
    fn std_into_parts(cow: StdCow<'a, T>) -> (r: (
        Handle<'a, T, <T as Beef>::Owned>,
        usize,
        U::Field,
    ))
        requires
            cow is Borrowed ==> within::<U>(T::spec_len(std_view(cow))),
            cow is Owned ==> U::limit() == usize::MAX,
        ensures
            r.0@ == std_view(cow),
            U::spec_len(r.1) == T::spec_len(r.0@),
            U::spec_maybe(r.1, r.2) is Some <==> r.0 is Exclusive,
            U::spec_maybe(r.1, r.2) matches Some(nz) ==> {
                &&& U::spec_unpack(r.1, nz).1 != 0
                &&& U::spec_unpack(r.1, nz).1 >= T::spec_len(r.0@)
            },
            cow matches StdCow::Borrowed(borrowed) ==> (r.0 matches Handle::Shared(shared)
                && shared == borrowed),
            cow matches StdCow::Owned(owned) ==> {
                &&& r.0 matches Handle::Exclusive(held) ==> held == owned
                &&& T::spec_len(owned@) > 0 ==> r.0 is Exclusive
            },
    {
        match cow {
            StdCow::Borrowed(borrowed) => {
                let len: usize = borrowed.len();
                proof {
                    U::lemma_empty(len);
                }
                borrowed.ref_into_parts::<U>()
            },
            StdCow::Owned(owned) => {
                let capacity: usize = T::capacity(&owned);
                proof {
                    U::lemma_round_trip(T::spec_len(owned@) as usize, capacity);
                }
                T::owned_into_parts::<U>(owned, capacity)
            },
        }
    }

    /// Puts a value together from the parts of a clone-on-write value of std.
    fn rt_from_cow(ptr: Handle<'a, T, <T as Beef>::Owned>, fat: usize, cap: U::Field) -> (cow:
        Self)
        requires
            U::spec_len(fat) == T::spec_len(ptr@),
            U::spec_maybe(fat, cap) is Some <==> ptr is Exclusive,
            U::spec_maybe(fat, cap) matches Some(nz) ==> {
                &&& U::spec_unpack(fat, nz).1 != 0
                &&& U::spec_unpack(fat, nz).1 >= T::spec_len(ptr@)
            },
        ensures
            cow.wf(),
            cow.handle() == ptr,
    {
        Self::from_parts(ptr, fat, cap)
    }

    /// Whether `cow` can be what [`Self::from_std_cow`] makes of `std`: the
    /// contents are the same, what was borrowed is borrowed, and what was
    /// owned is owned unless nothing was allocated for it.
    pub open spec fn is_from_std(std: StdCow<'a, T>, cow: Self) -> bool {
        &&& cow.wf()
        &&& cow@ == std_view(std)
        &&& match std {
            StdCow::Borrowed(borrowed) => cow.handle() matches Handle::Shared(shared) && shared
                == borrowed,
            StdCow::Owned(owned) => {
                &&& cow.handle() matches Handle::Exclusive(held) ==> held == owned
                &&& T::spec_len(owned@) > 0 ==> cow.spec_is_owned()
            },
        }
    }

    /// A clone-on-write value of std that is made into a value of this type
    /// and back has the contents it had. It comes back as it was, variant and
    /// all, if it was borrowed, and if it was owned and anything was allocated
    /// for it; an owned buffer for which nothing was allocated comes back as
    /// a borrowed empty view.
    pub proof fn lemma_std_round_trip(std: StdCow<'a, T>, cow: Self)
        requires
            Self::is_from_std(std, cow),
        ensures
            std_view(std_of(cow.handle())) == std_view(std),
            std is Borrowed || cow.spec_is_owned() ==> std_of(cow.handle()) == std,
            std is Owned && T::spec_len(std_view(std)) > 0 ==> cow.spec_is_owned(),
    {
    }

    /// The value for a clone-on-write value of std: borrowed for `Borrowed`,
    /// owned for `Owned`, with nothing copied.
    pub fn from_std_cow(cow: StdCow<'a, T>) -> (r: Self)
        requires
            cow is Borrowed ==> within::<U>(T::spec_len(std_view(cow))),
            cow is Owned ==> U::limit() == usize::MAX,
        ensures
            Self::is_from_std(cow, r),
    {
        let (ptr, fat, cap) = Self::std_into_parts(cow);
        let r = Self::rt_from_cow(ptr, fat, cap);
        proof {
            r.lemma_wf();
        }
        r
    }

    /// The clone-on-write value of std for this value: `Borrowed` with the
    /// view if it is borrowed, `Owned` with the buffer if it is owned.
    pub fn into_std_cow(self) -> (r: StdCow<'a, T>)
        ensures
            r == std_of(self.handle()),
    {
        let (ptr, fat, cap) = self.to_parts();
        Self::rt_into_cow(ptr, fat, cap)
    }

    /// Puts a clone-on-write value of std together from the parts of a value
    /// of this type: `Owned` if the pair holds a capacity, `Borrowed` if not.
    fn rt_into_cow(ptr: Handle<'a, T, <T as Beef>::Owned>, fat: usize, cap: U::Field) -> (r:
        StdCow<'a, T>)
        requires
            U::spec_len(fat) == T::spec_len(ptr@),
            U::spec_maybe(fat, cap) is Some <==> ptr is Exclusive,
        ensures
            r == std_of(ptr),
    {
        match U::maybe(fat, cap) {
            Some(capacity) => {
                proof {
                    U::lemma_unpack(fat, capacity);
                }
                StdCow::Owned(T::owned_from_parts::<U>(ptr, fat, capacity))
            },
            None => StdCow::Borrowed(ptr.shared()),
        }
    }
}

/// The clone-on-write value of std that stands for a handle.
pub open spec fn std_of<'a, T>(handle: Handle<'a, T, <T as Beef>::Owned>) -> StdCow<'a, T> where
    T: Beef + ?Sized + ToOwned<Owned = <T as Beef>::Owned>,
 {
    match handle {
        Handle::Shared(shared) => StdCow::Borrowed(shared),
        Handle::Exclusive(held) => StdCow::Owned(held),
    }
}

impl<'a, T, U> From<Cow<'a, T, U>> for StdCow<'a, T> where
    T: Beef + ?Sized + ToOwned<Owned = <T as Beef>::Owned>,
    U: Capacity,
 {
    /// `Borrowed` for borrowed data, `Owned` for owned data.
    fn from(cow: Cow<'a, T, U>) -> (r: Self) {
        cow.into_std_cow()
    }
}

impl<'a, T, U> FromSpecImpl<Cow<'a, T, U>> for StdCow<'a, T> where
    T: Beef + ?Sized + ToOwned<Owned = <T as Beef>::Owned>,
    U: Capacity,
 {
    open spec fn obeys_from_spec() -> bool {
        true
    }

    open spec fn from_spec(cow: Cow<'a, T, U>) -> Self {
        std_of(cow.handle())
    }
}

impl<'a, T: Beef + ?Sized, U: Capacity> std::ops::Deref for Cow<'a, T, U> {
    type Target = T;

    /// The view of the data, borrowed or owned.
    fn deref(&self) -> (r: &T)
        ensures
            r@ == self@,
            self.handle() matches Handle::Shared(shared) ==> r == shared,
    {
        self.borrow()
    }
}

impl<'a, T: Beef + ?Sized, U: Capacity> AsRef<T> for Cow<'a, T, U> {
    /// The view of the data, borrowed or owned.
    fn as_ref(&self) -> (r: &T)
        ensures
            r@ == self@,
            self.handle() matches Handle::Shared(shared) ==> r == shared,
    {
        self.borrow()
    }
}

impl<'a, T: Beef + ?Sized, U: Capacity> std::borrow::Borrow<T> for Cow<'a, T, U> {
    /// The view of the data, borrowed or owned.
    fn borrow(&self) -> (r: &T)
        ensures
            r@ == self@,
            self.handle() matches Handle::Shared(shared) ==> r == shared,
    {
        self.as_ref()
    }
}

impl<'a, T: Beef + ?Sized, U: Capacity> Default for Cow<'a, T, U> {
    /// A borrowed view of the sequence without contents.
    fn default() -> (cow: Self)
        ensures
            cow.wf(),
            cow.spec_is_borrowed(),
            T::spec_len(cow@) == 0,
    {
        Cow::borrowed(T::empty())
    }
}

impl<'a, U: Capacity> Cow<'a, str, U> {
    /// The text as a string of its own: what the value displays as.
    pub fn to_string(&self) -> (r: String)
        ensures
            r@ == self@,
    {
        self.borrow().to_owned()
    }
}

impl<'a> Cow<'a, str, Wide> {
    /// Borrowed data. Does what [`Cow::borrowed`] does, for `str` and the
    /// wide layout alone.
    pub fn const_str(val: &'a str) -> (cow: Self)
        ensures
            cow == Self::spec_borrowed(val),
            cow.wf(),
            cow.handle() matches Handle::Shared(shared) && shared == val,
            cow.spec_capacity() == 0,
    {
        Cow { ptr: Handle::Shared(val), fat: val.as_bytes().len(), cap: None }
    }
}

impl<'a> Cow<'a, str, Lean> {
    /// Borrowed data. Does what [`Cow::borrowed`] does, for `str` and the
    /// lean layout alone.
    pub fn const_str(val: &'a str) -> (cow: Self)
        requires
            str::spec_len(val@) <= half_max(),
        ensures
            cow == Self::spec_borrowed(val),
            cow.wf(),
            cow.handle() matches Handle::Shared(shared) && shared == val,
            cow.spec_capacity() == 0,
    {
        let len: usize = val.as_bytes().len();
        proof {
            Lean::lemma_empty(len);
        }
        Cow { ptr: Handle::Shared(val), fat: Lean::mask_len(len), cap: Lean }
    }
}

impl<'a, T: Clone> Cow<'a, [T], Wide> {
    /// Borrowed data. Does what [`Cow::borrowed`] does, for slices and the
    /// wide layout alone.
    pub fn const_slice(val: &'a [T]) -> (cow: Self)
        ensures
            cow == Self::spec_borrowed(val),
            cow.wf(),
            cow.handle() matches Handle::Shared(shared) && shared == val,
            cow.spec_capacity() == 0,
    {
        Cow { ptr: Handle::Shared(val), fat: val.len(), cap: None }
    }
}

impl<'a, T: Clone> Cow<'a, [T], Lean> {
    /// Borrowed data. Does what [`Cow::borrowed`] does, for slices and the
    /// lean layout alone.
    pub fn const_slice(val: &'a [T]) -> (cow: Self)
        requires
            val@.len() <= half_max(),
        ensures
            cow == Self::spec_borrowed(val),
            cow.wf(),
            cow.handle() matches Handle::Shared(shared) && shared == val,
            cow.spec_capacity() == 0,
    {
        let len: usize = val.len();
        proof {
            Lean::lemma_empty(len);
        }
        Cow { ptr: Handle::Shared(val), fat: Lean::mask_len(len), cap: Lean }
    }
}

} // verus!
