use beef::generic;
use beef::lean;
use beef::skinny;
use beef::traits::Beef;
use beef::traits::Handle;
use beef::wide::Wide;
use beef::Cow;
use beef::OwnedVariantError;

#[test]
fn wide_borrowed_str() {
    let s = "Hello World";
    let c: Cow<str> = Cow::borrowed(s);

    assert_eq!(s, c.as_ref());
    assert!(c.is_borrowed());
    assert!(!c.is_owned());
    assert_eq!(c.as_borrowed(), Some(s));
    assert_eq!(c.unwrap_borrowed(), s);
}

#[test]
fn lean_borrowed_str() {
    let s = "Hello World";
    let c: lean::Cow<str> = lean::Cow::borrowed(s);

    assert_eq!(s, c.as_ref());
    assert!(c.is_borrowed());
    assert!(!c.is_owned());
    assert_eq!(c.unwrap_borrowed(), s);
}

#[test]
fn skinny_borrowed_str() {
    let s = "Hello World";
    let c: skinny::Cow<str> = skinny::Cow::borrowed(s);

    assert_eq!(s, c.as_ref());
    assert!(c.is_borrowed());
    assert_eq!(c.unwrap_borrowed(), s);
}

#[test]
fn wide_owned_string() {
    let s = String::from("Hello World");
    let c: Cow<str> = Cow::owned(s.clone());

    assert_eq!(s, c.as_ref());
    assert!(c.is_owned());
    assert!(!c.is_borrowed());
    assert_eq!(c.as_borrowed(), None);
}

#[test]
fn lean_owned_string() {
    let s = String::from("Hello World");
    let c: lean::Cow<str> = lean::Cow::try_owned(s.clone()).unwrap();

    assert_eq!(s, c.as_ref());
    assert!(c.is_owned());
    assert_eq!(c.into_owned(), s);
}

#[test]
fn skinny_owned_string() {
    if usize::BITS == 64 {
        let s = String::from("Hello World");
        let c: skinny::Cow<str> = skinny::Cow::try_owned(s.clone()).unwrap();

        assert_eq!(s, c.as_ref());
        assert!(c.is_owned());
        assert_eq!(c.into_owned(), s);
    }
}

#[test]
fn wide_into_owned() {
    let hello = "Hello World";
    let borrowed: Cow<str> = Cow::borrowed(hello);
    let owned: Cow<str> = Cow::owned(String::from(hello));

    assert_eq!(borrowed.into_owned(), hello);
    assert_eq!(owned.into_owned(), hello);
}

#[test]
fn lean_into_owned() {
    let hello = "Hello World";
    let borrowed: lean::Cow<str> = lean::Cow::borrowed(hello);
    let owned: lean::Cow<str> = lean::Cow::try_owned(String::from(hello)).unwrap();

    assert_eq!(borrowed.into_owned(), hello);
    assert_eq!(owned.into_owned(), hello);
}

#[test]
fn into_owned_hands_back_the_same_buffer() {
    let mut s = String::with_capacity(64);
    s.push_str("abc");
    let at = s.as_ptr();
    let c: Cow<str> = Cow::owned(s);
    let back = c.into_owned();
    assert_eq!(back.as_ptr(), at);
    assert_eq!(back, "abc");
    assert!(back.capacity() >= 64);
}

#[test]
fn wide_borrowed_slice() {
    let s: &[i32] = &[1, 2, 42];
    let c: Cow<[i32]> = Cow::borrowed(s);

    assert_eq!(s, c.as_ref());
    assert!(c.is_borrowed());
}

#[test]
fn lean_borrowed_slice() {
    let s: &[i32] = &[1, 2, 42];
    let c: lean::Cow<[i32]> = lean::Cow::borrowed(s);

    assert_eq!(s, c.as_ref());
    assert!(c.is_borrowed());
}

#[test]
fn wide_owned_slice() {
    let s = vec![1, 2, 42];
    let c: Cow<[i32]> = Cow::owned(s.clone());

    assert_eq!(s.as_slice(), c.as_ref());
    assert!(c.is_owned());
}

#[test]
fn lean_owned_slice() {
    let s = vec![1, 2, 42];
    let c: lean::Cow<[i32]> = lean::Cow::try_owned(s.clone()).unwrap();

    assert_eq!(s.as_slice(), c.as_ref());
    assert!(c.is_owned());
}

#[test]
fn wide_into_owned_vec() {
    let hello: &[u8] = b"Hello World";
    let borrowed: Cow<[u8]> = Cow::borrowed(hello);
    let owned: Cow<[u8]> = Cow::owned(hello.to_vec());

    assert_eq!(borrowed.into_owned(), hello);
    assert_eq!(owned.into_owned(), hello);
}

#[test]
fn lean_into_owned_vec() {
    let hello: &[u8] = b"Hello World";
    let borrowed: lean::Cow<[u8]> = lean::Cow::borrowed(hello);
    let owned: lean::Cow<[u8]> = lean::Cow::try_owned(hello.to_vec()).unwrap();

    assert_eq!(borrowed.into_owned(), hello);
    assert_eq!(owned.into_owned(), hello);
}

#[test]
fn wide_from_std_cow() {
    let std = std::borrow::Cow::Borrowed("Hello World");
    let beef: Cow<str> = Cow::from(std.clone());

    assert_eq!(&*std, beef.as_ref());
}

#[test]
fn lean_from_std_cow() {
    let std = std::borrow::Cow::Borrowed("Hello World");
    let beef: lean::Cow<str> = lean::Cow::from_std_cow(std.clone());

    assert_eq!(&*std, beef.as_ref());
}

#[test]
fn std_cow_round_trip_keeps_the_variant() {
    let borrowed: std::borrow::Cow<str> = std::borrow::Cow::Borrowed("Hello");
    let back: std::borrow::Cow<str> = Cow::from(borrowed.clone()).into();
    assert!(matches!(back, std::borrow::Cow::Borrowed("Hello")));
    assert_eq!(back, borrowed);

    let owned: std::borrow::Cow<str> = std::borrow::Cow::Owned(String::from("World"));
    let back: std::borrow::Cow<str> = Cow::from(owned.clone()).into_std_cow();
    assert!(matches!(back, std::borrow::Cow::Owned(_)));
    assert_eq!(back, owned);

    let owned: std::borrow::Cow<[u8]> = std::borrow::Cow::Owned(vec![1, 2, 3]);
    let back: std::borrow::Cow<[u8]> = Cow::from(owned.clone()).into_std_cow();
    assert!(matches!(back, std::borrow::Cow::Owned(_)));
    assert_eq!(back, owned);
}

#[test]
fn std_cow_without_allocation_comes_back_borrowed() {
    let owned: std::borrow::Cow<str> = std::borrow::Cow::Owned(String::new());
    let cow: Cow<str> = Cow::from(owned.clone());
    assert!(cow.is_borrowed());
    let back = cow.into_std_cow();
    assert!(matches!(back, std::borrow::Cow::Borrowed("")));
    assert_eq!(back, owned);
}

#[test]
fn borrowed_equals_owned_with_the_same_contents() {
    let borrowed: Cow<str> = Cow::borrowed("Hello");
    let owned: Cow<str> = Cow::owned(String::from("Hello"));
    assert!(borrowed == owned);
    assert!(owned == borrowed);
    assert!(borrowed.is_borrowed() && owned.is_owned());

    let other: Cow<str> = Cow::owned(String::from("Hellp"));
    assert!(borrowed != other);
    let shorter: Cow<str> = Cow::borrowed("Hell");
    assert!(borrowed != shorter);
}

#[test]
fn equality_across_layouts() {
    let wide: Cow<str> = Cow::borrowed("Hello");
    let lean: lean::Cow<str> = lean::Cow::try_owned(String::from("Hello")).unwrap();
    assert!(wide == lean);
    assert!(lean == wide);
}

#[test]
fn slices_compare_element_by_element() {
    let a: Cow<[i32]> = Cow::borrowed(&[1, 2, 3]);
    let b: Cow<[i32]> = Cow::owned(vec![1, 2, 3]);
    let c: Cow<[i32]> = Cow::owned(vec![1, 2, 4]);
    let d: Cow<[i32]> = Cow::owned(vec![1, 2]);
    assert!(a == b);
    assert!(a != c);
    assert!(a != d);
}

#[test]
fn str_eq_and_slice_eq() {
    assert!(beef::compare::str_eq("", ""));
    assert!(beef::compare::str_eq("héllo", "héllo"));
    assert!(!beef::compare::str_eq("héllo", "hello"));
    assert!(!beef::compare::str_eq("a", "ab"));
    assert!(beef::compare::slice_eq::<u8>(&[], &[]));
    assert!(beef::compare::slice_eq(&[1, 2], &[1, 2]));
    assert!(!beef::compare::slice_eq(&[1, 2], &[2, 1]));
}

#[test]
fn clone_of_borrowed_shares_the_view() {
    let s = String::from("shared");
    let c: Cow<str> = Cow::borrowed(s.as_str());
    let d = c.clone();
    assert!(d.is_borrowed());
    assert_eq!(d.as_ref().as_ptr(), s.as_ptr());
    assert_eq!(c.as_ref().as_ptr(), s.as_ptr());
    assert!(c == d);
}

#[test]
fn clone_of_owned_is_a_buffer_of_its_own() {
    let c: Cow<str> = Cow::owned(String::from("mine"));
    let d = c.clone();
    assert!(d.is_owned());
    assert!(c == d);
    assert_ne!(c.as_ref().as_ptr(), d.as_ref().as_ptr());

    let mut changed = d.into_owned();
    changed.push_str(" and more");
    assert_eq!(changed, "mine and more");
    assert_eq!(c.as_ref(), "mine");
    assert_eq!(c.into_owned(), "mine");
}

#[test]
fn try_clone_in_two_words() {
    let c: lean::Cow<[u8]> = lean::Cow::try_owned(vec![1, 2, 3]).unwrap();
    let d = c.try_clone().unwrap();
    assert!(d.is_owned());
    assert!(c == d);
    assert_ne!(c.as_ref().as_ptr(), d.as_ref().as_ptr());

    let b: lean::Cow<[u8]> = lean::Cow::borrowed(&[7, 8]);
    let e = b.try_clone().unwrap();
    assert!(e.is_borrowed());
    assert_eq!(e.as_ref(), &[7, 8]);
}

#[test]
fn clone_then_into_owned_twice_gives_the_same_contents() {
    let borrowed: Cow<str> = Cow::borrowed("again");
    assert_eq!(borrowed.clone().into_owned(), borrowed.clone().into_owned());
    assert_eq!(borrowed.clone().into_owned(), "again");

    let owned: Cow<[u16]> = Cow::owned(vec![3, 2, 1]);
    assert_eq!(owned.clone().into_owned(), owned.clone().into_owned());
    assert_eq!(owned.clone().into_owned(), vec![3, 2, 1]);
}

#[test]
fn buffer_without_allocation_counts_as_borrowed() {
    let no_capacity: Cow<str> = Cow::owned(String::new());
    assert!(no_capacity.is_borrowed());
    assert!(!no_capacity.is_owned());
    assert_eq!(no_capacity.as_ref(), "");
    assert_eq!(no_capacity.unwrap_borrowed(), "");

    let no_capacity: Cow<[u8]> = Cow::owned(Vec::new());
    assert!(no_capacity.is_borrowed());
    assert_eq!(no_capacity.into_owned(), Vec::<u8>::new());
}

#[test]
fn empty_buffer_with_allocation_is_owned() {
    let c: Cow<str> = Cow::owned(String::with_capacity(10));
    assert!(c.is_owned());
    assert_eq!(c.as_ref(), "");
    let back = c.into_owned();
    assert!(back.capacity() >= 10);
}

#[test]
fn capacity_is_the_allocated_one() {
    let mut s = String::with_capacity(100);
    s.push('x');
    assert!(<str as Beef>::capacity(&s) >= 100);
    assert_eq!(<str as Beef>::capacity(&s), s.capacity());

    let mut v: Vec<u32> = Vec::with_capacity(50);
    v.push(1);
    assert!(<[u32] as Beef>::capacity(&v) >= 50);
    assert_eq!(<[u32] as Beef>::capacity(&v), v.capacity());
}

#[test]
fn len_counts_bytes_and_elements() {
    assert_eq!(<str as Beef>::len("héllo"), 6);
    assert_eq!(<str as Beef>::len(""), 0);
    assert_eq!(<[u32] as Beef>::len(&[1, 2, 3]), 3);
    assert_eq!(<str as Beef>::empty(), "");
    assert_eq!(<[u32] as Beef>::empty(), &[] as &[u32]);
}

#[test]
fn parts_of_a_view_and_of_a_buffer() {
    let (handle, fat, field) = "abc".ref_into_parts::<Wide>();
    assert!(matches!(handle, Handle::Shared("abc")));
    assert_eq!(fat, 3);
    assert!(field.is_none());
    assert_eq!(<str as Beef>::ref_from_parts::<Wide>(&handle, fat), "abc");

    let (handle, fat, field) = <str as Beef>::owned_into_parts::<Wide>(String::from("abcd"), 8);
    assert!(matches!(handle, Handle::Exclusive(_)));
    assert_eq!(fat, 4);
    assert_eq!(field.unwrap().get(), 8);
    assert_eq!(<str as Beef>::ref_from_parts::<Wide>(&handle, fat), "abcd");
    let back = <str as Beef>::owned_from_parts::<Wide>(handle, fat, field.unwrap());
    assert_eq!(back, "abcd");

    let (handle, fat, field) = <[u8] as Beef>::owned_into_parts::<Wide>(Vec::new(), 0);
    assert!(matches!(handle, Handle::Shared(_)));
    assert_eq!(fat, 0);
    assert!(field.is_none());
}

#[test]
fn deep_copy_copies() {
    let s = "copy me";
    let copy = s.deep_copy();
    assert_eq!(copy, s);
    assert_ne!(copy.as_ptr(), s.as_ptr());

    let v: &[String] = &[String::from("a"), String::from("b")];
    let copy = v.deep_copy();
    assert_eq!(copy, v);
}

#[test]
fn owned_with_capacity_beyond_two_words() {
    if usize::BITS == 64 {
        let capacity: usize = 1 << 32;

        let r = lean::Cow::<str>::owned_with_capacity(String::from("big"), capacity);
        assert_eq!(r.unwrap_err(), "big");

        let r = skinny::Cow::<str>::owned_with_capacity(String::from("big"), capacity);
        assert_eq!(r.unwrap_err(), "big");

        let c = Cow::<str>::owned_with_capacity(String::from("big"), capacity).unwrap();
        assert!(c.is_owned());
        assert_eq!(c.as_ref(), "big");
        assert_eq!(c.into_owned(), "big");
    }
}

#[test]
fn owned_with_capacity_at_the_limit_of_two_words() {
    let limit = usize::MAX >> (usize::BITS / 2);
    let c = lean::Cow::<str>::owned_with_capacity(String::from("fits"), limit).unwrap();
    assert!(c.is_owned());
    assert_eq!(c.into_owned(), "fits");
    let r = lean::Cow::<str>::owned_with_capacity(String::from("fits"), limit + 1);
    assert!(r.is_err());
}

#[test]
fn owned_with_capacity_zero_is_borrowed() {
    let c = Cow::<str>::owned_with_capacity(String::new(), 0).unwrap();
    assert!(c.is_borrowed());
    let c = lean::Cow::<[u8]>::owned_with_capacity(Vec::new(), 0).unwrap();
    assert!(c.is_borrowed());
}

#[test]
fn unwrap_borrowed_or_the_error() {
    let borrowed: Cow<str> = Cow::borrowed("foobar");
    let owned: Cow<str> = Cow::owned("foobar".to_owned());

    assert_eq!(borrowed.clone().try_unwrap_borrowed(), Ok("foobar"));
    assert_eq!(owned.clone().try_unwrap_borrowed(), Err(OwnedVariantError));

    assert_eq!(borrowed.as_ref(), "foobar");
    assert_eq!(owned.as_ref(), "foobar");
}

#[test]
fn the_error_says_what_to_do() {
    assert_eq!(
        OwnedVariantError.to_string(),
        "Owned variant of beef::Cow cannot be converted to a borrowed slice, try using `as_ref()` instead."
    );
}

#[test]
fn const_str_and_const_slice() {
    let c: Cow<str> = Cow::const_str("Hello");
    assert!(c.is_borrowed());
    assert_eq!(c.as_ref(), "Hello");
    assert!(c == Cow::borrowed("Hello"));

    let c: lean::Cow<str> = lean::Cow::const_str("Hello");
    assert!(c.is_borrowed());
    assert_eq!(c.unwrap_borrowed(), "Hello");

    let c: Cow<[u8]> = Cow::const_slice(&[1, 2, 3]);
    assert!(c.is_borrowed());
    assert_eq!(c.as_ref(), &[1, 2, 3]);

    let c: lean::Cow<[u8]> = lean::Cow::const_slice(&[1, 2, 3]);
    assert!(c.is_borrowed());
    assert_eq!(c.unwrap_borrowed(), &[1, 2, 3]);
}

#[test]
fn default_is_an_empty_view() {
    let c: Cow<str> = Default::default();
    assert!(c.is_borrowed());
    assert_eq!(c.as_ref(), "");
    let c: lean::Cow<[u8]> = Default::default();
    assert!(c.is_borrowed());
    assert!(c.as_ref().is_empty());
}

#[test]
fn from_reference_string_and_vec() {
    let c: Cow<str> = "view".into();
    assert!(c.is_borrowed());
    let c: Cow<str> = String::from("buffer").into();
    assert!(c.is_owned());
    assert_eq!(c.as_ref(), "buffer");
    let c: Cow<[u8]> = vec![1u8, 2].into();
    assert!(c.is_owned());
    assert_eq!(c.as_ref(), &[1, 2]);
    let c: generic::Cow<[u8], Wide> = (&[5u8, 6][..]).into();
    assert!(c.is_borrowed());
}

#[test]
fn buffer_of_a_capacity_that_two_words_cannot_hold() {
    // A vector of elements without size reports the largest capacity there is.
    let units: Vec<()> = vec![(), (), ()];
    assert_eq!(<[()] as Beef>::capacity(&units), usize::MAX);

    let back = lean::Cow::<[()]>::try_owned(units).unwrap_err();
    assert_eq!(back.len(), 3);

    let back = skinny::Cow::<[()]>::try_owned(back).unwrap_err();
    assert_eq!(back.len(), 3);

    let cow = Cow::<[()]>::try_owned(back).unwrap();
    assert!(cow.is_owned());
    assert_eq!(cow.as_ref().len(), 3);
    let copy = cow.clone();
    assert!(copy.is_owned());
    assert_eq!(copy.into_owned().len(), 3);
    assert_eq!(cow.into_owned().len(), 3);
}
