use beef::lean;
use beef::order::slice_partial_cmp;
use beef::order::str_partial_cmp;
use beef::Cow;
use std::cmp::Ordering;

#[test]
fn borrowed_str() {
    let s = "Hello World";
    let c: Cow<str> = Cow::borrowed(s);

    assert_eq!(s, c);
    assert_eq!(s, c.as_ref());
    assert_eq!(s, &*c);
    assert_eq!(c, s);
    assert_eq!(c, *s);
    assert_eq!(*s, c);
}

#[test]
fn owned_string() {
    let s = String::from("Hello World");
    let c: Cow<str> = Cow::owned(s.clone());

    assert_eq!(s, c);
    assert_eq!(c, s);
}

#[test]
fn borrowed_slice() {
    let s: &[i32] = &[1, 2, 42];
    let c: Cow<[i32]> = Cow::borrowed(s);

    assert_eq!(s, c);
    assert_eq!(s, c.as_ref());
    assert_eq!(s, &*c);
    assert_eq!(c, s);
    assert_eq!(c, *s);
    assert_eq!(*s, c);
}

#[test]
fn owned_slice() {
    let s = vec![1, 2, 42];
    let c: Cow<[i32]> = Cow::owned(s.clone());

    assert_eq!(s, c);
    assert_eq!(c, s);
}

#[test]
fn lean_compares_with_plain_sequences() {
    let c: lean::Cow<str> = lean::Cow::borrowed("Hello World");
    assert_eq!("Hello World", c);
    assert_ne!("Hello Worlds", c);
    assert_ne!(c, String::from("hello world"));

    let c: lean::Cow<[u8]> = lean::Cow::try_owned(vec![1, 2]).unwrap();
    assert_eq!(c, vec![1, 2]);
    assert_ne!(c, vec![1, 2, 3]);
    assert_ne!(vec![2, 1], c);
}

#[test]
fn values_are_ordered_by_their_contents() {
    let a: Cow<str> = Cow::borrowed("apple");
    let b: Cow<str> = Cow::owned(String::from("banana"));
    let a2: Cow<str> = Cow::owned(String::from("apple"));
    let ap: Cow<str> = Cow::borrowed("app");

    assert!(a < b);
    assert!(b > a);
    assert!(a <= a2);
    assert!(a >= a2);
    assert!(ap < a);
    assert_eq!(a.partial_cmp(&b), Some(Ordering::Less));
    assert_eq!(b.partial_cmp(&a), Some(Ordering::Greater));
    assert_eq!(a.partial_cmp(&a2), Some(Ordering::Equal));
    assert_eq!(a.partial_cmp(&ap), Some(Ordering::Greater));
}

#[test]
fn order_across_layouts() {
    let a: Cow<[u8]> = Cow::borrowed(&[1, 2, 3]);
    let b: lean::Cow<[u8]> = lean::Cow::borrowed(&[1, 3]);
    assert!(a < b);
    assert_eq!(b.partial_cmp(&a), Some(Ordering::Greater));
}

#[test]
fn order_of_strings_is_that_of_std() {
    let words = ["", "a", "ab", "b", "é", "z", "zz", "日本", "abc"];
    for x in words {
        for y in words {
            assert_eq!(str_partial_cmp(x, y), x.partial_cmp(y));
        }
    }
}

#[test]
fn order_of_slices_is_that_of_std() {
    let rows: [&[i32]; 6] = [&[], &[1], &[1, 2], &[2], &[1, 2, 3], &[-1, 5]];
    for x in rows {
        for y in rows {
            assert_eq!(slice_partial_cmp(x, y), x.partial_cmp(y));
        }
    }
}

#[test]
fn order_stops_at_what_cannot_be_compared() {
    let nan = f64::NAN;
    assert_eq!(slice_partial_cmp(&[1.0, nan, 3.0], &[1.0, 2.0, 4.0]), None);
    assert_eq!(slice_partial_cmp(&[0.0, nan], &[1.0, 2.0]), Some(Ordering::Less));
    assert_eq!(slice_partial_cmp(&[1.0], &[1.0, nan]), Some(Ordering::Less));
}

#[test]
fn text_displays_as_itself() {
    let borrowed: Cow<str> = Cow::borrowed("Hello");
    let owned: Cow<str> = Cow::owned(String::from("World"));
    assert_eq!(
        format!("{} {}!", borrowed.to_string(), owned.to_string()),
        "Hello World!"
    );
}

#[test]
fn a_value_stands_in_for_its_view() {
    fn generic_len<S: AsRef<str>>(s: S) -> usize {
        s.as_ref().len()
    }
    fn borrowed_len<S: std::borrow::Borrow<[u8]>>(s: S) -> usize {
        s.borrow().len()
    }

    let c: Cow<str> = Cow::owned(String::from("five!"));
    assert_eq!(c.len(), 5);
    assert!(c.starts_with("fi"));
    assert_eq!(generic_len(c), 5);

    let c: lean::Cow<[u8]> = lean::Cow::borrowed(&[1, 2, 3]);
    assert_eq!(c.iter().sum::<u8>(), 6);
    assert_eq!(borrowed_len(c), 3);
}
