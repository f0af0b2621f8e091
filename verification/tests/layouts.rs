use beef::lean::Lean;
use beef::skinny::Cursed;
use beef::traits::Capacity;
use beef::wide::NonZeroCapacity;
use beef::wide::Wide;

#[test]
fn wide_store_round_trips() {
    let (fat, field) = Wide::store(11, 16);
    assert_eq!(fat, 11);
    let nz = Wide::maybe(fat, field).unwrap();
    assert_eq!(nz.get(), 16);
    assert_eq!(Wide::unpack(fat, nz), (11, 16));
    assert_eq!(Wide::len(fat), 11);
}

#[test]
fn wide_store_holds_the_whole_range() {
    let (fat, field) = Wide::store(usize::MAX, usize::MAX);
    let nz = Wide::maybe(fat, field).unwrap();
    assert_eq!(Wide::unpack(fat, nz), (usize::MAX, usize::MAX));
    assert!(Wide::fits(usize::MAX));
    assert!(Wide::fits(0));
}

#[test]
fn wide_empty_holds_no_capacity() {
    let (fat, field) = Wide::empty(7);
    assert_eq!(fat, 7);
    assert!(field.is_none());
    assert!(Wide::maybe(fat, field).is_none());
}

#[test]
fn wide_zero_capacity_packs_as_borrowed() {
    let (fat, field) = Wide::store(0, 0);
    assert_eq!(fat, 0);
    assert!(Wide::maybe(fat, field).is_none());
}

#[test]
fn non_zero_capacity_refuses_zero() {
    assert!(NonZeroCapacity::new(0).is_none());
    assert_eq!(NonZeroCapacity::new(1).unwrap().get(), 1);
    assert_eq!(NonZeroCapacity::new(usize::MAX).unwrap().get(), usize::MAX);
}

#[test]
fn lean_store_round_trips() {
    let (fat, field) = Lean::store(5, 9);
    let nz = Lean::maybe(fat, field).unwrap();
    assert_eq!(Lean::unpack(fat, nz), (5, 9));
    assert_eq!(Lean::len(fat), 5);
}

#[test]
fn lean_store_puts_capacity_in_the_high_half() {
    let half = usize::BITS / 2;
    let (fat, _) = Lean::store(5, 9);
    assert_eq!(fat, (9 << half) | 5);
    let (fat, _) = Lean::store(0, 1);
    assert_eq!(fat, 1 << half);
}

#[test]
fn lean_store_at_the_limit() {
    let limit = usize::MAX >> (usize::BITS / 2);
    let (fat, field) = Lean::store(limit, limit);
    assert_eq!(fat, usize::MAX);
    let nz = Lean::maybe(fat, field).unwrap();
    assert_eq!(Lean::unpack(fat, nz), (limit, limit));
}

#[test]
fn lean_empty_holds_no_capacity() {
    let (fat, field) = Lean::empty(42);
    assert_eq!(fat, 42);
    assert!(Lean::maybe(fat, field).is_none());
    assert_eq!(Lean::len(fat), 42);
}

#[test]
fn lean_zero_capacity_packs_as_borrowed() {
    let (fat, field) = Lean::store(0, 0);
    assert_eq!(fat, 0);
    assert!(Lean::maybe(fat, field).is_none());
}

#[test]
fn lean_mask_len_keeps_the_low_half() {
    let limit = usize::MAX >> (usize::BITS / 2);
    assert_eq!(Lean::mask_len(0), 0);
    assert_eq!(Lean::mask_len(123), 123);
    assert_eq!(Lean::mask_len(limit), limit);
    assert_eq!(Lean::mask_len(limit + 1), 0);
    assert_eq!(Lean::mask_len(usize::MAX), limit);
}

#[test]
fn lean_fits_up_to_half_a_word() {
    let limit = usize::MAX >> (usize::BITS / 2);
    assert!(Lean::fits(0));
    assert!(Lean::fits(limit));
    assert!(!Lean::fits(limit + 1));
    assert!(!Lean::fits(usize::MAX));
}

#[test]
fn skinny_store_round_trips() {
    if usize::BITS == 64 {
        let (fat, field) = Cursed::store(5, 9);
        assert_eq!(fat as u64, (9u64 << 32) | 5);
        let nz = Cursed::maybe(fat, field).unwrap();
        assert_eq!(Cursed::unpack(fat, nz), (5, 9));
        assert_eq!(Cursed::len(fat), 5);
    }
}

#[test]
fn skinny_store_at_the_limit() {
    if usize::BITS == 64 {
        let (fat, field) = Cursed::store(0xffff_ffff, 0xffff_ffff);
        assert_eq!(fat, usize::MAX);
        let nz = Cursed::maybe(fat, field).unwrap();
        assert_eq!(Cursed::unpack(fat, nz), (0xffff_ffff, 0xffff_ffff));
    }
}

#[test]
fn skinny_empty_holds_no_capacity() {
    let (fat, field) = Cursed::empty(42);
    assert_eq!(fat, 42);
    assert!(Cursed::maybe(fat, field).is_none());
    assert_eq!(Cursed::len(fat), 42);
}

#[test]
fn skinny_fits_32_bits_on_a_word_of_64() {
    assert!(Cursed::fits(0));
    if usize::BITS == 64 {
        assert!(Cursed::fits(0xffff_ffff));
        assert!(!Cursed::fits(0xffff_ffff + 1));
    } else {
        assert!(!Cursed::fits(1));
    }
}

#[test]
fn capacity_of_two_to_the_32_fits_three_words_only() {
    if usize::BITS == 64 {
        let capacity: usize = 1 << 32;
        assert!(!Lean::fits(capacity));
        assert!(!Cursed::fits(capacity));
        assert!(Wide::fits(capacity));
        let (fat, field) = Wide::store(3, capacity);
        let nz = Wide::maybe(fat, field).unwrap();
        assert_eq!(Wide::unpack(fat, nz), (3, capacity));
    }
}
