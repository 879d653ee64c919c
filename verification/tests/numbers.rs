use is_thirteen::{DivisibleBy, FromU64, GreaterThan, IsThirteen, LessThan};

#[test]
fn divisible_by_thirteen() {
    assert!(DivisibleBy(0_i32).thirteen());
    assert!(DivisibleBy(13_i32).thirteen());
    assert!(DivisibleBy(26_u8).thirteen());
    assert!(DivisibleBy(169_u64).thirteen());
    assert!(DivisibleBy(-13_i8).thirteen());
    assert!(DivisibleBy(-39_i64).thirteen());
    assert!(DivisibleBy(1_300_000_000_000_u128).thirteen());
}

#[test]
fn not_divisible_by_thirteen() {
    assert!(!DivisibleBy(1_i32).thirteen());
    assert!(!DivisibleBy(12_u8).thirteen());
    assert!(!DivisibleBy(14_u16).thirteen());
    assert!(!DivisibleBy(-1_i8).thirteen());
    assert!(!DivisibleBy(-14_i64).thirteen());
    assert!(!DivisibleBy(i8::MIN).thirteen());
    assert!(!DivisibleBy(u8::MAX).thirteen());
}

#[test]
fn divisible_by_agrees_with_the_remainder() {
    for n in i8::MIN..=i8::MAX {
        assert_eq!(DivisibleBy(n).thirteen(), n % 13 == 0);
        assert_eq!(DivisibleBy(n).thirteen(), n.rem_euclid(13) == 0);
    }
    for n in u8::MIN..=u8::MAX {
        assert_eq!(DivisibleBy(n).thirteen(), n % 13 == 0);
    }
}

#[test]
fn divisible_by_at_the_ends_of_the_types() {
    assert_eq!(DivisibleBy(i32::MIN).thirteen(), i32::MIN % 13 == 0);
    assert_eq!(DivisibleBy(i64::MIN).thirteen(), i64::MIN % 13 == 0);
    assert_eq!(DivisibleBy(i128::MIN).thirteen(), i128::MIN % 13 == 0);
    assert_eq!(DivisibleBy(isize::MIN).thirteen(), isize::MIN % 13 == 0);
    assert_eq!(DivisibleBy(u64::MAX).thirteen(), u64::MAX % 13 == 0);
    assert_eq!(DivisibleBy(u128::MAX).thirteen(), u128::MAX % 13 == 0);
    assert_eq!(DivisibleBy(usize::MAX).thirteen(), usize::MAX % 13 == 0);
}

#[test]
fn greater_than_thirteen() {
    assert!(GreaterThan(14_i32).thirteen());
    assert!(GreaterThan(u8::MAX).thirteen());
    assert!(GreaterThan(i128::MAX).thirteen());
    assert!(!GreaterThan(13_i32).thirteen());
    assert!(!GreaterThan(12_u16).thirteen());
    assert!(!GreaterThan(-14_i64).thirteen());
    assert!(!GreaterThan(isize::MIN).thirteen());
}

#[test]
fn less_than_thirteen() {
    assert!(LessThan(12_i32).thirteen());
    assert!(LessThan(0_u8).thirteen());
    assert!(LessThan(-14_i16).thirteen());
    assert!(LessThan(i64::MIN).thirteen());
    assert!(!LessThan(13_i32).thirteen());
    assert!(!LessThan(14_usize).thirteen());
    assert!(!LessThan(u128::MAX).thirteen());
}

#[test]
fn comparisons_agree_with_the_order() {
    for n in i8::MIN..=i8::MAX {
        assert_eq!(GreaterThan(n).thirteen(), n > 13);
        assert_eq!(LessThan(n).thirteen(), n < 13);
    }
    for n in u8::MIN..=u8::MAX {
        assert_eq!(GreaterThan(n).thirteen(), n > 13);
        assert_eq!(LessThan(n).thirteen(), n < 13);
    }
}

#[test]
fn exactly_one_of_three_holds() {
    for n in -40_i32..=40 {
        let answers = [n.thirteen(), GreaterThan(n).thirteen(), LessThan(n).thirteen()];
        assert_eq!(answers.iter().filter(|&&a| a).count(), 1, "{}", n);
    }
}

#[test]
fn wrappers_are_copied() {
    let d = DivisibleBy(26_u32);
    let e = d;
    assert_eq!(d.thirteen(), e.thirteen());
    let g = GreaterThan(26_u32);
    let h = g.clone();
    assert_eq!(g.thirteen(), h.thirteen());
    let l = LessThan(26_u32);
    let m = l;
    assert_eq!(l.thirteen(), m.thirteen());
}

#[test]
fn from_u64_keeps_the_number() {
    assert_eq!(<i8 as FromU64>::from_u64(13), Some(13_i8));
    assert_eq!(<i16 as FromU64>::from_u64(13), Some(13_i16));
    assert_eq!(<i32 as FromU64>::from_u64(13), Some(13_i32));
    assert_eq!(<i64 as FromU64>::from_u64(13), Some(13_i64));
    assert_eq!(<i128 as FromU64>::from_u64(13), Some(13_i128));
    assert_eq!(<isize as FromU64>::from_u64(13), Some(13_isize));
    assert_eq!(<u8 as FromU64>::from_u64(13), Some(13_u8));
    assert_eq!(<u16 as FromU64>::from_u64(13), Some(13_u16));
    assert_eq!(<u32 as FromU64>::from_u64(13), Some(13_u32));
    assert_eq!(<u64 as FromU64>::from_u64(13), Some(13_u64));
    assert_eq!(<u128 as FromU64>::from_u64(13), Some(13_u128));
    assert_eq!(<usize as FromU64>::from_u64(13), Some(13_usize));
    assert_eq!(<u8 as FromU64>::from_u64(0), Some(0_u8));
}

#[test]
fn from_u64_at_the_greatest_value() {
    assert_eq!(<i8 as FromU64>::from_u64(127), Some(i8::MAX));
    assert_eq!(<i16 as FromU64>::from_u64(32767), Some(i16::MAX));
    assert_eq!(<i32 as FromU64>::from_u64(2147483647), Some(i32::MAX));
    assert_eq!(<i64 as FromU64>::from_u64(9223372036854775807), Some(i64::MAX));
    assert_eq!(<u8 as FromU64>::from_u64(255), Some(u8::MAX));
    assert_eq!(<u16 as FromU64>::from_u64(65535), Some(u16::MAX));
    assert_eq!(<u32 as FromU64>::from_u64(4294967295), Some(u32::MAX));
    assert_eq!(<u64 as FromU64>::from_u64(u64::MAX), Some(u64::MAX));
    assert_eq!(<u128 as FromU64>::from_u64(u64::MAX), Some(18446744073709551615_u128));
    assert_eq!(<i128 as FromU64>::from_u64(u64::MAX), Some(18446744073709551615_i128));
    assert_eq!(<usize as FromU64>::from_u64(usize::MAX as u64), Some(usize::MAX));
    assert_eq!(<isize as FromU64>::from_u64(isize::MAX as u64), Some(isize::MAX));
}

#[test]
fn from_u64_refuses_what_does_not_fit() {
    assert_eq!(<i8 as FromU64>::from_u64(128), None);
    assert_eq!(<i16 as FromU64>::from_u64(32768), None);
    assert_eq!(<i32 as FromU64>::from_u64(2147483648), None);
    assert_eq!(<i64 as FromU64>::from_u64(9223372036854775808), None);
    assert_eq!(<u8 as FromU64>::from_u64(256), None);
    assert_eq!(<u16 as FromU64>::from_u64(65536), None);
    assert_eq!(<u32 as FromU64>::from_u64(4294967296), None);
    assert_eq!(<isize as FromU64>::from_u64(isize::MAX as u64 + 1), None);
    assert_eq!(<i8 as FromU64>::from_u64(u64::MAX), None);
}
