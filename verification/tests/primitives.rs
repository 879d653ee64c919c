use is_thirteen::IsThirteen;

#[test]
fn every_integer_width_is_thirteen_at_13() {
    assert!(13_i8.thirteen());
    assert!(13_i16.thirteen());
    assert!(13_i32.thirteen());
    assert!(13_i64.thirteen());
    assert!(13_i128.thirteen());
    assert!(13_isize.thirteen());
    assert!(13_u8.thirteen());
    assert!(13_u16.thirteen());
    assert!(13_u32.thirteen());
    assert!(13_u64.thirteen());
    assert!(13_u128.thirteen());
    assert!(13_usize.thirteen());
}

#[test]
fn no_other_integer_is_thirteen() {
    assert!(!12_i8.thirteen());
    assert!(!14_i16.thirteen());
    assert!(!(-13_i32).thirteen());
    assert!(!i64::MIN.thirteen());
    assert!(!i128::MAX.thirteen());
    assert!(!0_isize.thirteen());
    assert!(!u8::MAX.thirteen());
    assert!(!(13_u16 + 256).thirteen());
    assert!(!130_u32.thirteen());
    assert!(!u64::MAX.thirteen());
    assert!(!1_u128.thirteen());
    assert!(!31_usize.thirteen());
}

#[test]
fn integer_answer_is_equality_with_13() {
    for n in i8::MIN..=i8::MAX {
        assert_eq!(n.thirteen(), n == 13);
    }
    for n in u8::MIN..=u8::MAX {
        assert_eq!(n.thirteen(), n == 13);
    }
}

#[test]
fn thirteen_chars() {
    assert!('B'.thirteen());
    assert!('ß'.thirteen());
    assert!('β'.thirteen());
    assert!('Β'.thirteen());
    assert!('\u{392}'.thirteen());
    assert!('阝'.thirteen());
}

#[test]
fn other_chars_are_not_thirteen() {
    assert!(!'b'.thirteen());
    assert!(!'1'.thirteen());
    assert!(!'3'.thirteen());
    assert!(!'ẞ'.thirteen());
    assert!(!'\u{391}'.thirteen());
    assert!(!'\u{393}'.thirteen());
    assert!(!'\u{3b1}'.thirteen());
    assert!(!'\u{0}'.thirteen());
    assert!(!char::MAX.thirteen());
}

#[test]
fn bool_and_unit_are_never_thirteen() {
    assert!(!true.thirteen());
    assert!(!false.thirteen());
    assert!(!().thirteen());
}

#[test]
fn asking_again_gives_the_same_answer() {
    let n = 13_u64;
    assert_eq!(n.thirteen(), n.thirteen());
    let c = 'B';
    assert_eq!(c.thirteen(), c.thirteen());
    let s = "Thirteen";
    assert_eq!(s.thirteen(), s.thirteen());
    let t = "fourteen";
    assert_eq!(t.thirteen(), t.thirteen());
}
