use is_thirteen::is_thirteen_equal_chars;
use is_thirteen::strings::{
    has_thirteen_shape, strip_final_newline, thirteen_given_lowercase, thirteen_in,
};
use is_thirteen::{IsThirteen, ThirteenStrings};

#[test]
fn test_is_thirteen_equal_chars_empty() {
    assert_eq!(is_thirteen_equal_chars(""), false);
}

#[test]
fn test_is_thirteen_equal_chars_thirteen_a() {
    assert_eq!(is_thirteen_equal_chars("aaaaaaaaaaaaa"), true);
}

#[test]
fn equal_chars_need_exactly_thirteen() {
    assert!(!is_thirteen_equal_chars("aaaaaaaaaaaa"));
    assert!(!is_thirteen_equal_chars("aaaaaaaaaaaaaa"));
    assert!(!is_thirteen_equal_chars("a"));
}

#[test]
fn equal_chars_are_counted_as_characters_not_bytes() {
    assert!(is_thirteen_equal_chars(&"é".repeat(13)));
    assert!(is_thirteen_equal_chars(&"🐱".repeat(13)));
    assert!(!is_thirteen_equal_chars("ééééééa"));
    assert!(!is_thirteen_equal_chars("aaaaaaaaaaaé"));
}

#[test]
fn equal_chars_one_odd_character_breaks_the_run() {
    assert!(!is_thirteen_equal_chars("baaaaaaaaaaaa"));
    assert!(!is_thirteen_equal_chars("aaaaaaaaaaaab"));
    assert!(!is_thirteen_equal_chars("aaaaaaAaaaaaa"));
}

#[test]
fn thirteen_of_any_repeated_character() {
    for c in ['I', '|', 'x', ' ', '\n', 'ß', '十', '🐱'] {
        let s: String = std::iter::repeat(c).take(13).collect();
        assert!(s.thirteen(), "{:?}", s);
        assert!(s.as_str().thirteen(), "{:?}", s);
    }
}

#[test]
fn fourteen_of_a_repeated_character_is_not_thirteen() {
    for c in ['I', '|', 'o', '1', 'l', '🐱'] {
        let s: String = std::iter::repeat(c).take(14).collect();
        assert!(!s.thirteen(), "{:?}", s);
    }
}

#[test]
fn shapes() {
    assert!(has_thirteen_shape("13"));
    assert!(has_thirteen_shape("B"));
    assert!(has_thirteen_shape("IlIlIlIlIlIlI"));
    assert!(has_thirteen_shape("1111111111111"));
    assert!(has_thirteen_shape("lllllllllllll"));
    assert!(has_thirteen_shape("I1lI1lI1lI1lI"));
    assert!(has_thirteen_shape("ooooooooooooo"));
}

#[test]
fn no_shapes() {
    assert!(!has_thirteen_shape(""));
    assert!(!has_thirteen_shape("b"));
    assert!(!has_thirteen_shape("31"));
    assert!(!has_thirteen_shape("1"));
    assert!(!has_thirteen_shape("3"));
    assert!(!has_thirteen_shape("133"));
    assert!(!has_thirteen_shape("BB"));
    assert!(!has_thirteen_shape("thirteen"));
    assert!(!has_thirteen_shape("IlIlIlIlIlIl"));
    assert!(!has_thirteen_shape("IlIlIlIlIlIlIl"));
    assert!(!has_thirteen_shape("IlIlIlIlIlIli"));
    assert!(!has_thirteen_shape("IlIlIlIlIlIlL"));
    assert!(!has_thirteen_shape("||h||||||||||"));
}

#[test]
fn given_lowercase_looks_the_second_string_up() {
    let table = ThirteenStrings::new();
    assert!(thirteen_given_lowercase(&table, "Thirteen", "thirteen"));
    assert!(!thirteen_given_lowercase(&table, "Thirteen", "Thirteen"));
    assert!(thirteen_given_lowercase(&table, "anything", "xiii"));
    assert!(!thirteen_given_lowercase(&table, "xiii", "anything"));
    assert!(thirteen_given_lowercase(&table, "13", "anything"));
    assert!(thirteen_given_lowercase(&table, "B", "b"));
    assert!(!thirteen_given_lowercase(&table, "b", "b"));
    assert!(!thirteen_given_lowercase(&table, "", ""));
}

#[test]
fn with_a_kept_table() {
    let table = ThirteenStrings::new();
    assert!(thirteen_in(&table, "13"));
    assert!(thirteen_in(&table, "Thirteen"));
    assert!(thirteen_in(&table, "THIRTEEN"));
    assert!(thirteen_in(&table, "Dr. Remy Beauregard Hadley"));
    assert!(thirteen_in(&table, "ТРИНАДЦАТЬ"));
    assert!(!thirteen_in(&table, ""));
    assert!(!thirteen_in(&table, "b"));
    assert!(!thirteen_in(&table, "fourteen"));
}

#[test]
fn unicode_case_is_left_aside_for_the_table() {
    assert!("TŘINÁCT".thirteen());
    assert!("Тринадцять".thirteen());
    assert!("ẞ".thirteen());
    assert!("Β".thirteen());
    assert!("ƖƐ".thirteen());
}

#[test]
fn case_matters_for_the_single_b() {
    assert!("B".thirteen());
    assert!(!"b".thirteen());
}

#[test]
fn empty_string_is_not_thirteen() {
    assert!(!"".thirteen());
    assert!(!String::new().thirteen());
}

#[test]
fn string_and_slice_agree() {
    for s in ["13", "B", "b", "", "Thirteen", "IIIIIIIIIIIII", "oooooooooooooo", "treize"] {
        assert_eq!(s.to_string().thirteen(), s.thirteen());
    }
}

#[test]
fn final_newline_is_taken_off_once() {
    assert_eq!(strip_final_newline("13\n"), "13");
    assert_eq!(strip_final_newline("13"), "13");
    assert_eq!(strip_final_newline("13\n\n"), "13\n");
    assert_eq!(strip_final_newline("\n"), "");
    assert_eq!(strip_final_newline(""), "");
    assert_eq!(strip_final_newline("13\r\n"), "13\r");
    assert_eq!(strip_final_newline("\n13"), "\n13");
    assert_eq!(strip_final_newline("十三\n"), "十三");
}

#[test]
fn a_line_of_input_is_asked_without_its_newline() {
    assert!(strip_final_newline("thirteen\n").thirteen());
    assert!(!"thirteen\n".thirteen());
    assert!(!strip_final_newline("thirteen\n\n").thirteen());
}
