use kevgir::input::{split_pipe_string, string_to_option_i64, string_to_option_vec_i64, trim_str};
use kevgir::text::{i64_to_string, parse_i64, u64_to_string};

#[test]
fn parse_i64_reads_plain_and_signed_numbers() {
    assert_eq!(parse_i64("123"), Some(123));
    assert_eq!(parse_i64("-123"), Some(-123));
    assert_eq!(parse_i64("+5"), Some(5));
    assert_eq!(parse_i64("0"), Some(0));
    assert_eq!(parse_i64("007"), Some(7));
}

#[test]
fn parse_i64_rejects_junk() {
    assert_eq!(parse_i64(""), None);
    assert_eq!(parse_i64("-"), None);
    assert_eq!(parse_i64("+"), None);
    assert_eq!(parse_i64("12a"), None);
    assert_eq!(parse_i64("a12"), None);
    assert_eq!(parse_i64("1 2"), None);
    assert_eq!(parse_i64("12.0"), None);
    assert_eq!(parse_i64("--1"), None);
}

#[test]
fn parse_i64_handles_the_range_ends() {
    assert_eq!(parse_i64("9223372036854775807"), Some(i64::MAX));
    assert_eq!(parse_i64("9223372036854775808"), None);
    assert_eq!(parse_i64("-9223372036854775808"), Some(i64::MIN));
    assert_eq!(parse_i64("-9223372036854775809"), None);
    assert_eq!(parse_i64("99999999999999999999999"), None);
}

#[test]
fn parse_i64_agrees_with_the_standard_reader() {
    let samples = [
        "0", "42", "-42", "+17", "", "x", "9223372036854775807", "9223372036854775808",
        "-9223372036854775808", "-9223372036854775809", "00012", "1_2", " 3",
    ];
    for s in samples {
        assert_eq!(parse_i64(s), s.parse::<i64>().ok(), "mismatch for {:?}", s);
    }
}

#[test]
fn numbers_render_back_to_decimal() {
    assert_eq!(u64_to_string(0), "0");
    assert_eq!(u64_to_string(907), "907");
    assert_eq!(i64_to_string(-45), "-45");
    assert_eq!(i64_to_string(i64::MIN), "-9223372036854775808");
    assert_eq!(i64_to_string(i64::MAX), "9223372036854775807");
}

#[test]
fn trim_removes_surrounding_whitespace_only() {
    assert_eq!(trim_str("  abc  "), "abc");
    assert_eq!(trim_str("\t a b \n"), "a b");
    assert_eq!(trim_str(""), "");
    assert_eq!(trim_str("   "), "");
    assert_eq!(trim_str("x"), "x");
    assert_eq!(trim_str("\u{a0}nbsp\u{3000}"), "nbsp");
}

#[test]
fn trim_agrees_with_the_standard_trim() {
    let samples = [" a ", "", "  ", "a", "\u{2028}x\u{205f}", "\r\nline\r\n", " ç ş "];
    for s in samples {
        assert_eq!(trim_str(s), s.trim(), "mismatch for {:?}", s);
    }
}

#[test]
fn split_pipe_trims_and_drops_empties() {
    assert_eq!(split_pipe_string("a| b |c"), vec!["a", "b", "c"]);
    assert_eq!(split_pipe_string("a||b"), vec!["a", "b"]);
    assert_eq!(split_pipe_string("| a |"), vec!["a"]);
    assert_eq!(split_pipe_string(""), Vec::<String>::new());
    assert_eq!(split_pipe_string(" | | "), Vec::<String>::new());
    assert_eq!(split_pipe_string("one"), vec!["one"]);
}

#[test]
fn digit_only_reader_accepts_digits_and_nothing_else() {
    assert_eq!(string_to_option_i64("123"), Some(123));
    assert_eq!(string_to_option_i64("007"), Some(7));
    assert_eq!(string_to_option_i64(""), None);
    assert_eq!(string_to_option_i64("-5"), None);
    assert_eq!(string_to_option_i64("12x"), None);
    assert_eq!(string_to_option_i64("9223372036854775808"), None);
    assert_eq!(string_to_option_i64("9223372036854775807"), Some(i64::MAX));
}

#[test]
fn comma_list_keeps_what_parses() {
    assert_eq!(string_to_option_vec_i64("1,2,3"), Some(vec![1, 2, 3]));
    assert_eq!(string_to_option_vec_i64("1, 2 , x, 3"), Some(vec![1, 2, 3]));
    assert_eq!(string_to_option_vec_i64(" 42 "), Some(vec![42]));
    assert_eq!(string_to_option_vec_i64("-7,+8"), Some(vec![-7, 8]));
    assert_eq!(string_to_option_vec_i64("x,y"), None);
    assert_eq!(string_to_option_vec_i64(""), None);
    assert_eq!(string_to_option_vec_i64(",,"), None);
}
