use snake::text::{center, decimal_chars, repeat_char, str_chars, zero_pad};

fn chars_to_string(v: &Vec<char>) -> String {
    let mut s = String::new();
    for c in v {
        s.push(*c);
    }
    s
}

#[test]
fn decimal_chars_render_exact_digits() {
    assert_eq!(chars_to_string(&decimal_chars(0)), "0");
    assert_eq!(chars_to_string(&decimal_chars(7)), "7");
    assert_eq!(chars_to_string(&decimal_chars(10)), "10");
    assert_eq!(chars_to_string(&decimal_chars(300)), "300");
    assert_eq!(chars_to_string(&decimal_chars(12345)), "12345");
    assert_eq!(chars_to_string(&decimal_chars(u64::MAX)), "18446744073709551615");
}

#[test]
fn zero_pad_fills_on_the_left_only_when_short() {
    assert_eq!(chars_to_string(&zero_pad(decimal_chars(42), 4)), "0042");
    assert_eq!(chars_to_string(&zero_pad(decimal_chars(12345), 4)), "12345");
    assert_eq!(chars_to_string(&zero_pad(decimal_chars(0), 5)), "00000");
}

#[test]
fn center_splits_the_gap_with_the_extra_blank_on_the_right() {
    assert_eq!(chars_to_string(&center(decimal_chars(300), 6)), " 300  ");
    assert_eq!(chars_to_string(&center(decimal_chars(10), 6)), "  10  ");
    assert_eq!(chars_to_string(&center(str_chars("Apples:"), 6)), "Apples:");
}

#[test]
fn repeat_and_str_chars_round_out_the_helpers() {
    assert_eq!(chars_to_string(&repeat_char('x', 3)), "xxx");
    assert_eq!(chars_to_string(&repeat_char(' ', 0)), "");
    assert_eq!(chars_to_string(&str_chars("hello")), "hello");
}
