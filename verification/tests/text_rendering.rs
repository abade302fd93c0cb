use app_configs::text::{bool_to_string, i32_to_string, join, push_decimal};

#[test]
fn single_digits_render_as_one_character() {
    for (n, expected) in [(0, "0"), (1, "1"), (5, "5"), (9, "9")] {
        assert_eq!(i32_to_string(n), expected);
    }
}

#[test]
fn numerals_have_no_leading_zeros() {
    assert_eq!(i32_to_string(10), "10");
    assert_eq!(i32_to_string(100), "100");
    assert_eq!(i32_to_string(1005), "1005");
    assert_eq!(i32_to_string(12345), "12345");
}

#[test]
fn negative_numbers_carry_a_minus_sign() {
    assert_eq!(i32_to_string(-1), "-1");
    assert_eq!(i32_to_string(-42), "-42");
    assert_eq!(i32_to_string(-1000), "-1000");
}

#[test]
fn the_ends_of_the_32_bit_range_render() {
    assert_eq!(i32_to_string(i32::MAX), "2147483647");
    assert_eq!(i32_to_string(i32::MIN), "-2147483648");
}

#[test]
fn rendering_agrees_with_the_standard_library() {
    for n in [0, 1, -1, 9, 10, 11, 99, 100, 101, -99, -100, 65535, -65536, 1_000_000, i32::MAX, i32::MIN] {
        assert_eq!(i32_to_string(n), n.to_string());
    }
}

#[test]
fn push_decimal_appends_to_what_is_there() {
    let mut s = String::from("$");
    push_decimal(&mut s, 12);
    assert_eq!(s, "$12");
    push_decimal(&mut s, 0);
    assert_eq!(s, "$120");
    let mut big = String::new();
    push_decimal(&mut big, u64::MAX);
    assert_eq!(big, "18446744073709551615");
}

#[test]
fn booleans_render_as_words() {
    assert_eq!(bool_to_string(true), "true");
    assert_eq!(bool_to_string(false), "false");
}

#[test]
fn join_puts_the_separator_between_neighbours_only() {
    let none: Vec<String> = Vec::new();
    assert_eq!(join(&none, " AND "), "");
    assert_eq!(join(&vec![String::from("a")], " AND "), "a");
    assert_eq!(join(&vec![String::from("a"), String::from("b")], " AND "), "a AND b");
    assert_eq!(
        join(&vec![String::from("a"), String::from(""), String::from("c")], ","),
        "a,,c"
    );
}
