use wolfram_client::text::{boolean_string, decimal_string};

#[test]
fn decimal_of_zero_is_a_single_digit() {
    assert_eq!(decimal_string(0), "0");
}

#[test]
fn decimal_of_one_digit_values() {
    assert_eq!(decimal_string(1), "1");
    assert_eq!(decimal_string(7), "7");
    assert_eq!(decimal_string(9), "9");
}

#[test]
fn decimal_of_two_digit_values() {
    assert_eq!(decimal_string(10), "10");
    assert_eq!(decimal_string(30), "30");
    assert_eq!(decimal_string(99), "99");
}

#[test]
fn decimal_of_three_digit_values() {
    assert_eq!(decimal_string(100), "100");
    assert_eq!(decimal_string(105), "105");
    assert_eq!(decimal_string(120), "120");
    assert_eq!(decimal_string(255), "255");
}

#[test]
fn decimal_agrees_with_the_standard_library_on_every_byte() {
    let mut n: u8 = 0;
    loop {
        assert_eq!(decimal_string(n), n.to_string());
        if n == u8::MAX {
            break;
        }
        n += 1;
    }
}

#[test]
fn booleans_are_written_as_words() {
    assert_eq!(boolean_string(true), "true");
    assert_eq!(boolean_string(false), "false");
}
