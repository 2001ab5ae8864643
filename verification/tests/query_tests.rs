use shared_lib::handlers::query::{
    from_str_to_bool, from_str_to_i64, parse_boolean, parse_integer, ParameterError,
    RequestPostsQueryParams,
};

#[test]
fn flags_are_true_or_false() {
    assert_eq!(from_str_to_bool(Some("true")), Ok(true));
    assert_eq!(from_str_to_bool(Some("false")), Ok(false));
    assert_eq!(from_str_to_bool(None), Ok(false));
    for text in ["", "True", "TRUE", "1", "0", "yes", " true", "true ", "truefalse"] {
        assert_eq!(from_str_to_bool(Some(text)), Err(ParameterError::NotABoolean), "{}", text);
    }
    assert_eq!(parse_boolean("true"), Some(true));
    assert_eq!(parse_boolean("false"), Some(false));
    assert_eq!(parse_boolean("maybe"), None);
}

#[test]
fn numbers_are_decimal_integers() {
    assert_eq!(from_str_to_i64(Some("1")), Ok(1));
    assert_eq!(from_str_to_i64(Some("0")), Ok(0));
    assert_eq!(from_str_to_i64(Some("42")), Ok(42));
    assert_eq!(from_str_to_i64(Some("-5")), Ok(-5));
    assert_eq!(from_str_to_i64(Some("+7")), Ok(7));
    assert_eq!(from_str_to_i64(Some("007")), Ok(7));
    assert_eq!(from_str_to_i64(Some("-0")), Ok(0));
    assert_eq!(from_str_to_i64(None), Ok(1));
    for text in ["", "+", "-", "--1", "+-1", "1 ", " 1", "1.0", "1e3", "0x10", "one", "1_000", "١٢"] {
        assert_eq!(from_str_to_i64(Some(text)), Err(ParameterError::NotAnInteger), "{}", text);
    }
}

#[test]
fn numbers_that_sixty_four_bits_do_not_hold_are_none() {
    assert_eq!(parse_integer("9223372036854775807"), Some(i64::MAX));
    assert_eq!(parse_integer("+9223372036854775807"), Some(i64::MAX));
    assert_eq!(parse_integer("9223372036854775808"), None);
    assert_eq!(parse_integer("-9223372036854775808"), Some(i64::MIN));
    assert_eq!(parse_integer("-9223372036854775809"), None);
    assert_eq!(parse_integer("-9223372036854775807"), Some(i64::MIN + 1));
    assert_eq!(parse_integer("18446744073709551616"), None);
    assert_eq!(parse_integer("340282366920938463463374607431768211456"), None);
    assert_eq!(parse_integer("99999999999999999999999999999999999999999999999999"), None);
    assert_eq!(parse_integer("-99999999999999999999999999999999999999999999999999"), None);
    assert_eq!(parse_integer("00000000000000000000000000000000000000000000000012"), Some(12));
}

#[test]
fn integers_are_read_as_the_standard_library_reads_them() {
    let texts = [
        "", "0", "1", "-1", "+1", "12345", "-12345", "+", "-", "a", "1a", "a1", "--1", "++1",
        "9223372036854775807", "9223372036854775808", "-9223372036854775808",
        "-9223372036854775809", "000", "-000", "+000", "1-", "1+", " 1", "٣",
    ];
    for text in texts {
        assert_eq!(parse_integer(text), text.parse::<i64>().ok(), "{:?}", text);
    }
    for text in ["", "true", "false", "t", "TRUE", "False"] {
        assert_eq!(parse_boolean(text), text.parse::<bool>().ok(), "{:?}", text);
    }
}

#[test]
fn absent_parameters_ask_for_unfeatured_posts_of_page_zero() {
    assert_eq!(
        RequestPostsQueryParams::default(),
        RequestPostsQueryParams { featured: false, current_page: 0 }
    );
}
