use swiss_votes::converters::{
    convert_date_to_us_format, integer_and_fraction, parse_decimal, ratio_text, string_to_u32,
};

#[test]
fn count_with_thousands_separators() {
    assert_eq!(string_to_u32(Some(&"1'234'567".to_string())), Some(1234567));
}

#[test]
fn count_of_letters_is_absent() {
    assert_eq!(string_to_u32(Some(&"abc".to_string())), None);
}

#[test]
fn count_of_empty_text_is_absent() {
    assert_eq!(string_to_u32(Some(&"".to_string())), None);
}

#[test]
fn count_of_no_cell_is_absent() {
    assert_eq!(string_to_u32(None), None);
}

#[test]
fn count_of_separators_alone_is_absent() {
    assert_eq!(string_to_u32(Some(&"'''".to_string())), None);
}

#[test]
fn count_at_the_limit() {
    assert_eq!(string_to_u32(Some(&"4'294'967'295".to_string())), Some(u32::MAX));
    assert_eq!(string_to_u32(Some(&"4'294'967'296".to_string())), None);
    assert_eq!(string_to_u32(Some(&"99999999999999999999".to_string())), None);
}

#[test]
fn count_keeps_leading_zeros_out() {
    assert_eq!(string_to_u32(Some(&"007".to_string())), Some(7));
    assert_eq!(string_to_u32(Some(&"0".to_string())), Some(0));
}

#[test]
fn count_refuses_signs_and_spaces() {
    assert_eq!(string_to_u32(Some(&"-5".to_string())), None);
    assert_eq!(string_to_u32(Some(&"+5".to_string())), None);
    assert_eq!(string_to_u32(Some(&" 5".to_string())), None);
    assert_eq!(string_to_u32(Some(&"5 ".to_string())), None);
    assert_eq!(string_to_u32(Some(&"1.5".to_string())), None);
    assert_eq!(string_to_u32(Some(&"١٢".to_string())), None);
}

#[test]
fn decimal_reads_digits_only() {
    assert_eq!(parse_decimal("123"), Some(123));
    assert_eq!(parse_decimal("1'2"), None);
    assert_eq!(parse_decimal(""), None);
}

#[test]
fn date_is_turned_round() {
    assert_eq!(convert_date_to_us_format("09.02.2014"), Some("2014-02-09".to_string()));
}

#[test]
fn date_pieces_are_taken_as_they_stand() {
    assert_eq!(convert_date_to_us_format("9.2.14"), Some("14-2-9".to_string()));
    assert_eq!(convert_date_to_us_format(".."), Some("--".to_string()));
    assert_eq!(convert_date_to_us_format("a.b."), Some("-b-a".to_string()));
}

#[test]
fn date_needs_exactly_three_pieces() {
    assert_eq!(convert_date_to_us_format(""), None);
    assert_eq!(convert_date_to_us_format("09.02"), None);
    assert_eq!(convert_date_to_us_format("09.02.2014.1"), None);
    assert_eq!(convert_date_to_us_format("2014-02-09"), None);
}

#[test]
fn ratio_loses_its_percent_sign() {
    let text = ratio_text(Some(&"45.6%".to_string())).unwrap();
    assert_eq!(text, "45.6");
    let ratio = text.parse::<f32>().unwrap() / 100.0;
    assert!((ratio - 0.456).abs() < 1e-6);
}

#[test]
fn ratio_without_percent_sign_still_reads() {
    let text = ratio_text(Some(&"45.6".to_string())).unwrap();
    assert_eq!(text, "45.6");
    let ratio = text.parse::<f32>().unwrap() / 100.0;
    assert!((ratio - 0.456).abs() < 1e-6);
}

#[test]
fn ratio_loses_every_trailing_percent_sign() {
    assert_eq!(ratio_text(Some(&"12%%".to_string())), Some("12".to_string()));
    assert_eq!(ratio_text(Some(&"%1%2".to_string())), Some("%1%2".to_string()));
    assert_eq!(ratio_text(Some(&"%".to_string())), Some("".to_string()));
    assert_eq!(ratio_text(None), None);
}

#[test]
fn canton_count_with_a_half() {
    let count = integer_and_fraction(Some(&"12 1/2".to_string())).unwrap();
    assert_eq!(count.whole, "12");
    assert_eq!(count.fraction, Some(("1".to_string(), "2".to_string())));
    let (numerator, denominator) = count.fraction.unwrap();
    let value = count.whole.parse::<f32>().unwrap()
        + numerator.parse::<f32>().unwrap() / denominator.parse::<f32>().unwrap();
    assert_eq!(value, 12.5);
}

#[test]
fn canton_count_of_a_whole_number() {
    let count = integer_and_fraction(Some(&"20".to_string())).unwrap();
    assert_eq!(count.whole, "20");
    assert_eq!(count.fraction, None);
    assert_eq!(count.whole.parse::<f32>().unwrap(), 20.0);
}

#[test]
fn canton_count_of_a_bare_fraction_does_not_read() {
    let count = integer_and_fraction(Some(&"1/2".to_string())).unwrap();
    assert_eq!(count.whole, "1/2");
    assert_eq!(count.fraction, None);
    assert!(count.whole.parse::<f32>().is_err());
}

#[test]
fn canton_count_of_one_word_loses_its_separators() {
    let count = integer_and_fraction(Some(&" 1'000\t".to_string())).unwrap();
    assert_eq!(count.whole, "1000");
    assert_eq!(count.fraction, None);
}

#[test]
fn canton_count_needs_one_or_two_words() {
    assert!(integer_and_fraction(None).is_none());
    assert!(integer_and_fraction(Some(&"".to_string())).is_none());
    assert!(integer_and_fraction(Some(&"   ".to_string())).is_none());
    assert!(integer_and_fraction(Some(&"1 2 3".to_string())).is_none());
}

#[test]
fn canton_count_needs_exactly_one_stroke() {
    assert!(integer_and_fraction(Some(&"12 12".to_string())).is_none());
    assert!(integer_and_fraction(Some(&"12 1/2/3".to_string())).is_none());
    let count = integer_and_fraction(Some(&"12 /".to_string())).unwrap();
    assert_eq!(count.fraction, Some(("".to_string(), "".to_string())));
}
