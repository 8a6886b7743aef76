use mini_phone::class_interface::region_matches;
use mini_phone::{ClassInterface, Nilable, NumberType, RubyPhoneNumber};

fn text(s: &str) -> Nilable<String> {
    Nilable::Value(s.to_string())
}

#[test]
fn valid_us_number() {
    assert!(ClassInterface::is_valid(text("+1 650-253-0000")));
    let n = ClassInterface::parse(1, text("+1 650-253-0000"));
    let sym = n.as_symbol().unwrap();
    assert!(sym == "fixed_line_or_mobile" || sym == "unknown");
}

#[test]
fn valid_number_is_possible() {
    assert!(ClassInterface::is_valid(text("+1 650-253-0000")));
    assert!(ClassInterface::is_possible(text("+1 650-253-0000")));
}

#[test]
fn single_digit_is_impossible() {
    assert!(!ClassInterface::is_possible(text("1")));
    assert!(ClassInterface::is_impossible(text("1")));
}

#[test]
fn nil_is_neither_valid_nor_possible() {
    assert!(!ClassInterface::is_valid(Nilable::Nil));
    assert!(!ClassInterface::is_possible(Nilable::Nil));
    assert!(ClassInterface::is_impossible(Nilable::Nil));
}

#[test]
fn london_number_valid_for_gb() {
    let r = ClassInterface::is_valid_for_country(text("020 7946 0958"), text("GB"));
    assert!(matches!(r, Ok(true)));
    let r = ClassInterface::is_invalid_for_country(text("020 7946 0958"), text("GB"));
    assert!(matches!(r, Ok(false)));
}

#[test]
fn london_number_not_valid_for_us() {
    let r = ClassInterface::is_valid_for_country(text("+44 20 7946 0958"), text("US"));
    assert!(matches!(r, Ok(false)));
}

#[test]
fn unparseable_text_not_valid_for_region() {
    let r = ClassInterface::is_valid_for_country(text("not a number"), text("US"));
    assert!(matches!(r, Ok(false)));
}

#[test]
fn unknown_region_is_an_error() {
    let r = ClassInterface::is_valid_for_country(text("020 7946 0958"), text("not-a-region"));
    match r {
        Err(e) => assert_eq!(e.region, "not-a-region"),
        Ok(_) => panic!("an unknown region must be rejected"),
    }
    let r = ClassInterface::is_invalid_for_country(text("020 7946 0958"), text("not-a-region"));
    assert!(r.is_err());
}

#[test]
fn nil_region_check_is_false() {
    assert!(matches!(ClassInterface::is_valid_for_country(Nilable::Nil, text("GB")), Ok(false)));
    assert!(matches!(
        ClassInterface::is_valid_for_country(text("020 7946 0958"), Nilable::Nil),
        Ok(false)
    ));
    assert!(matches!(ClassInterface::is_invalid_for_country(Nilable::Nil, text("GB")), Ok(true)));
}

#[test]
fn unparsed_text_has_no_number() {
    let n = ClassInterface::parse(7, text("not a number"));
    assert!(n.inner.is_none());
    assert!(n.e164().is_none());
    assert!(n.country().is_none());
    assert!(n.country_code().is_none());
    assert!(n.as_symbol().is_none());
    assert!(n.area_code().is_none());
    assert!(n.national().is_none());
    assert!(!n.is_valid());
    assert!(!ClassInterface::is_valid(text("not a number")));
}

#[test]
fn nil_input_has_no_number() {
    let n = RubyPhoneNumber::new(3, Nilable::Nil);
    assert!(n.inner.is_none());
    assert!(n.rfc3966().is_none());
    assert!(n.international().is_none());
    assert!(n.region_code().is_none());
}

#[test]
fn international_format_of_london_number() {
    let n = ClassInterface::parse(1, text("+442079460958"));
    assert_eq!(n.international().unwrap(), "+44 20 7946 0958");
}

#[test]
fn other_renderings_of_london_number() {
    let n = ClassInterface::parse(1, text("+44 20 7946 0958"));
    assert_eq!(n.e164().unwrap(), "+442079460958");
    assert_eq!(n.rfc3966().unwrap(), "tel:+44-20-7946-0958");
    assert_eq!(n.national().unwrap(), "020 7946 0958");
    assert_eq!(n.country_code(), Some(44));
    assert_eq!(n.region_code().unwrap(), "GB");
    assert_eq!(n.country().unwrap(), "GB");
    assert_eq!(n.area_code().unwrap(), "0");
    assert!(n.is_valid());
}

#[test]
fn parsed_parts_of_london_number() {
    let n = ClassInterface::parse(1, text("+44 20 7946 0958"));
    let p = &n.inner.as_ref().unwrap();
    assert_eq!(p.code, 44);
    assert_eq!(p.national, 2079460958);
    assert_eq!(p.zeros, 0);
    assert!(p.extension.is_none());
}

#[test]
fn same_input_is_equal_even_unparsed() {
    let a = ClassInterface::parse(5, text("not a number"));
    let b = ClassInterface::parse(5, text("not a number"));
    assert!(a.is_equal(&b));
}

#[test]
fn different_unparsed_inputs_are_not_equal() {
    let a = ClassInterface::parse(5, text("not a number"));
    let b = ClassInterface::parse(6, text("not a number"));
    assert!(!a.is_equal(&b));
}

#[test]
fn differently_formatted_numbers_are_equal() {
    let a = ClassInterface::parse(1, text("+442079460958"));
    let b = ClassInterface::parse(2, text("+44 20 7946 0958"));
    assert!(a.is_equal(&b));
    assert!(b.is_equal(&a));
}

#[test]
fn different_numbers_are_not_equal() {
    let a = ClassInterface::parse(1, text("+442079460958"));
    let b = ClassInterface::parse(2, text("+1 650-253-0000"));
    assert!(!a.is_equal(&b));
}

#[test]
fn parsed_and_unparsed_are_not_equal() {
    let a = ClassInterface::parse(1, text("+442079460958"));
    let b = ClassInterface::parse(2, text("not a number"));
    assert!(!a.is_equal(&b));
}

#[test]
fn parsing_twice_gives_equal_numbers() {
    let a = ClassInterface::parse(1, text("+1 650-253-0000"));
    let b = ClassInterface::parse(2, text("+1 650-253-0000"));
    assert_eq!(a.inner.is_some(), b.inner.is_some());
    assert!(a.is_equal(&b));
}

#[test]
fn e164_round_trip() {
    let a = ClassInterface::parse(1, text("+1 650-253-0000"));
    let e = a.e164().unwrap();
    assert_eq!(e, "+16502530000");
    let b = ClassInterface::parse(2, Nilable::Value(e));
    assert!(a.is_equal(&b));
}

#[test]
fn number_type_symbols() {
    assert_eq!(NumberType::FixedLine.symbol(), "fixed_line");
    assert_eq!(NumberType::FixedLineOrMobile.symbol(), "fixed_line_or_mobile");
    assert_eq!(NumberType::NoInternational.symbol(), "no_international");
    assert_eq!(NumberType::from_outside(phonenumber::Type::TollFree), NumberType::TollFree);
}

#[test]
fn toll_free_number_type() {
    let n = ClassInterface::parse(1, text("+1 800 723 3456"));
    assert_eq!(n.as_symbol(), Some("toll_free"));
}

#[test]
fn region_matches_compares_names() {
    let gb = "GB".to_string();
    assert!(region_matches(&gb, Some("GB".to_string())));
    assert!(!region_matches(&gb, Some("GG".to_string())));
    assert!(!region_matches(&gb, None));
}

#[test]
fn leading_zero_is_kept() {
    let n = ClassInterface::parse(1, text("+39 06 1234 5678"));
    let p = &n.inner.as_ref().unwrap();
    assert_eq!(p.code, 39);
    assert_eq!(p.zeros, 1);
    assert_eq!(p.national, 612345678);
    assert_eq!(n.e164().unwrap(), "+390612345678");
}

#[test]
fn extension_is_split_off() {
    let n = ClassInterface::parse(1, text("+1 650-253-0000 ext. 123"));
    let p = &n.inner.as_ref().unwrap();
    assert_eq!(p.extension.as_deref(), Some("123"));
    assert_eq!(n.rfc3966().unwrap(), "tel:+1-650-253-0000;ext=123");
}

#[test]
fn extension_makes_numbers_differ() {
    let a = ClassInterface::parse(1, text("+1 650-253-0000 ext. 123"));
    let b = ClassInterface::parse(2, text("+1 650-253-0000"));
    assert!(!a.is_equal(&b));
}

#[test]
fn international_text_valid_for_its_region() {
    let r = ClassInterface::is_valid_for_country(text("+44 20 7946 0958"), text("GB"));
    assert!(matches!(r, Ok(true)));
}

#[test]
fn outcome_validity_matches_module_validity() {
    for t in ["+1 650-253-0000", "+44 20 7946 0958", "not a number", "+1 000"] {
        let n = ClassInterface::parse(1, text(t));
        assert_eq!(n.is_valid(), ClassInterface::is_valid(text(t)));
        if n.is_valid() {
            assert!(n.e164().is_some());
        }
    }
}

#[test]
fn region_check_repeats_its_answer() {
    let a = ClassInterface::is_valid_for_country(text("020 7946 0958"), text("GB"));
    let b = ClassInterface::is_valid_for_country(text("020 7946 0958"), text("GB"));
    assert!(matches!((a, b), (Ok(x), Ok(y)) if x == y));
}

#[test]
fn region_check_of_another_region_with_the_same_code() {
    let r = ClassInterface::is_valid_for_country(text("+1 416 555 0123"), text("US"));
    assert!(matches!(r, Ok(false)));
}
