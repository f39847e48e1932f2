use controller::duration::{DurationShorthand, DurationShorthandType};
use controller::text::u32_to_decimal;

fn shorthand(time: u32, unit: DurationShorthandType) -> DurationShorthand {
    DurationShorthand { time, unit }
}

#[test]
fn parses_count_and_unit() {
    assert!(DurationShorthand::is_shorthand("15m"));
    assert_eq!(DurationShorthand::from_str("15m"), shorthand(15, DurationShorthandType::Minute));
    assert!(DurationShorthand::is_shorthand("2h"));
    assert_eq!(DurationShorthand::from_str("2h"), shorthand(2, DurationShorthandType::Hour));
    assert!(DurationShorthand::is_shorthand("30d"));
    assert_eq!(DurationShorthand::from_str("30d"), shorthand(30, DurationShorthandType::Day));
    assert!(DurationShorthand::is_shorthand("4w"));
    assert_eq!(DurationShorthand::from_str("4w"), shorthand(4, DurationShorthandType::Week));
    assert!(DurationShorthand::is_shorthand("1M"));
    assert_eq!(DurationShorthand::from_str("1M"), shorthand(1, DurationShorthandType::Month));
    assert!(DurationShorthand::is_shorthand("3Q"));
    assert_eq!(DurationShorthand::from_str("3Q"), shorthand(3, DurationShorthandType::Quarter));
    assert!(DurationShorthand::is_shorthand("1Y"));
    assert_eq!(DurationShorthand::from_str("1Y"), shorthand(1, DurationShorthandType::Year));
}

#[test]
fn parses_counts_as_u32_does() {
    assert!(DurationShorthand::is_shorthand("+7h"));
    assert_eq!(DurationShorthand::from_str("+7h"), shorthand(7, DurationShorthandType::Hour));
    assert!(DurationShorthand::is_shorthand("007w"));
    assert_eq!(DurationShorthand::from_str("007w"), shorthand(7, DurationShorthandType::Week));
    assert!(DurationShorthand::is_shorthand("0m"));
    assert_eq!(DurationShorthand::from_str("0m"), shorthand(0, DurationShorthandType::Minute));
    assert!(DurationShorthand::is_shorthand("4294967295Y"));
    assert_eq!(DurationShorthand::from_str("4294967295Y"), shorthand(u32::MAX, DurationShorthandType::Year));
    assert!(!DurationShorthand::is_shorthand("4294967296Y"));
    assert!(!DurationShorthand::is_shorthand("99999999999999999999m"));
}

#[test]
fn refuses_malformed_text() {
    assert!(!DurationShorthand::is_shorthand(""));
    assert!(!DurationShorthand::is_shorthand("m"));
    assert!(!DurationShorthand::is_shorthand("15"));
    assert!(!DurationShorthand::is_shorthand("15s"));
    assert!(!DurationShorthand::is_shorthand("1 m"));
    assert!(!DurationShorthand::is_shorthand("-1m"));
    assert!(!DurationShorthand::is_shorthand("+m"));
    assert!(!DurationShorthand::is_shorthand("1١m"));
    assert!(!DurationShorthand::is_shorthand("x5m"));
}

#[test]
fn writes_count_then_unit() {
    assert_eq!(shorthand(15, DurationShorthandType::Minute).to_shorthand(), "15m");
    assert_eq!(shorthand(0, DurationShorthandType::Quarter).to_shorthand(), "0Q");
    assert_eq!(shorthand(u32::MAX, DurationShorthandType::Month).to_shorthand(), "4294967295M");
}

#[test]
fn reading_what_was_written_gives_it_back() {
    let units = [
        DurationShorthandType::Minute,
        DurationShorthandType::Hour,
        DurationShorthandType::Day,
        DurationShorthandType::Week,
        DurationShorthandType::Month,
        DurationShorthandType::Quarter,
        DurationShorthandType::Year,
    ];
    for unit in units {
        for time in [0u32, 1, 9, 10, 99, 100, 65535, 1_000_000, u32::MAX - 1, u32::MAX] {
            let d = shorthand(time, unit);
            let text = d.to_shorthand();
            assert!(DurationShorthand::is_shorthand(&text));
            assert_eq!(DurationShorthand::from_str(&text), d);
        }
    }
}

#[test]
fn schema_text_is_written_back_unchanged() {
    for text in ["1m", "15h", "90d", "52w", "12M", "4Q", "10Y", "4294967295m"] {
        let d = DurationShorthand::from_str(text);
        assert_eq!(d.to_shorthand(), text);
    }
}

#[test]
fn unit_letters() {
    assert_eq!(DurationShorthandType::Month.letter(), 'M');
    assert_eq!(DurationShorthandType::Minute.letter(), 'm');
    assert_eq!(DurationShorthandType::from_letter('Q'), Some(DurationShorthandType::Quarter));
    assert_eq!(DurationShorthandType::from_letter('s'), None);
}

#[test]
fn decimal_numerals() {
    assert_eq!(u32_to_decimal(0), "0");
    assert_eq!(u32_to_decimal(7), "7");
    assert_eq!(u32_to_decimal(10), "10");
    assert_eq!(u32_to_decimal(1050), "1050");
    assert_eq!(u32_to_decimal(u32::MAX), "4294967295");
}

#[test]
fn schema_pattern() {
    assert_eq!(controller::duration::SHORTHAND_PATTERN, "^[1-9][0-9]*[mhdwMQY]$");
}
