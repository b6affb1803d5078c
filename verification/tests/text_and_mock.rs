use ocpp_central::awattar::AwattarApiMock;
use ocpp_central::hooks::ChargingPeriod;
use ocpp_central::text::{
    i64_to_decimal, replace_all, split_at_char, starts_with, take_chars, trim, u64_to_decimal,
    zero_pad,
};

#[test]
fn decimal_rendering() {
    assert_eq!(u64_to_decimal(0), "0");
    assert_eq!(u64_to_decimal(1769641200000), "1769641200000");
    assert_eq!(i64_to_decimal(-42), "-42");
    assert_eq!(i64_to_decimal(i64::MIN), "-9223372036854775808");
    assert_eq!(zero_pad("7", 8), "00000007");
    assert_eq!(zero_pad("123456789", 8), "123456789");
}

#[test]
fn string_helpers_behave_like_std() {
    let samples = ["", "a,b", ",a,,b,", "  Digest x=\"1\"  ", "\u{3000}wide\u{2003}"];
    for s in samples.iter() {
        assert_eq!(split_at_char(s, ','), s.split(',').map(|p| p.to_owned()).collect::<Vec<_>>());
        assert_eq!(trim(s), s.trim());
        assert_eq!(replace_all(s, "\"", ""), s.replace("\"", ""));
        assert_eq!(replace_all(s, "a", "aa"), s.replace("a", "aa"));
        assert_eq!(starts_with(s, "  D"), s.starts_with("  D"));
    }
    assert_eq!(replace_all("aaa", "aa", "b"), "ba");
    assert_eq!(take_chars("0123456789abcdef0123", 16), "0123456789abcdef");
    assert_eq!(take_chars("abc", 16), "abc");
}

#[test]
fn awattar_mock_answers_with_set_period() {
    let mut mock = AwattarApiMock::default();
    let period = ChargingPeriod { start_timestamp: 1769641200000, end_timestamp: 1769659200000 };
    mock.set_response(period);
    assert_eq!(AwattarApiMock::default().update_price_chart(), None);
    assert_eq!(mock.update_price_chart(), Some(period));
}
