use procurement::codec::{
    decode_optional_instant, encode_optional_instant, Instant, FIRST_SECOND, LAST_SECOND,
};
use procurement::error::DecodeError;

fn at(secs: i64, nanos: u32) -> Instant {
    Instant { secs, nanos }
}

#[test]
fn encodes_whole_second_with_utc_offset() {
    let r = encode_optional_instant(Some(at(1431648000, 0)));
    assert_eq!(r, Some("2015-05-15T00:00:00+00:00".to_string()));
}

#[test]
fn encodes_fraction_digits() {
    let ms = encode_optional_instant(Some(at(1431648000, 500_000_000)));
    assert_eq!(ms, Some("2015-05-15T00:00:00.500+00:00".to_string()));
    let ns = encode_optional_instant(Some(at(1431648000, 123_456_789)));
    assert_eq!(ns, Some("2015-05-15T00:00:00.123456789+00:00".to_string()));
}

#[test]
fn encodes_leap_second() {
    let r = encode_optional_instant(Some(at(1483228799, 1_500_000_000)));
    assert_eq!(r, Some("2016-12-31T23:59:60.500+00:00".to_string()));
}

#[test]
fn absent_encodes_as_absent() {
    assert_eq!(encode_optional_instant(None), None);
    assert_eq!(decode_optional_instant(&None), Ok(None));
}

#[test]
fn round_trip_reproduces_instant() {
    let cases = vec![
        at(0, 0),
        at(1431648000, 500_000_000),
        at(1483228799, 1_500_000_000),
        at(-1, 999_999_999),
        at(FIRST_SECOND, 0),
        at(LAST_SECOND, 999_999_999),
    ];
    for t in cases {
        let text = encode_optional_instant(Some(t));
        assert_eq!(decode_optional_instant(&text), Ok(Some(t)));
    }
}

#[test]
fn decodes_other_offsets_to_utc() {
    let r = decode_optional_instant(&Some("2015-05-15T02:00:00+02:00".to_string()));
    assert_eq!(r, Ok(Some(at(1431648000, 0))));
    let z = decode_optional_instant(&Some("2015-05-15T00:00:00Z".to_string()));
    assert_eq!(z, Ok(Some(at(1431648000, 0))));
}

#[test]
fn malformed_text_is_an_error() {
    let r = decode_optional_instant(&Some("15 May 2015".to_string()));
    assert_eq!(r, Err(DecodeError::MalformedInstant));
    let empty = decode_optional_instant(&Some(String::new()));
    assert_eq!(empty, Err(DecodeError::MalformedInstant));
}

#[test]
fn validity_of_instants() {
    assert!(at(FIRST_SECOND, 0).valid());
    assert!(at(LAST_SECOND, 0).valid());
    assert!(!at(FIRST_SECOND - 1, 0).valid());
    assert!(!at(LAST_SECOND + 1, 0).valid());
    assert!(at(59, 1_000_000_000).valid());
    assert!(at(-1, 1_999_999_999).valid());
    assert!(!at(0, 1_000_000_000).valid());
    assert!(!at(59, 2_000_000_000).valid());
}

