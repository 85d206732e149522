use device_gateway::session::{SessionState, Source};
use device_gateway::upgrade::{accept, parse_device_id, UpgradeRejected};

#[test]
fn parse_plain_identities() {
    assert_eq!(parse_device_id("7"), Ok(7));
    assert_eq!(parse_device_id("0"), Ok(0));
    assert_eq!(parse_device_id("42"), Ok(42));
    assert_eq!(parse_device_id("007"), Ok(7));
    assert_eq!(parse_device_id("1234567890123"), Ok(1234567890123));
}

#[test]
fn parse_signed_identities() {
    assert_eq!(parse_device_id("-3"), Ok(-3));
    assert_eq!(parse_device_id("+5"), Ok(5));
    assert_eq!(parse_device_id("-0"), Ok(0));
    assert_eq!(parse_device_id("+0"), Ok(0));
}

#[test]
fn parse_identity_bounds() {
    assert_eq!(parse_device_id("9223372036854775807"), Ok(i64::MAX));
    assert_eq!(parse_device_id("-9223372036854775808"), Ok(i64::MIN));
    assert_eq!(parse_device_id("9223372036854775808"), Err(UpgradeRejected::OutOfRange));
    assert_eq!(parse_device_id("-9223372036854775809"), Err(UpgradeRejected::OutOfRange));
    assert_eq!(
        parse_device_id("99999999999999999999999999999999999999999999"),
        Err(UpgradeRejected::OutOfRange)
    );
    assert_eq!(
        parse_device_id("000000000000000000000000000000000000000000017"),
        Ok(17)
    );
}

#[test]
fn parse_rejects_what_is_not_a_numeral() {
    assert_eq!(parse_device_id(""), Err(UpgradeRejected::Malformed));
    assert_eq!(parse_device_id("-"), Err(UpgradeRejected::Malformed));
    assert_eq!(parse_device_id("+"), Err(UpgradeRejected::Malformed));
    assert_eq!(parse_device_id("abc"), Err(UpgradeRejected::Malformed));
    assert_eq!(parse_device_id("12a"), Err(UpgradeRejected::Malformed));
    assert_eq!(parse_device_id("a12"), Err(UpgradeRejected::Malformed));
    assert_eq!(parse_device_id(" 7"), Err(UpgradeRejected::Malformed));
    assert_eq!(parse_device_id("7 "), Err(UpgradeRejected::Malformed));
    assert_eq!(parse_device_id("7.0"), Err(UpgradeRejected::Malformed));
    assert_eq!(parse_device_id("--7"), Err(UpgradeRejected::Malformed));
    assert_eq!(parse_device_id("+-7"), Err(UpgradeRejected::Malformed));
    assert_eq!(parse_device_id("0x10"), Err(UpgradeRejected::Malformed));
    assert_eq!(parse_device_id("\u{0663}"), Err(UpgradeRejected::Malformed));
    assert_eq!(
        parse_device_id("99999999999999999999999999999999999999999999x"),
        Err(UpgradeRejected::Malformed)
    );
}

#[test]
fn parse_agrees_with_the_standard_parser() {
    let samples = [
        "1", "-1", "+1", "", "-", "+", "12345", "-12345", "9223372036854775807",
        "9223372036854775808", "-9223372036854775808", "-9223372036854775809", "1e3", "\u{0663}", "1_000",
        "00", "-00012",
    ];
    for text in samples {
        assert_eq!(parse_device_id(text).ok(), text.parse::<i64>().ok(), "{}", text);
    }
}

#[test]
fn accept_makes_a_connecting_session() {
    let session = accept(Some("9")).expect("a usable identity");
    assert_eq!(session.device_id(), 9);
    assert_eq!(session.state(), SessionState::Connecting);
    assert_eq!(session.preferred(), Source::Outbound);
    assert_eq!(session.persist_failures(), 0);
}

#[test]
fn accept_turns_away_requests_without_identity() {
    assert!(matches!(accept(None), Err(UpgradeRejected::Missing)));
    assert!(matches!(accept(Some("")), Err(UpgradeRejected::Malformed)));
    assert!(matches!(accept(Some("kitchen")), Err(UpgradeRejected::Malformed)));
    assert!(matches!(
        accept(Some("18446744073709551616")),
        Err(UpgradeRejected::OutOfRange)
    ));
}
