//! Tests for the `codesign -d` report grammar and the signing timestamp.

use apple_clis::codesign::display::signed_keys::{parse_date, SignedDateTime, SignedKeys};
use apple_clis::error::Error;
use apple_clis::text::str_to_chars;

fn example_report() -> String {
    [
        "Executable=/tmp/example.app/example",
        "Identifier=com.example.app",
        "Format=app bundle with Mach-O thin (arm64)",
        "CodeDirectory v=20400 size=768 flags=0x0(none) hashes=13+7 location=embedded",
        "Signature size=4523",
        "Authority=Apple Development: dev@example.com (ABCDE12345)",
        "Authority=Apple Worldwide Developer Relations Certification Authority",
        "Authority=Apple Root CA",
        "Signed Time=16 Mar 2024 at 2:41:28 pm",
        "Info.plist entries=22",
        "Sealed Resources version=2 rules=10 files=0",
    ]
    .join("\n")
}

#[test]
fn test_parse_raw_display_output() {
    let report = example_report();
    let keys = SignedKeys::from_raw(&report).expect("the report should parse");
    assert_eq!(keys.raw().len(), 11);
    assert_eq!(keys.raw()[0].0, "Executable");
    // a compound value keeps everything after the first equals sign
    assert_eq!(keys.raw()[10].0, "Sealed Resources version");
    assert_eq!(keys.raw()[10].1, "2 rules=10 files=0");
}

#[test]
fn signed_keys_test_parse_raw_display_output() {
    let report = example_report();
    let keys = SignedKeys::from_raw(&report).expect("the report should parse");
    // the first Authority entry wins
    assert_eq!(keys.authority_1(), "Apple Development: dev@example.com (ABCDE12345)");
}

#[test]
fn test_parse_extracted_display_output() {
    let report = example_report();
    let keys = SignedKeys::from_raw(&report).expect("the report should parse");
    assert_eq!(keys.executable(), "/tmp/example.app/example");
    assert_eq!(keys.identifier(), "com.example.app");
    let expected = SignedDateTime {
        day: 16,
        month: 3,
        year: 2024,
        hour: 2,
        minute: 41,
        second: 28,
        pm: true,
    };
    assert_eq!(*keys.signed_time(), expected);
}

#[test]
fn test_basic_dates_parse() {
    let examples = ["16 Mar 2024 at 2:41:28 pm"];
    for example in examples {
        let chars = str_to_chars(example);
        assert!(parse_date(&chars).is_some(), "failed to parse {:?}", example);
    }
}

#[test]
fn test_date_parses() {
    // the report uses a narrow no-break space before the day period
    let examples = [
        "16 Mar 2024 at 2:41:28 pm",
        "16 Mar 2024 at 2:41:28\u{202f}pm",
        "01 Jan 2020 at 11:59:59 AM",
    ];
    for example in examples {
        let chars = str_to_chars(example);
        assert!(parse_date(&chars).is_some(), "failed to parse {:?}", example);
    }
}

#[test]
fn date_rejects_impossible_days() {
    let good = str_to_chars("29 Feb 2024 at 1:00:00 am");
    assert!(parse_date(&good).is_some());
    let bad = [
        "29 Feb 2023 at 1:00:00 am",
        "31 Apr 2024 at 1:00:00 am",
        "00 Mar 2024 at 1:00:00 am",
        "16 Mar 2024 at 13:00:00 am",
        "16 Mar 2024 at 2:61:00 am",
        "16 Mar 2024 at 2:41:28 xm",
        "16 Mar 2024 2:41:28 am",
    ];
    for example in bad {
        let chars = str_to_chars(example);
        assert!(parse_date(&chars).is_none(), "unexpected parse of {:?}", example);
    }
}

#[test]
fn missing_keys_are_reported_in_order() {
    let report = "Identifier=com.example.app\nFormat=whatever";
    match SignedKeys::from_raw(report) {
        Err(Error::SigningPropertyNotFound { missing_key }) => {
            assert_eq!(missing_key, "Authority");
        },
        other => panic!("expected a missing Authority, got {:?}", other),
    }

    let report = "Authority=Someone\nExecutable=/x\nIdentifier=i\nFormat=f";
    match SignedKeys::from_raw(report) {
        Err(Error::SigningPropertyNotFound { missing_key }) => {
            assert_eq!(missing_key, "Signed Time");
        },
        other => panic!("expected a missing Signed Time, got {:?}", other),
    }
}

#[test]
fn bad_timestamps_are_reported() {
    let report = "Authority=Someone\nExecutable=/x\nIdentifier=i\nSigned Time=yesterday";
    match SignedKeys::from_raw(report) {
        Err(Error::ParseDateFailed { raw }) => assert_eq!(raw, "yesterday"),
        other => panic!("expected a date failure, got {:?}", other),
    }
}

#[test]
fn text_without_entries_is_rejected() {
    match SignedKeys::from_raw("no entries here") {
        Err(Error::OutputParseFailed { name, raw }) => {
            assert_eq!(name, "SignedKeys");
            assert_eq!(raw, "no entries here");
        },
        other => panic!("expected a parse failure, got {:?}", other),
    }
}
