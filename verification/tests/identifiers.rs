//! Tests for the identifier grammar engine: parsing, rendering, the
//! round-trip behaviour on a corpus of real device names, and ordering.

use apple_clis::identifiers::device_name::DeviceName;
use apple_clis::identifiers::device_name::ipad::IPadVariant;
use apple_clis::identifiers::device_name::iphone::IPhoneVariant;
use apple_clis::identifiers::generation::Generation;
use apple_clis::identifiers::m_gen::{self, MaybeMGen};
use apple_clis::identifiers::m_status::{self, MaybeMStatus};
use apple_clis::identifiers::model_name::ModelName;
use apple_clis::identifiers::num_generation::{self, NumGeneration};
use apple_clis::identifiers::screen_size::{MaybeScreenSize, ScreenSize};
use apple_clis::text::{chars_to_string, str_to_chars};

fn assert_device_name_round_trips(examples: &[&str]) {
    for example in examples {
        let parsed = DeviceName::parse(example);
        assert!(
            parsed.parsed_successfully(),
            "got the fallback variant for {:?}",
            example
        );
        assert_eq!(parsed.display(), *example, "display mismatch for {:?}", example);
    }
}

#[test]
fn hardcoded_parse_device_names() {
    let examples = [
        "iPad Air 11-inch (M2)",
        "iPad Pro (11-inch) (4th generation)",
    ];
    assert_device_name_round_trips(&examples);
}

#[test]
fn generated_parse_device_name() {
    let examples = [
        "iPhone SE (3rd generation)",
        "iPhone 8",
        "iPhone 8 Plus",
        "iPhone 11",
        "iPhone 11 Pro",
        "iPhone 11 Pro Max",
        "iPhone 14",
        "iPhone 14 Plus",
        "iPhone 14 Pro",
        "iPhone 14 Pro Max",
        "iPhone 15",
        "iPhone 15 Pro Max",
        "iPad (9th generation)",
        "iPad (10th generation)",
        "iPad mini (6th generation)",
        "iPad Air (5th generation)",
        "iPad Air 11-inch (M2)",
        "iPad Air 13-inch (M2)",
        "iPad Pro (11-inch) (4th generation)",
        "iPad Pro (12.9-inch) (6th generation)",
        "iPad Pro 11-inch (M4)",
        "iPad Pro 13-inch (M4)",
    ];
    assert_device_name_round_trips(&examples);
}

#[test]
fn hard_coded_parsing() {
    let examples = ["iPad Pro 13-inch (M4)"];
    for example in examples {
        let parsed = DeviceName::parse(example);
        assert!(parsed.is_ipad(), "expected an iPad for {:?}", example);
        assert_eq!(parsed.display(), example);
    }
}

#[test]
fn iphone_ordering() {
    let old = IPhoneVariant::SE {
        generation: Generation::testing_num(1),
    };
    let new = IPhoneVariant::Number {
        num: 69,
        plus: true,
        pro: true,
        max: true,
    };
    assert!(new > old);
}

#[test]
fn ipad_ordering() {
    let old = IPadVariant::Plain {
        generation: Generation::testing_num(1),
    };
    let new = IPadVariant::Pro {
        size: ScreenSize::long_brackets(129),
        generation: Generation::testing_num(2),
        size_before_generation: false,
    };
    assert!(new > old);
}

#[test]
fn generation_ordering() {
    let lower = Generation::testing_num(1);
    let middle = Generation::M(apple_clis::identifiers::m_gen::MGen::new(1));
    let higher = Generation::M(apple_clis::identifiers::m_gen::MGen::new(3));

    assert!(lower < middle);
    assert!(middle < higher);
    assert!(lower < higher);
}

#[test]
fn test_generation_hard_coded() {
    let examples = ["(6th generation)", "(M2)"];
    for example in examples {
        let chars = str_to_chars(example);
        let (end, parsed) = Generation::parse_at(&chars, 0).expect("generation should parse");
        assert_eq!(end, chars.len(), "leftover input for {:?}", example);
        let mut out: Vec<char> = Vec::new();
        parsed.render_onto(&mut out);
        assert_eq!(chars_to_string(&out), example);
    }
}

#[test]
fn test_parse_hard_coded() {
    let examples = ["(M1)", "(M2)"];
    for example in examples {
        let chars = str_to_chars(example);
        let (end, parsed) = m_gen::parse_m_status(&chars, 0).expect("chip marker should parse");
        assert_eq!(end, chars.len());
        let mut out: Vec<char> = Vec::new();
        parsed.render_onto(&mut out);
        assert_eq!(chars_to_string(&out), example);
    }
}

#[test]
fn m_gen_test_parse_hard_coded() {
    let examples = ["(M1)", "(M2)"];
    for example in examples {
        let chars = str_to_chars(example);
        let (end, parsed) = m_gen::parse_m_status(&chars, 0).expect("chip marker should parse");
        assert_eq!(end, chars.len());
        assert!(parsed.get() >= 1);
        let mut out: Vec<char> = Vec::new();
        parsed.render_onto(&mut out);
        assert_eq!(chars_to_string(&out), example);
    }
}

#[test]
fn m_status_test_parse_hard_coded() {
    let examples = ["(M1)", "(M2)"];
    for example in examples {
        let chars = str_to_chars(example);
        let (end, parsed) = m_status::parse_m_status(&chars, 0).expect("chip marker should parse");
        assert_eq!(end, chars.len());
        assert!(parsed.get() >= 1);
        let mut out: Vec<char> = Vec::new();
        parsed.render_onto(&mut out);
        assert_eq!(chars_to_string(&out), example);
    }
}

#[test]
fn model_names_parse() {
    let examples = [
        "iPhone SE (3rd generation)",
        "iPhone 14 Pro Max",
        "iPad (10th generation)",
        "iPad mini (6th generation)",
        "iPad Air (5th generation)",
        "iPad Pro (12.9-inch) (6th generation)",
        "iPad Pro 11-inch (M4)",
    ];
    for example in examples {
        let parsed = ModelName::parse(example);
        assert!(
            parsed.parsed_successfully(),
            "got the fallback variant for {:?}",
            example
        );
        assert_eq!(parsed.display(), example);
    }
}

#[test]
fn num_generation_generation_ordering() {
    let old = NumGeneration::long(1);
    let newer = NumGeneration::short(2);
    assert!(newer > old);

    let old = NumGeneration::short(1);
    let newer = NumGeneration::long(2);
    assert!(newer > old);
}

#[test]
fn test_parse_ordinal() {
    let examples = ["st", "nd", "th"];
    for example in examples.iter() {
        let chars = str_to_chars(example);
        let output = num_generation::ordinal(&chars, 0);
        assert!(output.is_some(), "failed to parse {:?}", example);
    }
}

#[test]
fn test_parse_generation() {
    let examples = [
        "(1st generation)",
        "(2nd generation)",
        "(3rd generation)",
        "(4th generation)",
        "3G",
        "69G",
    ];
    for example in examples.iter() {
        let chars = str_to_chars(example);
        let (end, generation) =
            NumGeneration::parse_at(&chars, 0).expect("generation should parse");
        assert_eq!(end, chars.len(), "remaining was not empty for {:?}", example);
        let mut out: Vec<char> = Vec::new();
        generation.render_onto(&mut out);
        assert_eq!(chars_to_string(&out), *example);
    }
}

#[test]
fn screen_size_hardcoded() {
    let examples = ["(5.5-inch)", "(11-inch)", "(6.1\")", "13-inch", "11-inch"];
    for example in examples {
        let chars = str_to_chars(example);
        let (end, parsed) = ScreenSize::parse_at(&chars, 0).expect("screen size should parse");
        assert_eq!(end, chars.len(), "leftover input for {:?}", example);
        let mut out: Vec<char> = Vec::new();
        parsed.render_onto(&mut out);
        assert_eq!(chars_to_string(&out), example);
    }
}

#[test]
fn screen_size_ordering() {
    let small = ScreenSize::long_brackets(50);
    let large = ScreenSize::short_brackets(60);
    assert!(large > small);

    let small = ScreenSize::long_brackets(50);
    let large = ScreenSize::short_brackets(60);
    assert!(large > small);
}

#[test]
fn optional_markers() {
    let chars = str_to_chars("(M3) rest");
    let (end, marker) = MaybeMGen::parse_at(&chars, 0);
    assert_eq!(end, 4);
    assert_eq!(marker.get().map(|m| m.get_u8()), Some(3));
    let mut out: Vec<char> = Vec::new();
    marker.render_onto(&mut out);
    assert_eq!(chars_to_string(&out), " (M3)");

    let chars = str_to_chars("nothing here");
    let (end, marker) = MaybeMGen::parse_at(&chars, 0);
    assert_eq!(end, 0);
    assert!(marker.get().is_none());
    let mut out: Vec<char> = Vec::new();
    marker.render_onto(&mut out);
    assert_eq!(chars_to_string(&out), "");

    let chars = str_to_chars("(M1)");
    let (end, marker) = MaybeMStatus::parse_at(&chars, 0);
    assert_eq!(end, 4);
    assert_eq!(marker.get().map(|m| m.get()), Some(1));

    let chars = str_to_chars(" 11-inch and more");
    let (end, size) = MaybeScreenSize::parse_at(&chars, 0);
    assert_eq!(end, 8);
    let size = size.as_ref().expect("the size should be recognized");
    assert_eq!(size.get_ten_inches(), 110);
}
