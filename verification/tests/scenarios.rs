//! Concrete scenarios: exact parses of known names, totality on
//! adversarial input, and the equality laws.

use apple_clis::identifiers::device_name::DeviceName;
use apple_clis::identifiers::device_name::ipad::IPadVariant;
use apple_clis::identifiers::device_name::iphone::IPhoneVariant;
use apple_clis::identifiers::generation::Generation;
use apple_clis::identifiers::num_generation::NumGeneration;

#[test]
fn scenario_ipad_pro_size_first() {
    let parsed = DeviceName::parse("iPad Pro (11-inch) (4th generation)");
    match parsed {
        DeviceName::IPad(IPadVariant::Pro { size, generation, size_before_generation }) => {
            assert_eq!(size.ten_inches, 110);
            assert!(!size.short);
            assert!(size.brackets);
            assert!(size_before_generation);
            match generation {
                Generation::Num(g) => {
                    assert_eq!(g.num, 4);
                    assert!(!g.short);
                },
                other => panic!("expected an ordinal generation, got {:?}", other),
            }
        },
        other => panic!("expected an iPad Pro, got {:?}", other),
    }
}

#[test]
fn scenario_iphone_se() {
    let parsed = DeviceName::parse("iPhone SE (3rd generation)");
    match parsed {
        DeviceName::IPhone(IPhoneVariant::SE { generation: Generation::Num(g) }) => {
            assert_eq!(g.num, 3);
            assert!(!g.short);
        },
        other => panic!("expected an iPhone SE, got {:?}", other),
    }
}

#[test]
fn scenario_ipad_air_with_chip() {
    let parsed = DeviceName::parse("iPad Air 11-inch (M2)");
    match &parsed {
        DeviceName::IPad(IPadVariant::Air { size, generation }) => {
            let size = size.get().expect("the size should be recognized");
            assert_eq!(size.ten_inches, 110);
            assert!(!size.short);
            assert!(!size.brackets);
            match generation {
                Generation::M(m) => assert_eq!(m.num, 2),
                other => panic!("expected a chip generation, got {:?}", other),
            }
        },
        other => panic!("expected an iPad Air, got {:?}", other),
    }
    assert_eq!(parsed.display(), "iPad Air 11-inch (M2)");
}

#[test]
fn scenario_unrecognized_kept_verbatim() {
    let parsed = DeviceName::parse("Samsung Galaxy Tab");
    assert!(!parsed.parsed_successfully());
    assert!(!parsed.is_iphone());
    assert!(!parsed.is_ipad());
    assert!(parsed.get_ipad().is_none());
    assert!(parsed.get_iphone().is_none());
    assert_eq!(parsed.display(), "Samsung Galaxy Tab");
}

#[test]
fn parse_is_total_on_garbage() {
    let adversarial = [
        "",
        " ",
        "\n\t",
        "iPad",
        "iPhone",
        "iPhone garbage",
        "iPhone 0",
        "iPhone 300",
        "iPad Pro",
        "iPad mini",
        "iPad Pro (11-inch)",
        "iPhone 14 Pro Max trailing words",
        "(11-inch)",
        "🙂🙃 non-ascii ✨",
        "iPhone 14\u{0000}",
    ];
    for example in adversarial {
        let parsed = DeviceName::parse(example);
        assert!(!parsed.parsed_successfully(), "unexpected parse of {:?}", example);
        assert_eq!(parsed.display(), example);
    }
}

#[test]
fn whitespace_tolerated_between_tokens() {
    let lax = [
        ("iPad  mini  (6th  generation)", "iPad mini (6th generation)"),
        ("iPad mini ( 6th generation)", "iPad mini (6th generation)"),
        ("  iPhone SE (3rd generation)", "iPhone SE (3rd generation)"),
        ("iPad Pro ( 11-inch) (M4)", "iPad Pro (11-inch) (M4)"),
    ];
    for (input, canonical) in lax {
        let parsed = DeviceName::parse(input);
        assert!(parsed.parsed_successfully(), "failed to parse {:?}", input);
        assert_eq!(parsed.display(), canonical);
    }
}

#[test]
fn chip_marker_whitespace_tolerated() {
    let chars = apple_clis::text::str_to_chars("( M2 )");
    let (end, parsed) =
        Generation::parse_at(&chars, 0).expect("spaced chip marker should parse");
    assert_eq!(end, chars.len());
    match parsed {
        Generation::M(m) => assert_eq!(m.get(), 2),
        other => panic!("expected a chip generation, got {:?}", other),
    }
}

#[test]
fn generation_equality_ignores_presentation() {
    let long = NumGeneration::long(5);
    let short = NumGeneration::short(5);
    assert!(long == short);
    assert!(short == long);
    assert!(NumGeneration::long(5) != NumGeneration::long(6));
    assert!(Generation::Num(long) == Generation::Num(short));
}

#[test]
fn chip_generation_orders_above_numeric() {
    // whatever the numbers are
    let chip = Generation::M(apple_clis::identifiers::m_gen::MGen::new(1));
    let numeric = Generation::testing_num(250);
    assert!(chip > numeric);

    let air_m1 = DeviceName::parse("iPad Air (M1)");
    let air_5th = DeviceName::parse("iPad Air (5th generation)");
    match (air_m1, air_5th) {
        (DeviceName::IPad(newer), DeviceName::IPad(older)) => {
            assert!(newer > older);
        },
        other => panic!("expected two iPads, got {:?}", other),
    }
}

#[test]
fn leading_zero_numbers_are_not_recognized() {
    // "iPhone 07" would render as "iPhone 7": accepting it would break the
    // round-trip guarantee, so it falls back verbatim
    let parsed = DeviceName::parse("iPhone 07");
    assert!(!parsed.parsed_successfully());
    assert_eq!(parsed.display(), "iPhone 07");
}
