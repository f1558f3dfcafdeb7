//! Tests for device resolution against a listing, and for the partial
//! cross-family comparison.

use apple_clis::cli::device_name::{
    BootedResolution, DeviceSimulatorBootedArgs, DeviceSimulatorUnBootedArgs,
};
use apple_clis::error::Error;
use apple_clis::identifiers::device_name::DeviceName;
use apple_clis::identifiers::RuntimeIdentifier;
use apple_clis::xcrun::simctl::list::{ListDevice, ListJson, State};
use std::cmp::Ordering;

fn device(name: &str, state: State) -> ListDevice {
    ListDevice {
        availability_error: None,
        data_path: "/data".to_string(),
        log_path: "/log".to_string(),
        udid: "0000-1111".to_string(),
        is_available: true,
        device_type_identifier: "com.apple.CoreSimulator.SimDeviceType.Example".to_string(),
        state,
        name: DeviceName::parse(name),
    }
}

fn listing() -> ListJson {
    ListJson {
        devices: vec![(
            RuntimeIdentifier("com.apple.CoreSimulator.SimRuntime.iOS-17-0".to_string()),
            vec![
                device("iPhone 11", State::Shutdown),
                device("iPad (9th generation)", State::Booted),
                device("iPhone 14 Pro Max", State::Shutdown),
                device("iPad Pro 13-inch (M4)", State::Shutdown),
            ],
        )],
    }
}

#[test]
fn unbooted_resolution_picks_newest_of_family() {
    let listing = listing();
    let args = DeviceSimulatorUnBootedArgs { ipad: true, iphone: false, name: None };
    let resolved = args.resolve_with(&listing).unwrap();
    assert_eq!(resolved.display(), "iPad Pro 13-inch (M4)");

    let args = DeviceSimulatorUnBootedArgs { ipad: false, iphone: true, name: None };
    let resolved = args.resolve_with(&listing).unwrap();
    assert_eq!(resolved.display(), "iPhone 14 Pro Max");

    let exact = DeviceName::parse("iPhone 11");
    let args = DeviceSimulatorUnBootedArgs { ipad: false, iphone: false, name: Some(exact) };
    let resolved = args.resolve_with(&listing).unwrap();
    assert_eq!(resolved.display(), "iPhone 11");

    let args = DeviceSimulatorUnBootedArgs { ipad: true, iphone: true, name: None };
    assert!(matches!(
        args.resolve_with(&listing),
        Err(Error::InvalidArguments { .. })
    ));
}

#[test]
fn booted_resolution_decides_between_ready_and_boot_first() {
    let listing = listing();

    // any booted device: the iPad of the listing is the one that is ready
    let args = DeviceSimulatorBootedArgs {
        booted: true,
        auto_boot: false,
        ipad: false,
        iphone: false,
        name: None,
    };
    match args.resolve_with(&listing).unwrap() {
        BootedResolution::Ready(name) => assert_eq!(name.display(), "iPad (9th generation)"),
        other => panic!("expected a ready device, got {:?}", other),
    }

    // no iPhone is booted, so without auto-boot there is nothing to take
    let args = DeviceSimulatorBootedArgs {
        booted: false,
        auto_boot: false,
        ipad: false,
        iphone: true,
        name: None,
    };
    assert!(matches!(
        args.resolve_with(&listing),
        Err(Error::NoMatchingDevice { .. })
    ));

    // with auto-boot, the newest installed iPhone is the one to boot
    let args = DeviceSimulatorBootedArgs {
        booted: false,
        auto_boot: true,
        ipad: false,
        iphone: true,
        name: None,
    };
    match args.resolve_with(&listing).unwrap() {
        BootedResolution::BootFirst(name) => assert_eq!(name.display(), "iPhone 14 Pro Max"),
        other => panic!("expected a device to boot, got {:?}", other),
    }

    // an exact name must be installed
    let args = DeviceSimulatorBootedArgs {
        booted: false,
        auto_boot: true,
        ipad: false,
        iphone: false,
        name: Some(DeviceName::parse("iPhone 13")),
    };
    assert!(matches!(
        args.resolve_with(&listing),
        Err(Error::NoMatchingDevice { .. })
    ));

    let args = DeviceSimulatorBootedArgs {
        booted: false,
        auto_boot: false,
        ipad: false,
        iphone: false,
        name: Some(DeviceName::parse("iPhone 11")),
    };
    match args.resolve_with(&listing).unwrap() {
        BootedResolution::Ready(name) => assert_eq!(name.display(), "iPhone 11"),
        other => panic!("expected the named device, got {:?}", other),
    }
}

#[test]
fn compare_is_defined_within_a_family_only() {
    let a = DeviceName::parse("iPhone 11");
    let b = DeviceName::parse("iPhone 14 Pro Max");
    assert_eq!(a.compare(&b), Some(Ordering::Less));
    assert_eq!(b.compare(&a), Some(Ordering::Greater));
    assert_eq!(a.compare(&a), Some(Ordering::Equal));

    let pad = DeviceName::parse("iPad (9th generation)");
    assert_eq!(a.compare(&pad), None);
    assert_eq!(pad.compare(&a), None);

    let stray = DeviceName::parse("Example Device 9000");
    assert_eq!(stray.compare(&stray), None);
    assert_eq!(stray.compare(&a), None);
}

#[test]
fn device_name_equality_ignores_presentation() {
    let long = DeviceName::parse("iPad mini (6th generation)");
    let short = DeviceName::parse("iPad mini 6G");
    assert!(long == short);
    assert!(long != DeviceName::parse("iPad mini (5th generation)"));
    assert!(long != DeviceName::parse("iPhone 11"));
    assert!(
        DeviceName::parse("Example Device 9000") == DeviceName::parse("Example Device 9000")
    );
    assert!(long.duplicate() == long);
}
