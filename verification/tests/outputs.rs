//! Tests for the command output classification framework.

use apple_clis::codesign::display::DisplayOutput;
use apple_clis::codesign::sign::SignOutput;
use apple_clis::error::Error;
use apple_clis::identifiers::device_name::DeviceName;
use apple_clis::identifiers::RuntimeIdentifier;
use apple_clis::ios_deploy::upload::UploadOutput;
use apple_clis::shared::PublicCommandOutput;
use apple_clis::spctl::assess::{AssessOutput, AssessType};
use apple_clis::xcrun::simctl::boot::BootOutput;
use apple_clis::xcrun::simctl::install::InstallOutput;
use apple_clis::xcrun::simctl::launch::{CliLaunchArgs, LaunchOutput};
use apple_clis::xcrun::simctl::list::{self, ListDevice, ListJson, ListOutput, State};

#[test]
fn boot_classifies_already_booted() {
    let stderr = "An error was encountered processing the command (domain=com.apple.CoreSimulator.SimError, code=405):\nUnable to boot device in current state: Booted";
    let output = BootOutput::from_success_stream(false, stderr.to_string());
    assert!(matches!(output, BootOutput::AlreadyBooted));
    // already booted counts as success: the device is in the wanted state
    assert!(output.successful());
    assert!(output.success().is_ok());
}

#[test]
fn boot_classifies_launchd_failure() {
    let stderr = "An error was encountered processing the command (domain=NSPOSIXErrorDomain, code=60):\nlaunchd failed to respond.";
    let output = BootOutput::from_success_stream(false, stderr.to_string());
    match &output {
        BootOutput::ErrorLaunchDFailed { stderr: kept } => assert_eq!(kept, stderr),
        other => panic!("expected the launchd failure, got {:?}", other),
    }
    match output.success() {
        Err(Error::OutputErrored { help_hint, .. }) => {
            assert!(help_hint.is_some(), "the launchd failure should carry a hint");
        },
        other => panic!("expected an output error, got {:?}", other),
    }
}

#[test]
fn boot_classification_is_total() {
    let triples = [
        (true, "anything at all"),
        (false, ""),
        (false, "some unrecognized failure"),
        (false, "An error was encountered processing the command"),
        (false, "An error was encountered processing the command (domain=x, code=1): something else"),
    ];
    for (success, stream) in triples {
        let output = BootOutput::from_success_stream(success, stream.to_string());
        if success {
            assert!(matches!(output, BootOutput::SuccessUnImplemented { .. }));
        } else {
            assert!(matches!(
                output,
                BootOutput::ErrorUnImplemented { .. }
                    | BootOutput::AlreadyBooted
                    | BootOutput::ErrorLaunchDFailed { .. }
            ));
        }
    }
}

#[test]
fn simple_outputs_classify_by_exit_status() {
    let sign = SignOutput::from_success_stream(true, "ok".to_string());
    assert!(sign.successful());
    let sign = SignOutput::from_success_stream(false, "boom".to_string());
    assert!(sign.failed());
    assert!(matches!(sign.success(), Err(Error::OutputErrored { .. })));

    let assess = AssessOutput::from_success_stream(false, "rejected".to_string());
    assert!(assess.failed());
    let assess = AssessOutput::from_success_stream(true, "accepted".to_string());
    assert!(assess.successful());

    let upload = UploadOutput::from_success_stream(true, String::new());
    assert!(upload.successful());
    let install = InstallOutput::from_success_stream(false, "no device".to_string());
    assert!(install.failed());
    let launch = LaunchOutput::from_success_stream(true, "pid 123".to_string());
    assert!(launch.successful());
}

#[test]
fn assess_type_flags() {
    assert_eq!(AssessType::App.into_type(), "exec");
    assert_eq!(AssessType::DiskImage.into_type(), "open");
    assert_eq!(AssessType::InstallerPackage.into_type(), "install");
}

#[test]
fn launch_args_resolve() {
    let args = CliLaunchArgs {
        console: true,
        bundle_id: "com.example.app".to_string(),
        piped: false,
    };
    let (piped, config) = args.resolve().unwrap();
    assert!(!piped);
    assert!(config.console());
    assert_eq!(config.bundle_id(), "com.example.app");
}

#[test]
fn display_classifies_unsigned_object() {
    let stdout = "/tmp/example.app: code object is not signed at all";
    let output = DisplayOutput::from_success_stream(true, stdout.to_string());
    match &output {
        DisplayOutput::NotSignedAtAll { path } => assert_eq!(path, "/tmp/example.app"),
        other => panic!("expected the unsigned report, got {:?}", other),
    }
    assert!(output.failed());
}

#[test]
fn display_keeps_unrecognized_output() {
    let output = DisplayOutput::from_success_stream(true, "something new".to_string());
    assert!(matches!(output, DisplayOutput::SuccessUnimplemented { .. }));
    let output = DisplayOutput::from_success_stream(false, "tool exploded".to_string());
    assert!(matches!(output, DisplayOutput::ErrorUnImplemented { .. }));
}

fn example_device(name: &str, state: State, available: bool) -> ListDevice {
    ListDevice {
        availability_error: None,
        data_path: "/data".to_string(),
        log_path: "/log".to_string(),
        udid: "0000-1111".to_string(),
        is_available: available,
        device_type_identifier: "com.apple.CoreSimulator.SimDeviceType.Example".to_string(),
        state,
        name: DeviceName::parse(name),
    }
}

fn example_listing() -> ListJson {
    ListJson {
        devices: vec![
            (
                RuntimeIdentifier("com.apple.CoreSimulator.SimRuntime.iOS-16-4".to_string()),
                vec![
                    example_device("iPhone 11", State::Shutdown, true),
                    example_device("iPad (9th generation)", State::Booted, true),
                ],
            ),
            (
                RuntimeIdentifier("com.apple.CoreSimulator.SimRuntime.iOS-17-0".to_string()),
                vec![
                    example_device("iPhone 14 Pro Max", State::Shutdown, true),
                    example_device("iPad Pro 13-inch (M4)", State::Shutdown, false),
                    example_device("Example Device 9000", State::Shutdown, true),
                ],
            ),
        ],
    }
}

#[test]
fn listing_queries_find_the_newest_devices() {
    let listing = example_listing();
    let devices = listing.devices();
    assert_eq!(devices.len(), 5);
    assert!(devices[1].ready());
    assert!(!devices[3].ready());

    let names = list::names(&devices);
    assert_eq!(names.len(), 5);
    assert!(list::a_device(&devices).is_some());

    let iphones = list::iphones(&names);
    assert_eq!(iphones.len(), 2);
    let ipads = list::ipads(&names);
    assert_eq!(ipads.len(), 2);

    let newest_iphone = list::an_iphone(&names).expect("an iPhone should be found");
    let expected = DeviceName::parse("iPhone 14 Pro Max");
    match expected {
        DeviceName::IPhone(v) => assert!(newest_iphone == v),
        _ => unreachable!(),
    }

    let newest_ipad = list::an_ipad(&names).expect("an iPad should be found");
    let expected = DeviceName::parse("iPad Pro 13-inch (M4)");
    match expected {
        DeviceName::IPad(v) => assert!(newest_ipad == v),
        _ => unreachable!(),
    }
}

#[test]
fn list_output_accessors() {
    let listing = example_listing();
    let output = ListOutput::from_success_stream(true, String::new(), Some(listing));
    assert!(output.successful());
    assert!(output.get_success().is_some());
    assert!(output.get_success_reported().is_ok());
    let inner = output.unwrap_success();
    assert_eq!(inner.devices.len(), 2);

    let output = ListOutput::from_success_stream(true, "not json".to_string(), None);
    assert!(output.failed());
    assert!(output.get_success().is_none());
    assert!(output.get_success_reported().is_err());

    let output = ListOutput::from_success_stream(false, "exploded".to_string(), None);
    assert!(matches!(output, ListOutput::ErrorUnImplemented { .. }));
}

#[test]
fn display_classifies_signed_report() {
    let report = [
        "Executable=/tmp/example.app/example",
        "Identifier=com.example.app",
        "Authority=Apple Development: dev@example.com (ABCDE12345)",
        "Signed Time=16 Mar 2024 at 2:41:28 pm",
    ]
    .join("\n");
    let output = DisplayOutput::from_success_stream(true, report);
    match &output {
        DisplayOutput::SignedKeys(keys) => {
            assert_eq!(keys.identifier(), "com.example.app");
        },
        other => panic!("expected a parsed report, got {:?}", other),
    }
    assert!(output.successful());
    assert!(output.success().is_ok());
}
