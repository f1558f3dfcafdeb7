//! The data model of the command-line surface: which command was asked
//! for, with which options. Reading these values from the actual command
//! line is a collaborator's business.

pub mod app_path;
pub mod bundle_identifier;
pub mod device_name;

use vstd::prelude::*;
use crate::ios_deploy::detect::DetectDevicesConfig;
use crate::open::well_known::WellKnown;
use crate::cli::app_path::AppPathArgs;
use crate::cli::device_name::{DeviceSimulatorBootedArgs, DeviceSimulatorUnBootedArgs};
use crate::xcrun::simctl::launch::CliLaunchArgs;

verus! {

/// A whole invocation: the global options and the chosen command.
#[derive(Debug)]
pub struct CliArgs {
    pub args: TopLevelCliArgs,
    pub command: Commands,
}

/// Options that apply to every command.
#[derive(Debug, Clone)]
pub struct TopLevelCliArgs {
    /// Output data as JSON for machines rather than prose for humans.
    pub machine: bool,
    /// Log verbosely.
    pub verbose: bool,
    /// Only display warnings and errors.
    pub quiet: bool,
}

impl TopLevelCliArgs {
    pub fn machine(&self) -> (b: bool)
        ensures
            b == self.machine,
    {
        self.machine
    }

    pub fn human(&self) -> (b: bool)
        ensures
            b == !self.machine,
    {
        !self.machine()
    }

    pub fn verbose(&self) -> (b: bool)
        ensures
            b == self.verbose,
    {
        self.verbose
    }

    pub fn quiet(&self) -> (b: bool)
        ensures
            b == self.quiet,
    {
        self.quiet
    }
}

/// The commands this tooling offers.
#[derive(Debug)]
pub enum Commands {
    Init(Init),
    IosDeploy(IosDeploy),
    Security(Security),
    Spctl(Spctl),
    CodeSign(CodeSign),
    XcRun(XcRun),
    Open(Open),
}

/// Shell-completion setup.
#[derive(Debug, Clone)]
pub enum Init {
    NuShell {
        /// Install the completions automatically.
        auto: bool,
        /// Print the raw completion script instead.
        raw_script: bool,
    },
}

#[derive(Debug)]
pub enum IosDeploy {
    /// Spends a second detecting already connected devices.
    Detect { config: DetectDevicesConfig },
    /// Uploads an app to a real device.
    Upload {
        app_path: AppPathArgs,
        auto_detect_config: DetectDevicesConfig,
    },
}

#[derive(Debug, Clone)]
pub enum CargoBundle {
    /// Bundles the iOS app.
    Ios,
}

#[derive(Debug, Clone)]
pub enum Security {
    Certs,
    Pems,
}

#[derive(Debug)]
pub enum CodeSign {
    /// Displays the code signature of the given app.
    Display { app_path: AppPathArgs },
    Sign { app_path: AppPathArgs },
}

#[derive(Debug)]
pub enum Spctl {
    AssessApp { app_path: AppPathArgs },
}

#[derive(Debug)]
pub enum XcRun {
    Simctl(Simctl),
}

/// The word `booted`, as the tool accepts it in place of a device name.
#[derive(Debug, Clone, Copy, PartialEq, Eq, Structural)]
pub enum Booted {
    Booted,
}

#[derive(Debug)]
pub enum Simctl {
    List,
    Boot { simulator_id: DeviceSimulatorUnBootedArgs },
    Install {
        booted_simulator: DeviceSimulatorBootedArgs,
        app_path: AppPathArgs,
    },
    Launch {
        booted_simulator: DeviceSimulatorBootedArgs,
        args: CliLaunchArgs,
    },
}

#[derive(Debug, Clone, Copy)]
pub struct Open {
    pub well_known: WellKnown,
}

} // verus!
