//! Arguments that select a simulator device, and their resolution
//! against a device listing. Fetching the listing, and booting a device
//! when one must be booted first, are a collaborator's business: the
//! resolution here only decides which device that should be.

use vstd::prelude::*;
use crate::error::Error;
use crate::identifiers::device_name::{spec_same_name, DeviceName};
use crate::xcrun::simctl::list::{
    an_ipad, an_iphone, names, ready_devices, spec_best_ipad, spec_best_iphone, spec_ipads_of,
    spec_iphones_of, spec_ready_of, ListJson,
    lemma_ipads_of_names, lemma_iphones_of_names,
};

verus! {

/// Selects a simulator that need not be booted.
#[derive(Debug)]
pub struct DeviceSimulatorUnBootedArgs {
    /// Select the newest iPad simulator automatically.
    pub ipad: bool,
    /// Select the newest iPhone simulator automatically.
    pub iphone: bool,
    /// An exact name, e.g. "iPhone 12 Pro Max".
    pub name: Option<DeviceName>,
}

/// Selects a booted simulator.
#[derive(Debug)]
pub struct DeviceSimulatorBootedArgs {
    /// Accept any device that is already booted.
    pub booted: bool,
    /// Boot a matching device if none is booted yet.
    pub auto_boot: bool,
    /// Select a booted iPad simulator.
    pub ipad: bool,
    /// Select a booted iPhone simulator.
    pub iphone: bool,
    /// An exact name; its booted state is confirmed.
    pub name: Option<DeviceName>,
}

impl DeviceSimulatorUnBootedArgs {
    /// Resolves these arguments against a device listing: an exact name
    /// is taken as given; `ipad` and `iphone` pick the newest installed
    /// device of that family; a family with no installed device is an
    /// error, as is a flag combination the command line should prevent.
    pub fn resolve_with(self, listing: &ListJson) -> (r: Result<DeviceName, Error>)
        ensures
            ({
                let ds = listing.spec_devices();
                let pads = spec_ipads_of(ds, ds.len() as int);
                let phones = spec_iphones_of(ds, ds.len() as int);
                match (self.ipad, self.iphone, self.name) {
                    (false, false, Some(name)) => r == Ok::<DeviceName, Error>(name),
                    (true, false, None) => match r {
                        Ok(d) => pads.len() > 0
                            && d == DeviceName::IPad(spec_best_ipad(pads, pads.len() as int)),
                        Err(e) => pads.len() == 0 && e is NoMatchingDevice,
                    },
                    (false, true, None) => match r {
                        Ok(d) => phones.len() > 0
                            && d == DeviceName::IPhone(spec_best_iphone(phones, phones.len() as int)),
                        Err(e) => phones.len() == 0 && e is NoMatchingDevice,
                    },
                    _ => r matches Err(e) && e is InvalidArguments,
                }
            }),
    {
        let ghost ds = listing.spec_devices();
        match (self.ipad, self.iphone, self.name) {
            (false, false, Some(name)) => Ok(name),
            (true, false, None) => {
                let devices = listing.devices();
                let ns = names(&devices);
                proof {
                    lemma_ipads_of_names(ns@, ds, ds.len() as int);
                }
                match an_ipad(&ns) {
                    Some(v) => Ok(DeviceName::IPad(v)),
                    None => {
                        let mut msg = String::new();
                        msg.append("no simulator iPads found");
                        Err(Error::NoMatchingDevice { msg })
                    },
                }
            },
            (false, true, None) => {
                let devices = listing.devices();
                let ns = names(&devices);
                proof {
                    lemma_iphones_of_names(ns@, ds, ds.len() as int);
                }
                match an_iphone(&ns) {
                    Some(v) => Ok(DeviceName::IPhone(v)),
                    None => {
                        let mut msg = String::new();
                        msg.append("no simulator iPhones found");
                        Err(Error::NoMatchingDevice { msg })
                    },
                }
            },
            _ => {
                let mut msg = String::new();
                msg.append("pass exactly one of a name, the iPad flag or the iPhone flag");
                Err(Error::InvalidArguments { msg })
            },
        }
    }
}

/// What resolving against booted devices decided: either a device that is
/// already booted, or the device to boot first.
#[derive(Debug, Clone)]
pub enum BootedResolution {
    /// The chosen device is already booted and ready.
    Ready(DeviceName),
    /// No matching device is booted; boot this one, then use it.
    BootFirst(DeviceName),
}

impl DeviceSimulatorBootedArgs {
    /// Resolves these arguments against a device listing, deciding which
    /// device to use and whether it must be booted first. Without
    /// auto-boot, a listing with no ready device is an error; an exact
    /// name must occur in the listing; the family flags pick the newest
    /// ready device of the family, or, with auto-boot, the newest
    /// installed one to boot.
    pub fn resolve_with(self, listing: &ListJson) -> (r: Result<BootedResolution, Error>)
        ensures
            ({
                let ds = listing.spec_devices();
                let ready = spec_ready_of(ds, ds.len() as int);
                let ready_pads = spec_ipads_of(ready, ready.len() as int);
                let ready_phones = spec_iphones_of(ready, ready.len() as int);
                let all_pads = spec_ipads_of(ds, ds.len() as int);
                let all_phones = spec_iphones_of(ds, ds.len() as int);
                if ready.len() == 0 && !self.auto_boot {
                    r matches Err(e) && e is NoMatchingDevice
                } else {
                    match (self.booted, self.ipad, self.iphone, self.name, self.auto_boot) {
                        (true, false, false, None, auto) => {
                            if auto {
                                match r {
                                    Ok(res) => ds.len() > 0
                                        && res == BootedResolution::BootFirst(ds[0].name),
                                    Err(e) => ds.len() == 0 && e is NoMatchingDevice,
                                }
                            } else {
                                r == Ok::<BootedResolution, Error>(
                                    BootedResolution::Ready(ready[0].name),
                                )
                            }
                        },
                        (false, true, false, None, auto) => {
                            if auto {
                                match r {
                                    Ok(res) => all_pads.len() > 0 && res == BootedResolution::BootFirst(
                                        DeviceName::IPad(spec_best_ipad(all_pads, all_pads.len() as int)),
                                    ),
                                    Err(e) => all_pads.len() == 0 && e is NoMatchingDevice,
                                }
                            } else {
                                match r {
                                    Ok(res) => ready_pads.len() > 0 && res == BootedResolution::Ready(
                                        DeviceName::IPad(spec_best_ipad(ready_pads, ready_pads.len() as int)),
                                    ),
                                    Err(e) => ready_pads.len() == 0 && e is NoMatchingDevice,
                                }
                            }
                        },
                        (false, false, true, None, auto) => {
                            if auto {
                                match r {
                                    Ok(res) => all_phones.len() > 0 && res == BootedResolution::BootFirst(
                                        DeviceName::IPhone(spec_best_iphone(all_phones, all_phones.len() as int)),
                                    ),
                                    Err(e) => all_phones.len() == 0 && e is NoMatchingDevice,
                                }
                            } else {
                                match r {
                                    Ok(res) => ready_phones.len() > 0 && res == BootedResolution::Ready(
                                        DeviceName::IPhone(spec_best_iphone(ready_phones, ready_phones.len() as int)),
                                    ),
                                    Err(e) => ready_phones.len() == 0 && e is NoMatchingDevice,
                                }
                            }
                        },
                        (false, false, false, Some(name), auto) => {
                            let installed = exists|k: int|
                                0 <= k < ds.len() && spec_same_name((#[trigger] ds[k]).name, name);
                            match r {
                                Ok(res) => installed && res == (if auto {
                                    BootedResolution::BootFirst(name)
                                } else {
                                    BootedResolution::Ready(name)
                                }),
                                Err(e) => !installed && e is NoMatchingDevice,
                            }
                        },
                        _ => r matches Err(e) && e is InvalidArguments,
                    }
                }
            }),
    {
        let ghost ds = listing.spec_devices();
        let devices = listing.devices();
        let ready = ready_devices(&devices, Ghost(ds));
        let ghost readys = spec_ready_of(ds, ds.len() as int);
        if ready.len() == 0 && !self.auto_boot {
            let mut msg = String::new();
            msg.append("no booted devices found; consider the auto-boot flag");
            return Err(Error::NoMatchingDevice { msg });
        }
        match (self.booted, self.ipad, self.iphone, self.name, self.auto_boot) {
            (true, false, false, None, auto) => {
                if auto {
                    if devices.len() > 0 {
                        Ok(BootedResolution::BootFirst(devices[0].name.duplicate()))
                    } else {
                        let mut msg = String::new();
                        msg.append("no simulators installed at all");
                        Err(Error::NoMatchingDevice { msg })
                    }
                } else {
                    Ok(BootedResolution::Ready(ready[0].name.duplicate()))
                }
            },
            (false, true, false, None, auto) => {
                let chosen = if auto {
                    let ns = names(&devices);
                    proof {
                        lemma_ipads_of_names(ns@, ds, ds.len() as int);
                    }
                    an_ipad(&ns)
                } else {
                    let ns = names(&ready);
                    proof {
                        lemma_ipads_of_names(ns@, readys, readys.len() as int);
                    }
                    an_ipad(&ns)
                };
                match chosen {
                    Some(v) => if auto {
                        Ok(BootedResolution::BootFirst(DeviceName::IPad(v)))
                    } else {
                        Ok(BootedResolution::Ready(DeviceName::IPad(v)))
                    },
                    None => {
                        let mut msg = String::new();
                        msg.append("no matching iPad simulators found");
                        Err(Error::NoMatchingDevice { msg })
                    },
                }
            },
            (false, false, true, None, auto) => {
                let chosen = if auto {
                    let ns = names(&devices);
                    proof {
                        lemma_iphones_of_names(ns@, ds, ds.len() as int);
                    }
                    an_iphone(&ns)
                } else {
                    let ns = names(&ready);
                    proof {
                        lemma_iphones_of_names(ns@, readys, readys.len() as int);
                    }
                    an_iphone(&ns)
                };
                match chosen {
                    Some(v) => if auto {
                        Ok(BootedResolution::BootFirst(DeviceName::IPhone(v)))
                    } else {
                        Ok(BootedResolution::Ready(DeviceName::IPhone(v)))
                    },
                    None => {
                        let mut msg = String::new();
                        msg.append("no matching iPhone simulators found");
                        Err(Error::NoMatchingDevice { msg })
                    },
                }
            },
            (false, false, false, Some(name), auto) => {
                let mut installed = false;
                let mut i: usize = 0;
                while i < devices.len()
                    invariant
                        i <= devices.len(),
                        devices@.len() == ds.len(),
                        forall|k: int| 0 <= k < ds.len() ==> *devices@[k] == ds[k],
                        installed == exists|k: int|
                            0 <= k < i && spec_same_name((#[trigger] ds[k]).name, name),
                    decreases devices.len() - i,
                {
                    proof {
                        assert(*devices@[i as int] == ds[i as int]);
                    }
                    if devices[i].name == name {
                        installed = true;
                        proof {
                            assert(spec_same_name(ds[i as int].name, name));
                        }
                    }
                    i = i + 1;
                }
                if !installed {
                    let mut msg = String::new();
                    msg.append("the provided device name is not installed");
                    Err(Error::NoMatchingDevice { msg })
                } else if auto {
                    Ok(BootedResolution::BootFirst(name))
                } else {
                    Ok(BootedResolution::Ready(name))
                }
            },
            _ => {
                let mut msg = String::new();
                msg.append("pass exactly one of a name, the booted, iPad or iPhone flag");
                Err(Error::InvalidArguments { msg })
            },
        }
    }
}

} // verus!
