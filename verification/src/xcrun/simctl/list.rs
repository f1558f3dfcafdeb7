//! Classified output of `xcrun simctl list --json`, and queries over the
//! device listing it reports.
//!
//! Decoding the JSON text into records is a collaborator's business; the
//! records reach this module as plain values, with every device name
//! routed through the device name grammar.

use vstd::prelude::*;
use crate::error::Error;
use crate::shared::PublicCommandOutput;
use crate::identifiers::RuntimeIdentifier;
use crate::identifiers::device_name::DeviceName;
use crate::identifiers::device_name::ipad::IPadVariant;
use crate::identifiers::device_name::iphone::IPhoneVariant;

verus! {

/// The state a simulator device is in.
#[derive(Debug, Clone, Copy, PartialEq, Eq, Structural)]
pub enum State {
    Shutdown,
    Booted,
}

impl State {
    pub fn ready(&self) -> (b: bool)
        ensures
            b == (self is Booted),
    {
        matches!(self, State::Booted)
    }
}

/// One device of the listing.
#[derive(Debug, Clone)]
pub struct ListDevice {
    pub availability_error: Option<String>,
    pub data_path: String,
    pub log_path: String,
    pub udid: String,
    pub is_available: bool,
    pub device_type_identifier: String,
    pub state: State,
    pub name: DeviceName,
}

impl ListDevice {
    /// Ready to use: booted and available.
    pub fn ready(&self) -> (b: bool)
        ensures
            b == (self.state is Booted && self.is_available),
    {
        self.state.ready() && self.is_available
    }
}

/// The device listing: devices grouped by simulator runtime.
#[derive(Debug, Clone)]
pub struct ListJson {
    pub devices: Vec<(RuntimeIdentifier, Vec<ListDevice>)>,
}

/// The devices of the first `i` runtime groups, in listing order.
pub open spec fn spec_devices_prefix(groups: Seq<(RuntimeIdentifier, Vec<ListDevice>)>, i: int) -> Seq<ListDevice>
    decreases i,
{
    if i <= 0 {
        Seq::empty()
    } else {
        spec_devices_prefix(groups, i - 1) + groups[i - 1].1@
    }
}

impl ListJson {
    /// All devices of the listing, in listing order.
    pub open spec fn spec_devices(self) -> Seq<ListDevice> {
        spec_devices_prefix(self.devices@, self.devices@.len() as int)
    }

    /// All devices of the listing, in listing order.
    pub fn devices(&self) -> (r: Vec<&ListDevice>)
        ensures
            r@.len() == self.spec_devices().len(),
            forall|k: int| 0 <= k < r@.len() ==> *r@[k] == self.spec_devices()[k],
    {
        let mut out: Vec<&ListDevice> = Vec::new();
        let mut i: usize = 0;
        while i < self.devices.len()
            invariant
                i <= self.devices.len(),
                out@.len() == spec_devices_prefix(self.devices@, i as int).len(),
                forall|k: int| 0 <= k < out@.len()
                    ==> *out@[k] == spec_devices_prefix(self.devices@, i as int)[k],
            decreases self.devices.len() - i,
        {
            let group = &self.devices[i].1;
            let mut j: usize = 0;
            while j < group.len()
                invariant
                    i < self.devices.len(),
                    j <= group.len(),
                    group == &self.devices@[i as int].1,
                    out@.len() == spec_devices_prefix(self.devices@, i as int).len() + j,
                    forall|k: int| 0 <= k < out@.len()
                        ==> *out@[k] == (spec_devices_prefix(self.devices@, i as int)
                            + group@.subrange(0, j as int))[k],
                decreases group.len() - j,
            {
                out.push(&group[j]);
                j = j + 1;
            }
            proof {
                assert(spec_devices_prefix(self.devices@, i as int) + group@.subrange(0, j as int)
                    =~= spec_devices_prefix(self.devices@, i as int + 1));
            }
            i = i + 1;
        }
        out
    }
}

/// The names of the given devices, in order.
pub fn names<'a>(devices: &Vec<&'a ListDevice>) -> (r: Vec<&'a DeviceName>)
    ensures
        r@.len() == devices@.len(),
        forall|k: int| 0 <= k < r@.len() ==> *r@[k] == devices@[k].name,
{
    let mut out: Vec<&'a DeviceName> = Vec::new();
    let mut i: usize = 0;
    while i < devices.len()
        invariant
            i <= devices.len(),
            out@.len() == i,
            forall|k: int| 0 <= k < i ==> *out@[k] == devices@[k].name,
        decreases devices.len() - i,
    {
        out.push(&devices[i].name);
        i = i + 1;
    }
    out
}

/// Some device of the listing: the first, if any.
pub fn a_device<'a>(devices: &Vec<&'a ListDevice>) -> (r: Option<&'a ListDevice>)
    ensures
        match r {
            Some(d) => devices@.len() > 0 && *d == *devices@[0],
            None => devices@.len() == 0,
        },
{
    if devices.len() > 0 {
        Some(devices[0])
    } else {
        None
    }
}

/// The iPhone variants among the given names, in order.
pub open spec fn spec_iphones_prefix(ns: Seq<&DeviceName>, i: int) -> Seq<IPhoneVariant>
    decreases i,
{
    if i <= 0 {
        Seq::empty()
    } else {
        let rest = spec_iphones_prefix(ns, i - 1);
        match *ns[i - 1] {
            DeviceName::IPhone(v) => rest + seq![v],
            _ => rest,
        }
    }
}

pub fn iphones<'a>(ns: &Vec<&'a DeviceName>) -> (r: Vec<&'a IPhoneVariant>)
    ensures
        r@.len() == spec_iphones_prefix(ns@, ns@.len() as int).len(),
        forall|k: int| 0 <= k < r@.len()
            ==> *r@[k] == spec_iphones_prefix(ns@, ns@.len() as int)[k],
{
    let mut out: Vec<&'a IPhoneVariant> = Vec::new();
    let mut i: usize = 0;
    while i < ns.len()
        invariant
            i <= ns.len(),
            out@.len() == spec_iphones_prefix(ns@, i as int).len(),
            forall|k: int| 0 <= k < out@.len() ==> *out@[k] == spec_iphones_prefix(ns@, i as int)[k],
        decreases ns.len() - i,
    {
        match ns[i] {
            DeviceName::IPhone(v) => {
                out.push(v);
            },
            _ => {},
        }
        i = i + 1;
    }
    out
}

/// The iPad variants among the given names, in order.
pub open spec fn spec_ipads_prefix(ns: Seq<&DeviceName>, i: int) -> Seq<IPadVariant>
    decreases i,
{
    if i <= 0 {
        Seq::empty()
    } else {
        let rest = spec_ipads_prefix(ns, i - 1);
        match *ns[i - 1] {
            DeviceName::IPad(v) => rest + seq![v],
            _ => rest,
        }
    }
}

pub fn ipads<'a>(ns: &Vec<&'a DeviceName>) -> (r: Vec<&'a IPadVariant>)
    ensures
        r@.len() == spec_ipads_prefix(ns@, ns@.len() as int).len(),
        forall|k: int| 0 <= k < r@.len()
            ==> *r@[k] == spec_ipads_prefix(ns@, ns@.len() as int)[k],
{
    let mut out: Vec<&'a IPadVariant> = Vec::new();
    let mut i: usize = 0;
    while i < ns.len()
        invariant
            i <= ns.len(),
            out@.len() == spec_ipads_prefix(ns@, i as int).len(),
            forall|k: int| 0 <= k < out@.len() ==> *out@[k] == spec_ipads_prefix(ns@, i as int)[k],
        decreases ns.len() - i,
    {
        match ns[i] {
            DeviceName::IPad(v) => {
                out.push(v);
            },
            _ => {},
        }
        i = i + 1;
    }
    out
}

/// The iPad variants among the first `i` devices' names.
pub open spec fn spec_ipads_of(ds: Seq<ListDevice>, i: int) -> Seq<IPadVariant>
    decreases i,
{
    if i <= 0 {
        Seq::empty()
    } else {
        let rest = spec_ipads_of(ds, i - 1);
        match ds[i - 1].name {
            DeviceName::IPad(v) => rest + seq![v],
            _ => rest,
        }
    }
}

/// The iPhone variants among the first `i` devices' names.
pub open spec fn spec_iphones_of(ds: Seq<ListDevice>, i: int) -> Seq<IPhoneVariant>
    decreases i,
{
    if i <= 0 {
        Seq::empty()
    } else {
        let rest = spec_iphones_of(ds, i - 1);
        match ds[i - 1].name {
            DeviceName::IPhone(v) => rest + seq![v],
            _ => rest,
        }
    }
}

/// The ready devices among the first `i`: booted and available, in order.
pub open spec fn spec_ready_of(ds: Seq<ListDevice>, i: int) -> Seq<ListDevice>
    decreases i,
{
    if i <= 0 {
        Seq::empty()
    } else {
        let rest = spec_ready_of(ds, i - 1);
        if ds[i - 1].state is Booted && ds[i - 1].is_available {
            rest + seq![ds[i - 1]]
        } else {
            rest
        }
    }
}

/// Filtering names gives the same iPads as filtering the devices they
/// were taken from.
pub proof fn lemma_ipads_of_names(ns: Seq<&DeviceName>, ds: Seq<ListDevice>, i: int)
    requires
        0 <= i <= ds.len(),
        ns.len() == ds.len(),
        forall|k: int| 0 <= k < ds.len() ==> *ns[k] == (#[trigger] ds[k]).name,
    ensures
        spec_ipads_prefix(ns, i) == spec_ipads_of(ds, i),
    decreases i,
{
    if i > 0 {
        lemma_ipads_of_names(ns, ds, i - 1);
    }
}

/// Filtering names gives the same iPhones as filtering the devices they
/// were taken from.
pub proof fn lemma_iphones_of_names(ns: Seq<&DeviceName>, ds: Seq<ListDevice>, i: int)
    requires
        0 <= i <= ds.len(),
        ns.len() == ds.len(),
        forall|k: int| 0 <= k < ds.len() ==> *ns[k] == (#[trigger] ds[k]).name,
    ensures
        spec_iphones_prefix(ns, i) == spec_iphones_of(ds, i),
    decreases i,
{
    if i > 0 {
        lemma_iphones_of_names(ns, ds, i - 1);
    }
}

/// The ready devices among the given ones, in order.
pub fn ready_devices<'a>(devices: &Vec<&'a ListDevice>, Ghost(ds): Ghost<Seq<ListDevice>>) -> (r: Vec<&'a ListDevice>)
    requires
        devices@.len() == ds.len(),
        forall|k: int| 0 <= k < ds.len() ==> *devices@[k] == ds[k],
    ensures
        r@.len() == spec_ready_of(ds, ds.len() as int).len(),
        forall|k: int| 0 <= k < r@.len() ==> *r@[k] == spec_ready_of(ds, ds.len() as int)[k],
{
    let mut out: Vec<&'a ListDevice> = Vec::new();
    let mut i: usize = 0;
    while i < devices.len()
        invariant
            i <= devices.len(),
            devices@.len() == ds.len(),
            forall|k: int| 0 <= k < ds.len() ==> *devices@[k] == ds[k],
            out@.len() == spec_ready_of(ds, i as int).len(),
            forall|k: int| 0 <= k < out@.len() ==> *out@[k] == spec_ready_of(ds, i as int)[k],
        decreases devices.len() - i,
    {
        if devices[i].ready() {
            out.push(devices[i]);
        }
        i = i + 1;
    }
    out
}

/// The newest of the given iPhone variants: the fold that keeps the later
/// element on ties, as the maximum of an iterator does.
pub open spec fn spec_best_iphone(s: Seq<IPhoneVariant>, i: int) -> IPhoneVariant
    recommends
        1 <= i <= s.len(),
    decreases i,
{
    if i <= 1 {
        s[0]
    } else {
        let b = spec_best_iphone(s, i - 1);
        if s[i - 1].cmp_spec(b) == core::cmp::Ordering::Less {
            b
        } else {
            s[i - 1]
        }
    }
}

/// The newest iPhone in the list of names; not necessarily booted.
pub fn an_iphone<'a>(ns: &Vec<&'a DeviceName>) -> (r: Option<IPhoneVariant>)
    ensures
        match r {
            Some(v) => {
                let ph = spec_iphones_prefix(ns@, ns@.len() as int);
                ph.len() > 0 && v == spec_best_iphone(ph, ph.len() as int)
            },
            None => spec_iphones_prefix(ns@, ns@.len() as int).len() == 0,
        },
{
    let ph = iphones(ns);
    let ghost phs = spec_iphones_prefix(ns@, ns@.len() as int);
    if ph.len() == 0 {
        return None;
    }
    let mut best: IPhoneVariant = *ph[0];
    let mut i: usize = 1;
    while i < ph.len()
        invariant
            1 <= i <= ph.len(),
            ph@.len() == phs.len(),
            forall|k: int| 0 <= k < phs.len() ==> *ph@[k] == phs[k],
            best == spec_best_iphone(phs, i as int),
        decreases ph.len() - i,
    {
        proof {
            assert(*ph@[i as int] == phs[i as int]);
        }
        match ph[i].partial_cmp(&best) {
            Some(core::cmp::Ordering::Less) => {},
            _ => {
                best = *ph[i];
            },
        }
        i = i + 1;
    }
    Some(best)
}

/// The newest of the given iPad variants, keeping the later element on
/// ties.
pub open spec fn spec_best_ipad(s: Seq<IPadVariant>, i: int) -> IPadVariant
    recommends
        1 <= i <= s.len(),
    decreases i,
{
    if i <= 1 {
        s[0]
    } else {
        let b = spec_best_ipad(s, i - 1);
        if s[i - 1].cmp_spec(b) == core::cmp::Ordering::Less {
            b
        } else {
            s[i - 1]
        }
    }
}

/// The newest iPad in the list of names; not necessarily booted.
pub fn an_ipad<'a>(ns: &Vec<&'a DeviceName>) -> (r: Option<IPadVariant>)
    ensures
        match r {
            Some(v) => {
                let pd = spec_ipads_prefix(ns@, ns@.len() as int);
                pd.len() > 0 && v == spec_best_ipad(pd, pd.len() as int)
            },
            None => spec_ipads_prefix(ns@, ns@.len() as int).len() == 0,
        },
{
    let pd = ipads(ns);
    let ghost pds = spec_ipads_prefix(ns@, ns@.len() as int);
    if pd.len() == 0 {
        return None;
    }
    let mut best: IPadVariant = *pd[0];
    let mut i: usize = 1;
    while i < pd.len()
        invariant
            1 <= i <= pd.len(),
            pd@.len() == pds.len(),
            forall|k: int| 0 <= k < pds.len() ==> *pd@[k] == pds[k],
            best == spec_best_ipad(pds, i as int),
        decreases pd.len() - i,
    {
        proof {
            assert(*pd@[i as int] == pds[i as int]);
        }
        match pd[i].partial_cmp(&best) {
            Some(core::cmp::Ordering::Less) => {},
            _ => {
                best = *pd[i];
            },
        }
        i = i + 1;
    }
    Some(best)
}

/// Output of a listing run.
#[derive(Debug, Clone)]
pub enum ListOutput {
    /// The listing, decoded.
    SuccessJson(ListJson),
    SuccessUnImplemented { stdout: String },
    ErrorUnImplemented { stderr: String },
}

impl ListOutput {
    /// Classifies a completed listing run. The collaborator that decoded
    /// the JSON passes the result along: text that did not decode falls
    /// back verbatim. Total: every triple maps to exactly one variant.
    pub fn from_success_stream(success: bool, raw: String, parsed: Option<ListJson>) -> (r: ListOutput)
        ensures
            !success ==> r == (ListOutput::ErrorUnImplemented { stderr: raw }),
            success ==> match parsed {
                Some(json) => r == ListOutput::SuccessJson(json),
                None => r == (ListOutput::SuccessUnImplemented { stdout: raw }),
            },
    {
        if success {
            match parsed {
                Some(json) => ListOutput::SuccessJson(json),
                None => ListOutput::SuccessUnImplemented { stdout: raw },
            }
        } else {
            ListOutput::ErrorUnImplemented { stderr: raw }
        }
    }

    pub fn success_unimplemented(stdout: String) -> (r: ListOutput)
        ensures
            r == (ListOutput::SuccessUnImplemented { stdout }),
    {
        ListOutput::SuccessUnImplemented { stdout }
    }

    pub fn error_unimplemented(stderr: String) -> (r: ListOutput)
        ensures
            r == (ListOutput::ErrorUnImplemented { stderr }),
    {
        ListOutput::ErrorUnImplemented { stderr }
    }

    /// A rendering of this output for error reports.
    pub fn describe(&self) -> (out: String)
        ensures
            out@ == self.spec_describe(),
    {
        let mut out = String::new();
        match self {
            ListOutput::SuccessJson(_) => {
                out.append("simctl list succeeded with a decoded listing");
            },
            ListOutput::SuccessUnImplemented { stdout } => {
                out.append("simctl list produced undecoded output: ");
                out.append(stdout.as_str());
            },
            ListOutput::ErrorUnImplemented { stderr } => {
                out.append("simctl list errored: ");
                out.append(stderr.as_str());
            },
        }
        out
    }

    pub open spec fn spec_describe(&self) -> Seq<char> {
        match self {
            ListOutput::SuccessJson(_) => "simctl list succeeded with a decoded listing"@,
            ListOutput::SuccessUnImplemented { stdout } =>
                "simctl list produced undecoded output: "@ + stdout@,
            ListOutput::ErrorUnImplemented { stderr } =>
                "simctl list errored: "@ + stderr@,
        }
    }

    /// The listing, or [`Error::OutputErrored`] exactly when this output
    /// is not a decoded listing.
    pub fn get_success_reported(&self) -> (r: Result<&ListJson, Error>)
        ensures
            match r {
                Ok(json) => self matches ListOutput::SuccessJson(j) && *json == j,
                Err(_) => !(self is SuccessJson),
            },
    {
        match self {
            ListOutput::SuccessJson(json) => Ok(json),
            _ => Err(Error::output_errored(self.describe())),
        }
    }

    pub fn get_success(&self) -> (r: Option<&ListJson>)
        ensures
            match r {
                Some(json) => self matches ListOutput::SuccessJson(j) && *json == j,
                None => !(self is SuccessJson),
            },
    {
        match self {
            ListOutput::SuccessJson(json) => Some(json),
            _ => None,
        }
    }

    /// The listing of an output already known to be a decoded one.
    pub fn unwrap_success(&self) -> (r: &ListJson)
        requires
            self is SuccessJson,
        ensures
            self matches ListOutput::SuccessJson(j) && *r == j,
    {
        match self {
            ListOutput::SuccessJson(json) => json,
            _ => unreached(),
        }
    }
}

impl PublicCommandOutput for ListOutput {
    type PrimarySuccess = ListJson;

    open spec fn spec_successful(&self) -> bool {
        self is SuccessJson
    }

    fn success(&self) -> (r: Result<&ListJson, Error>) {
        match self {
            ListOutput::SuccessJson(json) => Ok(json),
            _ => Err(Error::output_errored(self.describe())),
        }
    }
}

} // verus!
