use vstd::prelude::*;

use crate::enumerate::{IdQuery, IdTarget};
use crate::flags::{DEVICE_TYPE_KNOWN, DeviceType};
use crate::handle::{DeviceId, PlatformId};
use crate::protocol::{Outcome, Request, Violation};
use crate::query::{
    DeviceInfoClUint, DeviceInfoDeviceType, DeviceInfoString, DeviceQuery, PlatformInfo,
    PlatformQuery,
};
use crate::resource;
use crate::resource::is_context_request;
use crate::status::Status;

verus! {

/// A platform, as a plain value with named queries.
#[derive(Clone, Copy, Debug, PartialEq, Eq, Structural, Hash)]
pub struct Platform(PlatformId);

/// A device, as a plain value with named queries.
#[derive(Clone, Copy, Debug, PartialEq, Eq, Structural, Hash)]
pub struct Device(DeviceId);

/// An owned context.
#[derive(Debug)]
pub struct Context(resource::Context);

impl View for Platform {
    type V = PlatformId;

    closed spec fn view(&self) -> PlatformId {
        self.0
    }
}

impl View for Device {
    type V = DeviceId;

    closed spec fn view(&self) -> DeviceId {
        self.0
    }
}

/// The facade's policy for discovery: such a query on a working runtime is
/// not expected to fail, so a failure is made fatal.
pub fn expect_discovered<T>(o: Outcome<T>) -> (r: Outcome<T>)
    ensures
        o matches Outcome::Failed(s) ==> r == Outcome::<T>::Fatal(Violation::QueryFailed(s)),
        !(o is Failed) ==> r == o,
{
    match o {
        Outcome::Failed(s) => Outcome::Fatal(Violation::QueryFailed(s)),
        other => other,
    }
}

/// Prepares the listing of every platform.
pub fn get_platforms() -> (r: IdQuery)
    ensures
        r.target == IdTarget::Platforms,
{
    crate::enumerate::get_platform_ids()
}

/// The platforms, from the listing of their ids; a failed listing is fatal.
pub fn platforms_from(o: Outcome<Vec<PlatformId>>) -> (r: Outcome<Vec<Platform>>)
    ensures
        o matches Outcome::Failed(s) ==> r == Outcome::<Vec<Platform>>::Fatal(
            Violation::QueryFailed(s),
        ),
        o matches Outcome::Fatal(v) ==> r == Outcome::<Vec<Platform>>::Fatal(v),
        o matches Outcome::Done(ids) ==> (r matches Outcome::Done(ps) && ps@.len() == ids@.len()
            && forall|i: int| 0 <= i < ids@.len() ==> #[trigger] ps@[i]@ == ids@[i]),
{
    match o {
        Outcome::Failed(s) => Outcome::Fatal(Violation::QueryFailed(s)),
        Outcome::Fatal(v) => Outcome::Fatal(v),
        Outcome::Done(ids) => {
            let mut ps: Vec<Platform> = Vec::new();
            let mut i: usize = 0;
            while i < ids.len()
                invariant
                    i <= ids@.len(),
                    ps@.len() == i,
                    forall|j: int| 0 <= j < i ==> #[trigger] ps@[j]@ == ids@[j],
                decreases ids@.len() - i,
            {
                ps.push(Platform(ids[i]));
                i = i + 1;
            }
            Outcome::Done(ps)
        },
    }
}

/// The devices, from the listing of their ids; a failed listing is fatal.
pub fn devices_from(o: Outcome<Vec<DeviceId>>) -> (r: Outcome<Vec<Device>>)
    ensures
        o matches Outcome::Failed(s) ==> r == Outcome::<Vec<Device>>::Fatal(
            Violation::QueryFailed(s),
        ),
        o matches Outcome::Fatal(v) ==> r == Outcome::<Vec<Device>>::Fatal(v),
        o matches Outcome::Done(ids) ==> (r matches Outcome::Done(ds) && ds@.len() == ids@.len()
            && forall|i: int| 0 <= i < ids@.len() ==> #[trigger] ds@[i]@ == ids@[i]),
{
    match o {
        Outcome::Failed(s) => Outcome::Fatal(Violation::QueryFailed(s)),
        Outcome::Fatal(v) => Outcome::Fatal(v),
        Outcome::Done(ids) => {
            let mut ds: Vec<Device> = Vec::new();
            let mut i: usize = 0;
            while i < ids.len()
                invariant
                    i <= ids@.len(),
                    ds@.len() == i,
                    forall|j: int| 0 <= j < i ==> #[trigger] ds@[j]@ == ids@[j],
                decreases ids@.len() - i,
            {
                ds.push(Device(ids[i]));
                i = i + 1;
            }
            Outcome::Done(ds)
        },
    }
}

impl Platform {
    /// The platform's id.
    pub fn id(&self) -> (r: PlatformId)
        ensures
            r == self@,
    {
        self.0
    }

    /// Prepares the listing of every device of this platform.
    pub fn get_devices(&self) -> (r: IdQuery)
        ensures
            r.target matches IdTarget::Devices(p, t) && p == self@ && t@ == DEVICE_TYPE_KNOWN,
    {
        crate::enumerate::get_device_ids(self.0, DeviceType::all())
    }

    /// Prepares the creation of a context on this platform from `devices`;
    /// an empty list is rejected, and a failure of the runtime is returned,
    /// not made fatal.
    pub fn create_context(&self, devices: &[Device]) -> (r: Result<Request, Status>)
        ensures
            devices@.len() == 0 ==> r == Err::<Request, Status>(Status::InvalidValue),
            devices@.len() > 0 ==> (r matches Ok(req) && is_context_request(
                req,
                self@,
                devices@.map_values(|d: Device| d@),
            )),
    {
        let mut ids: Vec<DeviceId> = Vec::new();
        let mut i: usize = 0;
        while i < devices.len()
            invariant
                i <= devices@.len(),
                ids@ == devices@.subrange(0, i as int).map_values(|d: Device| d@),
            decreases devices@.len() - i,
        {
            ids.push(devices[i].0);
            i = i + 1;
            assert(ids@ =~= devices@.subrange(0, i as int).map_values(|d: Device| d@));
        }
        assert(devices@.subrange(0, devices@.len() as int) =~= devices@);
        resource::create_context(self.0, ids.as_slice())
    }

    /// Prepares the query of the platform's name.
    pub fn name(&self) -> (r: PlatformQuery)
        ensures
            r == (PlatformQuery { platform: self@, info: PlatformInfo::Name }),
    {
        crate::query::get_platform_info(self.0, PlatformInfo::Name)
    }

    /// Prepares the query of the platform's version.
    pub fn version(&self) -> (r: PlatformQuery)
        ensures
            r == (PlatformQuery { platform: self@, info: PlatformInfo::Version }),
    {
        crate::query::get_platform_info(self.0, PlatformInfo::Version)
    }

    /// Prepares the query of the platform's profile.
    pub fn profile(&self) -> (r: PlatformQuery)
        ensures
            r == (PlatformQuery { platform: self@, info: PlatformInfo::Profile }),
    {
        crate::query::get_platform_info(self.0, PlatformInfo::Profile)
    }

    /// Prepares the query of the platform's vendor.
    pub fn vendor(&self) -> (r: PlatformQuery)
        ensures
            r == (PlatformQuery { platform: self@, info: PlatformInfo::Vendor }),
    {
        crate::query::get_platform_info(self.0, PlatformInfo::Vendor)
    }

    /// Prepares the query of the platform's extensions.
    pub fn extensions(&self) -> (r: PlatformQuery)
        ensures
            r == (PlatformQuery { platform: self@, info: PlatformInfo::Extensions }),
    {
        crate::query::get_platform_info(self.0, PlatformInfo::Extensions)
    }
}

impl Device {
    /// The device's id.
    pub fn id(&self) -> (r: DeviceId)
        ensures
            r == self@,
    {
        self.0
    }

    /// Prepares the query of the device's name.
    pub fn name(&self) -> (r: DeviceQuery<DeviceInfoString>)
        ensures
            r == (DeviceQuery { device: self@, info: DeviceInfoString::Name }),
    {
        crate::query::get_device_info(self.0, DeviceInfoString::Name)
    }

    /// Prepares the query of the device's profile.
    pub fn profile(&self) -> (r: DeviceQuery<DeviceInfoString>)
        ensures
            r == (DeviceQuery { device: self@, info: DeviceInfoString::Profile }),
    {
        crate::query::get_device_info(self.0, DeviceInfoString::Profile)
    }

    /// Prepares the query of the device's vendor.
    pub fn vendor(&self) -> (r: DeviceQuery<DeviceInfoString>)
        ensures
            r == (DeviceQuery { device: self@, info: DeviceInfoString::Vendor }),
    {
        crate::query::get_device_info(self.0, DeviceInfoString::Vendor)
    }

    /// Prepares the query of the device's version.
    pub fn device_version(&self) -> (r: DeviceQuery<DeviceInfoString>)
        ensures
            r == (DeviceQuery { device: self@, info: DeviceInfoString::DeviceVersion }),
    {
        crate::query::get_device_info(self.0, DeviceInfoString::DeviceVersion)
    }

    /// Prepares the query of the version of the device's driver.
    pub fn driver_version(&self) -> (r: DeviceQuery<DeviceInfoString>)
        ensures
            r == (DeviceQuery { device: self@, info: DeviceInfoString::DriverVersion }),
    {
        crate::query::get_device_info(self.0, DeviceInfoString::DriverVersion)
    }

    /// Prepares the query of the device's extensions.
    pub fn extensions(&self) -> (r: DeviceQuery<DeviceInfoString>)
        ensures
            r == (DeviceQuery { device: self@, info: DeviceInfoString::Extensions }),
    {
        crate::query::get_device_info(self.0, DeviceInfoString::Extensions)
    }

    /// Prepares the query of the device's kinds.
    pub fn device_type(&self) -> (r: DeviceQuery<DeviceInfoDeviceType>)
        ensures
            r == (DeviceQuery { device: self@, info: DeviceInfoDeviceType }),
    {
        crate::query::get_device_info(self.0, DeviceInfoDeviceType)
    }

    /// Prepares the query of the device's number of compute units.
    pub fn num_compute_units(&self) -> (r: DeviceQuery<DeviceInfoClUint>)
        ensures
            r == (DeviceQuery { device: self@, info: DeviceInfoClUint::MaxComputeUnits }),
    {
        crate::query::get_device_info(self.0, DeviceInfoClUint::MaxComputeUnits)
    }
}

/// The number of compute units, from the answer to its query; a failed
/// query is fatal.
pub fn compute_units_from(o: Outcome<u32>) -> (r: Outcome<usize>)
    ensures
        o matches Outcome::Done(n) ==> r == Outcome::Done(n as usize),
        o matches Outcome::Failed(s) ==> r == Outcome::<usize>::Fatal(Violation::QueryFailed(s)),
        o matches Outcome::Fatal(v) ==> r == Outcome::<usize>::Fatal(v),
{
    match o {
        Outcome::Done(n) => Outcome::Done(n as usize),
        Outcome::Failed(s) => Outcome::Fatal(Violation::QueryFailed(s)),
        Outcome::Fatal(v) => Outcome::Fatal(v),
    }
}

impl Context {
    /// Wraps a created context; a failure to create it stays recoverable.
    pub fn from_created(o: Outcome<resource::Context>) -> (r: Outcome<Context>)
        ensures
            o matches Outcome::Done(c) ==> (r matches Outcome::Done(w) && w@ == c@),
            o matches Outcome::Failed(s) ==> r == Outcome::<Context>::Failed(s),
            o matches Outcome::Fatal(v) ==> r == Outcome::<Context>::Fatal(v),
    {
        match o {
            Outcome::Done(c) => Outcome::Done(Context(c)),
            Outcome::Failed(s) => Outcome::Failed(s),
            Outcome::Fatal(v) => Outcome::Fatal(v),
        }
    }

    /// The owned context.
    pub fn inner(&self) -> (r: &resource::Context)
        ensures
            r@ == self@,
    {
        &self.0
    }

    /// The owned context, to be released or handed on.
    pub fn into_inner(self) -> (r: resource::Context)
        ensures
            r@ == self@,
    {
        self.0
    }
}

impl View for Context {
    type V = usize;

    closed spec fn view(&self) -> usize {
        self.0@
    }
}

} // verus!
