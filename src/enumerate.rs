use vstd::prelude::*;

use crate::flags::DeviceType;
use crate::handle::{DeviceId, PlatformId};
use crate::protocol::{Outcome, Request, halt_of, screen};
use crate::status::{Status, status_code};

verus! {

/// What a listing of ids enumerates.
#[derive(Clone, Copy, Debug, PartialEq, Eq, Structural, Hash)]
pub enum IdTarget {
    /// Every platform.
    Platforms,
    /// The devices of one platform that are of the given kinds.
    Devices(PlatformId, DeviceType),
}

/// A listing of platform or device ids, with the two-call idiom: ask the
/// count, then fill room for exactly that many ids.
#[derive(Clone, Copy, Debug, PartialEq, Eq, Structural, Hash)]
pub struct IdQuery {
    pub target: IdTarget,
}

impl IdQuery {
    /// The native listing into room for `n` ids.
    pub open spec fn spec_request(&self, n: u32) -> Request {
        match self.target {
            IdTarget::Platforms => Request::PlatformIds { num_entries: n },
            IdTarget::Devices(platform, device_type) => Request::DeviceIds {
                platform,
                device_type,
                num_entries: n,
            },
        }
    }

    /// The first call: ask for the count, with no destination.
    pub fn count_request(&self) -> (r: Request)
        ensures
            r == self.spec_request(0),
    {
        self.fill_request(0)
    }

    fn fill_request(&self, n: u32) -> (r: Request)
        ensures
            r == self.spec_request(n),
    {
        match self.target {
            IdTarget::Platforms => Request::PlatformIds { num_entries: n },
            IdTarget::Devices(platform, device_type) => Request::DeviceIds {
                platform,
                device_type,
                num_entries: n,
            },
        }
    }

    /// The status with which the runtime says that nothing matches the
    /// listing: no platform is installed, or the platform has no device of
    /// the requested kinds.
    pub open spec fn spec_none_found(&self, code: i32) -> bool {
        match self.target {
            IdTarget::Platforms => code == status_code(Status::PlatformNotFoundKhr),
            IdTarget::Devices(_, _) => code == status_code(Status::DeviceNotFound),
        }
    }

    fn none_found(&self, code: i32) -> (r: bool)
        ensures
            r == self.spec_none_found(code),
    {
        match self.target {
            IdTarget::Platforms => code == Status::PlatformNotFoundKhr.code(),
            IdTarget::Devices(_, _) => code == Status::DeviceNotFound.code(),
        }
    }

    /// The second call, given what the first one reported: a fill of
    /// exactly `count` ids, or `None` where there is nothing to list and
    /// the listing is empty. A report that nothing matches is an empty
    /// listing, not a failure.
    pub fn after_count(&self, code: i32, count: u32) -> (r: Outcome<Option<Request>>)
        ensures
            self.spec_none_found(code) ==> r == Outcome::<Option<Request>>::Done(None),
            code != 0 && !self.spec_none_found(code) ==> r == halt_of::<Option<Request>>(code),
            code == 0 && count == 0 ==> r == Outcome::<Option<Request>>::Done(None),
            code == 0 && count > 0 ==> r == Outcome::Done(Some(self.spec_request(count))),
    {
        if self.none_found(code) {
            return Outcome::Done(None);
        }
        if let Err(halt) = screen::<Option<Request>>(code) {
            return halt;
        }
        if count == 0 {
            Outcome::Done(None)
        } else {
            Outcome::Done(Some(self.fill_request(count)))
        }
    }
}

/// Prepares the listing of every platform.
pub fn get_platform_ids() -> (r: IdQuery)
    ensures
        r.target == IdTarget::Platforms,
{
    IdQuery { target: IdTarget::Platforms }
}

/// Prepares the listing of the devices of `platform` that are of the kinds
/// in `device_type`.
pub fn get_device_ids(platform: PlatformId, device_type: DeviceType) -> (r: IdQuery)
    ensures
        r.target == IdTarget::Devices(platform, device_type),
{
    IdQuery { target: IdTarget::Devices(platform, device_type) }
}

/// `ids` holds one platform id for each raw handle, in the runtime's order.
pub open spec fn platforms_match(ids: Seq<PlatformId>, raw: Seq<usize>) -> bool {
    ids.len() == raw.len() && forall|i: int| 0 <= i < raw.len() ==> #[trigger] ids[i]@ == raw[i]
}

/// `ids` holds one device id for each raw handle, in the runtime's order.
pub open spec fn devices_match(ids: Seq<DeviceId>, raw: Seq<usize>) -> bool {
    ids.len() == raw.len() && forall|i: int| 0 <= i < raw.len() ==> #[trigger] ids[i]@ == raw[i]
}

/// The platforms, given what the fill reported and the handles it wrote,
/// kept in the order the runtime gave them.
pub fn platform_ids_from(code: i32, raw: Vec<usize>) -> (r: Outcome<Vec<PlatformId>>)
    ensures
        code != 0 ==> r == halt_of::<Vec<PlatformId>>(code),
        code == 0 ==> (r matches Outcome::Done(ids) && platforms_match(ids@, raw@)),
{
    if let Err(halt) = screen::<Vec<PlatformId>>(code) {
        return halt;
    }
    let mut ids: Vec<PlatformId> = Vec::new();
    let mut i: usize = 0;
    while i < raw.len()
        invariant
            i <= raw.len(),
            ids@.len() == i,
            forall|j: int| 0 <= j < i ==> #[trigger] ids@[j]@ == raw@[j],
        decreases raw.len() - i,
    {
        ids.push(PlatformId::from_raw(raw[i]));
        i = i + 1;
    }
    Outcome::Done(ids)
}

/// The devices, given what the fill reported and the handles it wrote,
/// kept in the order the runtime gave them.
pub fn device_ids_from(code: i32, raw: Vec<usize>) -> (r: Outcome<Vec<DeviceId>>)
    ensures
        code != 0 ==> r == halt_of::<Vec<DeviceId>>(code),
        code == 0 ==> (r matches Outcome::Done(ids) && devices_match(ids@, raw@)),
{
    if let Err(halt) = screen::<Vec<DeviceId>>(code) {
        return halt;
    }
    let mut ids: Vec<DeviceId> = Vec::new();
    let mut i: usize = 0;
    while i < raw.len()
        invariant
            i <= raw.len(),
            ids@.len() == i,
            forall|j: int| 0 <= j < i ==> #[trigger] ids@[j]@ == raw@[j],
        decreases raw.len() - i,
    {
        ids.push(DeviceId::from_raw(raw[i]));
        i = i + 1;
    }
    Outcome::Done(ids)
}

} // verus!
