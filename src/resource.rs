use vstd::prelude::*;
use vstd::slice::slice_to_vec;

use crate::flags::{MemFlags, QueueProperties};
use crate::handle::{DeviceId, ObjectKind, PlatformId};
use crate::protocol::{Outcome, Request, Violation, halt_of, screen};
use crate::status::{Status, is_status_code, status_of};

verus! {

/// The property key under which a context's platform is given.
pub const CONTEXT_PLATFORM: usize = 0x1084;

/// The call that adds one owner to a native object.
pub open spec fn retain_call(kind: ObjectKind, handle: usize) -> Request {
    Request::Retain { kind, handle }
}

/// The call that drops one owner of a native object.
pub open spec fn release_call(kind: ObjectKind, handle: usize) -> Request {
    Request::Release { kind, handle }
}

/// A native context, owned once by this value.
///
/// A duplicate comes only from a retain that succeeded, and the value is
/// given up only by `release`, which names the one release that this owner
/// owes.
#[derive(Debug)]
pub struct Context {
    handle: usize,
}

/// A native command queue, owned once by this value; see `Context`.
#[derive(Debug)]
pub struct CommandQueue {
    handle: usize,
}

/// A native memory buffer, owned once by this value; see `Context`.
#[derive(Debug)]
pub struct Mem {
    handle: usize,
}

impl View for Context {
    type V = usize;

    closed spec fn view(&self) -> usize {
        self.handle
    }
}

impl View for CommandQueue {
    type V = usize;

    closed spec fn view(&self) -> usize {
        self.handle
    }
}

impl View for Mem {
    type V = usize;

    closed spec fn view(&self) -> usize {
        self.handle
    }
}

impl Context {
    /// Takes ownership of a context that a creation call returned, given
    /// the status it reported.
    pub fn from_created(code: i32, handle: usize) -> (r: Outcome<Context>)
        ensures
            code == 0 ==> (r matches Outcome::Done(c) && c@ == handle),
            code != 0 ==> r == halt_of::<Context>(code),
    {
        if let Err(halt) = screen::<Context>(code) {
            return halt;
        }
        Outcome::Done(Context { handle })
    }

    /// The native handle, for the runtime that performs a call.
    pub fn as_raw(&self) -> (r: usize)
        ensures
            r == self@,
    {
        self.handle
    }

    /// The retain that a duplicate needs.
    pub fn retain_request(&self) -> (r: Request)
        ensures
            r == retain_call(ObjectKind::Context, self@),
    {
        Request::Retain { kind: ObjectKind::Context, handle: self.handle }
    }

    /// A second owner of the same context, given what the retain reported.
    pub fn try_clone(&self, code: i32) -> (r: Outcome<Context>)
        ensures
            code == 0 ==> (r matches Outcome::Done(c) && c@ == self@),
            code != 0 ==> r == halt_of::<Context>(code),
    {
        Context::from_created(code, self.handle)
    }

    /// Gives this owner up: the one release that it owes.
    pub fn release(self) -> (r: Request)
        ensures
            r == release_call(ObjectKind::Context, self@),
    {
        Request::Release { kind: ObjectKind::Context, handle: self.handle }
    }
}

impl CommandQueue {
    /// Takes ownership of a queue that a creation call returned, given the
    /// status it reported.
    pub fn from_created(code: i32, handle: usize) -> (r: Outcome<CommandQueue>)
        ensures
            code == 0 ==> (r matches Outcome::Done(q) && q@ == handle),
            code != 0 ==> r == halt_of::<CommandQueue>(code),
    {
        if let Err(halt) = screen::<CommandQueue>(code) {
            return halt;
        }
        Outcome::Done(CommandQueue { handle })
    }

    /// The native handle, for the runtime that performs a call.
    pub fn as_raw(&self) -> (r: usize)
        ensures
            r == self@,
    {
        self.handle
    }

    /// The retain that a duplicate needs.
    pub fn retain_request(&self) -> (r: Request)
        ensures
            r == retain_call(ObjectKind::CommandQueue, self@),
    {
        Request::Retain { kind: ObjectKind::CommandQueue, handle: self.handle }
    }

    /// A second owner of the same queue, given what the retain reported.
    pub fn try_clone(&self, code: i32) -> (r: Outcome<CommandQueue>)
        ensures
            code == 0 ==> (r matches Outcome::Done(q) && q@ == self@),
            code != 0 ==> r == halt_of::<CommandQueue>(code),
    {
        CommandQueue::from_created(code, self.handle)
    }

    /// Gives this owner up: the one release that it owes.
    pub fn release(self) -> (r: Request)
        ensures
            r == release_call(ObjectKind::CommandQueue, self@),
    {
        Request::Release { kind: ObjectKind::CommandQueue, handle: self.handle }
    }
}

impl Mem {
    /// Takes ownership of a buffer that a creation call returned, given the
    /// status it reported.
    pub fn from_created(code: i32, handle: usize) -> (r: Outcome<Mem>)
        ensures
            code == 0 ==> (r matches Outcome::Done(m) && m@ == handle),
            code != 0 ==> r == halt_of::<Mem>(code),
    {
        if let Err(halt) = screen::<Mem>(code) {
            return halt;
        }
        Outcome::Done(Mem { handle })
    }

    /// The native handle, for the runtime that performs a call.
    pub fn as_raw(&self) -> (r: usize)
        ensures
            r == self@,
    {
        self.handle
    }

    /// The retain that a duplicate needs.
    pub fn retain_request(&self) -> (r: Request)
        ensures
            r == retain_call(ObjectKind::Mem, self@),
    {
        Request::Retain { kind: ObjectKind::Mem, handle: self.handle }
    }

    /// A second owner of the same buffer, given what the retain reported.
    pub fn try_clone(&self, code: i32) -> (r: Outcome<Mem>)
        ensures
            code == 0 ==> (r matches Outcome::Done(m) && m@ == self@),
            code != 0 ==> r == halt_of::<Mem>(code),
    {
        Mem::from_created(code, self.handle)
    }

    /// Gives this owner up: the one release that it owes.
    pub fn release(self) -> (r: Request)
        ensures
            r == release_call(ObjectKind::Mem, self@),
    {
        Request::Release { kind: ObjectKind::Mem, handle: self.handle }
    }
}

/// What a duplicate that cannot report failure comes to: a failed retain
/// is fatal, since a wrong count of owners is worse than stopping.
pub fn must_retain<T>(o: Outcome<T>) -> (r: Outcome<T>)
    ensures
        o matches Outcome::Failed(s) ==> r == Outcome::<T>::Fatal(Violation::RetainFailed(s)),
        !(o is Failed) ==> r == o,
{
    match o {
        Outcome::Failed(s) => Outcome::Fatal(Violation::RetainFailed(s)),
        other => other,
    }
}

/// What a release comes to: any failure is fatal.
pub fn release_outcome(code: i32) -> (r: Outcome<()>)
    ensures
        code == 0 ==> r == Outcome::Done(()),
        code != 0 && is_status_code(code) ==> r == Outcome::<()>::Fatal(
            Violation::ReleaseFailed(status_of(code)->0),
        ),
        !is_status_code(code) ==> r == Outcome::<()>::Fatal(Violation::UnknownStatus(code)),
{
    match screen::<()>(code) {
        Ok(()) => Outcome::Done(()),
        Err(Outcome::Failed(s)) => Outcome::Fatal(Violation::ReleaseFailed(s)),
        Err(other) => other,
    }
}

/// The property list of a context on `platform`: the platform key, the
/// platform, and the terminating zero.
pub open spec fn spec_context_properties(platform: PlatformId) -> Seq<usize> {
    seq![CONTEXT_PLATFORM, platform@, 0usize]
}

/// Builds the property list of a context on `platform`.
pub fn context_properties(platform: PlatformId) -> (r: Vec<usize>)
    ensures
        r@ == spec_context_properties(platform),
{
    let mut props: Vec<usize> = Vec::new();
    props.push(CONTEXT_PLATFORM);
    props.push(platform.as_raw());
    props.push(0);
    assert(props@ =~= spec_context_properties(platform));
    props
}

/// `req` creates a context on `platform` from exactly `devices`.
pub open spec fn is_context_request(req: Request, platform: PlatformId, devices: Seq<DeviceId>) -> bool {
    req matches Request::CreateContext { properties, devices: ds } && properties@
        == spec_context_properties(platform) && ds@ == devices
}

/// Prepares the creation of a context on `platform` from `devices`. A
/// context needs at least one device: an empty list is rejected before the
/// runtime is asked, as the runtime itself would reject it.
pub fn create_context(platform: PlatformId, devices: &[DeviceId]) -> (r: Result<Request, Status>)
    ensures
        devices@.len() == 0 ==> r == Err::<Request, Status>(Status::InvalidValue),
        devices@.len() > 0 ==> (r matches Ok(req) && is_context_request(req, platform, devices@)),
{
    if devices.len() == 0 {
        return Err(Status::InvalidValue);
    }
    let ids = slice_to_vec(devices);
    Ok(Request::CreateContext { properties: context_properties(platform), devices: ids })
}

/// The access that a device has to a buffer.
#[derive(Clone, Copy, Debug, PartialEq, Eq, Structural, Hash)]
pub enum MemProt {
    ReadWrite,
    ReadOnly,
    WriteOnly,
}

/// The native flag bits of an access mode.
pub open spec fn mem_prot_bits(p: MemProt) -> u64 {
    match p {
        MemProt::ReadWrite => 1,
        MemProt::WriteOnly => 2,
        MemProt::ReadOnly => 4,
    }
}

impl MemProt {
    /// The creation flags for this access mode.
    pub fn to_mem_flags(self) -> (r: MemFlags)
        ensures
            r@ == mem_prot_bits(self),
    {
        match self {
            MemProt::ReadWrite => MemFlags::read_write(),
            MemProt::ReadOnly => MemFlags::read_only(),
            MemProt::WriteOnly => MemFlags::write_only(),
        }
    }
}

/// Prepares the creation of an entirely device-backed buffer of `size`
/// bytes in `context`.
pub fn create_mem_device_buffer(context: &Context, permissions: MemProt, size: usize) -> (r:
    Request)
    ensures
        r matches Request::CreateBuffer { context: c, flags, size: n } && c == context@ && flags@
            == mem_prot_bits(permissions) && n == size,
{
    Request::CreateBuffer { context: context.as_raw(), flags: permissions.to_mem_flags(), size }
}

/// Prepares the creation of a command queue for `device` in `context`.
pub fn create_command_queue(context: &Context, device: DeviceId, properties: QueueProperties) -> (r:
    Request)
    ensures
        r == (Request::CreateCommandQueue {
            context: context@,
            device,
            queue_properties: properties,
        }),
{
    Request::CreateCommandQueue { context: context.as_raw(), device, queue_properties: properties }
}

} // verus!
