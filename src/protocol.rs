use vstd::prelude::*;

use crate::flags::{DeviceType, MemFlags, QueueProperties};
use crate::handle::{DeviceId, ObjectKind, PlatformId};
use crate::status::{Status, is_status_code, status_of};

verus! {

/// A breach of the native contract that no caller can recover from. The
/// runtime that drives the library must abort on it.
#[derive(Clone, Copy, Debug, PartialEq, Eq, Structural, Hash)]
pub enum Violation {
    /// The runtime returned a code that no status has.
    UnknownStatus(i32),
    /// A string property came back without even its terminator.
    EmptyBuffer,
    /// A string property did not end in a null byte; holds the last byte.
    MissingTerminator(u8),
    /// A string property was not UTF-8.
    InvalidUtf8,
    /// A device type held bits outside the defined kinds.
    UnknownDeviceType(u64),
    /// A discovery query that is not expected to fail failed.
    QueryFailed(Status),
    /// Adding an owner to a native object failed where no error can be
    /// returned.
    RetainFailed(Status),
    /// Dropping an owner of a native object failed.
    ReleaseFailed(Status),
}

/// What one native call came to.
#[derive(Clone, Debug, PartialEq, Eq)]
pub enum Outcome<T> {
    /// The call succeeded and gave this value.
    Done(T),
    /// The call reported a status that the caller may recover from.
    Failed(Status),
    /// The native contract was broken: the runtime must abort.
    Fatal(Violation),
}

/// What a failing native status comes to: a recoverable failure for a known
/// code, a violation for an unknown one.
pub open spec fn halt_of<T>(code: i32) -> Outcome<T> {
    if is_status_code(code) {
        Outcome::Failed(status_of(code)->0)
    } else {
        Outcome::Fatal(Violation::UnknownStatus(code))
    }
}

/// Tells success apart from the two kinds of failure.
pub fn screen<T>(code: i32) -> (r: Result<(), Outcome<T>>)
    ensures
        code == 0 ==> r is Ok,
        code != 0 ==> r == Err::<(), Outcome<T>>(halt_of::<T>(code)),
{
    match Status::from_code(code) {
        None => Err(Outcome::Fatal(Violation::UnknownStatus(code))),
        Some(Status::Success) => Ok(()),
        Some(s) => Err(Outcome::Failed(s)),
    }
}

/// One call into the native runtime, as plain values. The runtime performs
/// it and hands the answer back to the function that asked for it.
#[derive(Clone, Debug, PartialEq, Eq)]
pub enum Request {
    /// List platforms into room for `num_entries` ids; with 0, ask only how
    /// many there are.
    PlatformIds { num_entries: u32 },
    /// List the devices of `platform` of the given kinds into room for
    /// `num_entries` ids; with 0, ask only how many there are.
    DeviceIds { platform: PlatformId, device_type: DeviceType, num_entries: u32 },
    /// Read property `param` of `platform` into a buffer of `size` bytes;
    /// with 0, ask only for the size.
    PlatformInfo { platform: PlatformId, param: u32, size: usize },
    /// Read property `param` of `device` into a buffer of `size` bytes; with
    /// 0, ask only for the size.
    DeviceInfo { device: DeviceId, param: u32, size: usize },
    /// Create a context from the zero-terminated property list and devices.
    CreateContext { properties: Vec<usize>, devices: Vec<DeviceId> },
    /// Create a device-backed buffer of `size` bytes in `context`.
    CreateBuffer { context: usize, flags: MemFlags, size: usize },
    /// Create a command queue for `device` in `context`.
    CreateCommandQueue { context: usize, device: DeviceId, queue_properties: QueueProperties },
    /// Add one owner to a native object.
    Retain { kind: ObjectKind, handle: usize },
    /// Drop one owner of a native object.
    Release { kind: ObjectKind, handle: usize },
}

} // verus!
