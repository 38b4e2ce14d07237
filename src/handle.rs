use vstd::prelude::*;

verus! {

/// One native compute platform. Produced only by enumeration; never
/// retained or released.
#[derive(Clone, Copy, Debug, PartialEq, Eq, Structural, PartialOrd, Ord, Hash)]
pub struct PlatformId {
    raw: usize,
}

/// One native compute device of a platform. Produced only by enumeration;
/// never retained or released.
#[derive(Clone, Copy, Debug, PartialEq, Eq, Structural, PartialOrd, Ord, Hash)]
pub struct DeviceId {
    raw: usize,
}

impl View for PlatformId {
    type V = usize;

    closed spec fn view(&self) -> usize {
        self.raw
    }
}

impl View for DeviceId {
    type V = usize;

    closed spec fn view(&self) -> usize {
        self.raw
    }
}

impl PlatformId {
    pub(crate) fn from_raw(raw: usize) -> (r: PlatformId)
        ensures
            r@ == raw,
    {
        PlatformId { raw }
    }

    /// The native handle, for the runtime that performs a call.
    pub fn as_raw(&self) -> (r: usize)
        ensures
            r == self@,
    {
        self.raw
    }
}

impl DeviceId {
    pub(crate) fn from_raw(raw: usize) -> (r: DeviceId)
        ensures
            r@ == raw,
    {
        DeviceId { raw }
    }

    /// The native handle, for the runtime that performs a call.
    pub fn as_raw(&self) -> (r: usize)
        ensures
            r == self@,
    {
        self.raw
    }
}

/// The native handle of a program. Nothing in this library creates one yet; it
/// is kept apart from the other handle kinds so that they cannot be mixed.
#[derive(Debug)]
pub struct Program {
    raw: usize,
}

impl View for Program {
    type V = usize;

    closed spec fn view(&self) -> usize {
        self.raw
    }
}

impl Program {
    /// The native handle, for the runtime that performs a call.
    pub fn as_raw(&self) -> (r: usize)
        ensures
            r == self@,
    {
        self.raw
    }
}

/// The native handle of a kernel. Nothing in this library creates one yet; it
/// is kept apart from the other handle kinds so that they cannot be mixed.
#[derive(Debug)]
pub struct Kernel {
    raw: usize,
}

impl View for Kernel {
    type V = usize;

    closed spec fn view(&self) -> usize {
        self.raw
    }
}

impl Kernel {
    /// The native handle, for the runtime that performs a call.
    pub fn as_raw(&self) -> (r: usize)
        ensures
            r == self@,
    {
        self.raw
    }
}

/// The native handle of an event. Nothing in this library creates one yet; it
/// is kept apart from the other handle kinds so that they cannot be mixed.
#[derive(Debug)]
pub struct Event {
    raw: usize,
}

impl View for Event {
    type V = usize;

    closed spec fn view(&self) -> usize {
        self.raw
    }
}

impl Event {
    /// The native handle, for the runtime that performs a call.
    pub fn as_raw(&self) -> (r: usize)
        ensures
            r == self@,
    {
        self.raw
    }
}

/// The native handle of a sampler. Nothing in this library creates one yet; it
/// is kept apart from the other handle kinds so that they cannot be mixed.
#[derive(Debug)]
pub struct Sampler {
    raw: usize,
}

impl View for Sampler {
    type V = usize;

    closed spec fn view(&self) -> usize {
        self.raw
    }
}

impl Sampler {
    /// The native handle, for the runtime that performs a call.
    pub fn as_raw(&self) -> (r: usize)
        ensures
            r == self@,
    {
        self.raw
    }
}

/// The kinds of reference-counted native objects.
#[derive(Clone, Copy, Debug, PartialEq, Eq, Structural, Hash)]
pub enum ObjectKind {
    Context,
    CommandQueue,
    Mem,
}

} // verus!
