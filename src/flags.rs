use vstd::prelude::*;

verus! {

/// The device-type bits that the native API defines: `ALL` sets every one
/// of the low 32 bits.
pub const DEVICE_TYPE_KNOWN: u64 = 0xFFFF_FFFF;

/// The command-queue property bits that the native API defines.
pub const QUEUE_PROPERTIES_KNOWN: u64 = 0x3;

/// `bits` holds only bits inside `known`.
pub open spec fn within(bits: u64, known: u64) -> bool {
    bits & !known == 0
}

/// `bits` has every bit of `other` set.
pub open spec fn has_all(bits: u64, other: u64) -> bool {
    bits & other == other
}

/// A set of device kinds (default, CPU, GPU, accelerator), laid out on the
/// native bit positions.
#[derive(Clone, Copy, Debug, PartialEq, Eq, Structural, Hash)]
pub struct DeviceType {
    bits: u64,
}

impl View for DeviceType {
    type V = u64;

    closed spec fn view(&self) -> u64 {
        self.bits
    }
}

impl DeviceType {
    /// Holds only bits that the native API defines.
    pub open spec fn wf(&self) -> bool {
        within(self@, DEVICE_TYPE_KNOWN)
    }

    /// Rebuilds a set from native bits; `None` where a bit falls outside
    /// the defined kinds.
    pub fn from_bits(bits: u64) -> (r: Option<DeviceType>)
        ensures
            r is Some <==> within(bits, DEVICE_TYPE_KNOWN),
            r matches Some(t) ==> t@ == bits && t.wf(),
    {
        if bits & !DEVICE_TYPE_KNOWN == 0 {
            Some(DeviceType { bits })
        } else {
            None
        }
    }

    /// The native bits of the set.
    pub fn bits(&self) -> (r: u64)
        ensures
            r == self@,
    {
        self.bits
    }

    /// Every kind in `other` is in `self`.
    pub fn contains(&self, other: DeviceType) -> (r: bool)
        ensures
            r == has_all(self@, other@),
    {
        self.bits & other.bits == other.bits
    }

    /// The platform's default device.
    pub fn default_device() -> (r: DeviceType)
        ensures
            r@ == 1,
            r.wf(),
    {
        let r = DeviceType { bits: 1 };
        assert(within(1, DEVICE_TYPE_KNOWN)) by (bit_vector);
        r
    }

    /// Host processors.
    pub fn cpu() -> (r: DeviceType)
        ensures
            r@ == 2,
            r.wf(),
    {
        let r = DeviceType { bits: 2 };
        assert(within(2, DEVICE_TYPE_KNOWN)) by (bit_vector);
        r
    }

    /// Graphics processors.
    pub fn gpu() -> (r: DeviceType)
        ensures
            r@ == 4,
            r.wf(),
    {
        let r = DeviceType { bits: 4 };
        assert(within(4, DEVICE_TYPE_KNOWN)) by (bit_vector);
        r
    }

    /// Dedicated accelerators.
    pub fn accelerator() -> (r: DeviceType)
        ensures
            r@ == 8,
            r.wf(),
    {
        let r = DeviceType { bits: 8 };
        assert(within(8, DEVICE_TYPE_KNOWN)) by (bit_vector);
        r
    }

    /// Every kind of device.
    pub fn all() -> (r: DeviceType)
        ensures
            r@ == DEVICE_TYPE_KNOWN,
            r.wf(),
    {
        let r = DeviceType { bits: DEVICE_TYPE_KNOWN };
        assert(within(0xFFFF_FFFF, 0xFFFF_FFFF)) by (bit_vector);
        r
    }
}

/// Flags for the creation of a memory object, on the native bit positions.
#[derive(Clone, Copy, Debug, PartialEq, Eq, Structural, Hash)]
pub struct MemFlags {
    bits: u64,
}

impl View for MemFlags {
    type V = u64;

    closed spec fn view(&self) -> u64 {
        self.bits
    }
}

impl MemFlags {
    /// The native bits of the flags.
    pub fn bits(&self) -> (r: u64)
        ensures
            r == self@,
    {
        self.bits
    }

    /// The device may read and write the memory.
    pub fn read_write() -> (r: MemFlags)
        ensures
            r@ == 1,
    {
        MemFlags { bits: 1 }
    }

    /// The device may only write the memory.
    pub fn write_only() -> (r: MemFlags)
        ensures
            r@ == 2,
    {
        MemFlags { bits: 2 }
    }

    /// The device may only read the memory.
    pub fn read_only() -> (r: MemFlags)
        ensures
            r@ == 4,
    {
        MemFlags { bits: 4 }
    }
}

/// Properties of a command queue, on the native bit positions.
#[derive(Clone, Copy, Debug, PartialEq, Eq, Structural, Hash)]
pub struct QueueProperties {
    bits: u64,
}

impl View for QueueProperties {
    type V = u64;

    closed spec fn view(&self) -> u64 {
        self.bits
    }
}

impl QueueProperties {
    /// Rebuilds properties from native bits; `None` where a bit falls
    /// outside the defined properties.
    pub fn from_bits(bits: u64) -> (r: Option<QueueProperties>)
        ensures
            r is Some <==> within(bits, QUEUE_PROPERTIES_KNOWN),
            r matches Some(p) ==> p@ == bits,
    {
        if bits & !QUEUE_PROPERTIES_KNOWN == 0 {
            Some(QueueProperties { bits })
        } else {
            None
        }
    }

    /// The native bits of the properties.
    pub fn bits(&self) -> (r: u64)
        ensures
            r == self@,
    {
        self.bits
    }

    /// No property: commands run in order, without profiling.
    pub fn empty() -> (r: QueueProperties)
        ensures
            r@ == 0,
    {
        QueueProperties { bits: 0 }
    }

    /// Commands may run out of the order in which they were queued.
    pub fn out_of_order_exec_mode_enable() -> (r: QueueProperties)
        ensures
            r@ == 1,
    {
        QueueProperties { bits: 1 }
    }

    /// Commands are timed.
    pub fn profiling_enable() -> (r: QueueProperties)
        ensures
            r@ == 2,
    {
        QueueProperties { bits: 2 }
    }
}

} // verus!
