use vstd::prelude::*;

use crate::decode::{cstring_text, cstring_violation, decode_cstring_buf};
use crate::flags::{DEVICE_TYPE_KNOWN, DeviceType, within};
use crate::handle::{DeviceId, PlatformId};
use crate::protocol::{Outcome, Request, Violation, halt_of, screen};

verus! {

/// The string properties of a platform.
#[derive(Clone, Copy, Debug, PartialEq, Eq, Structural, Hash)]
pub enum PlatformInfo {
    Profile,
    Version,
    Name,
    Vendor,
    Extensions,
}

/// The native selector of a platform property.
pub open spec fn platform_param(info: PlatformInfo) -> u32 {
    match info {
        PlatformInfo::Profile => 0x0900,
        PlatformInfo::Version => 0x0901,
        PlatformInfo::Name => 0x0902,
        PlatformInfo::Vendor => 0x0903,
        PlatformInfo::Extensions => 0x0904,
    }
}

impl PlatformInfo {
    /// The native selector of this property.
    pub fn param(&self) -> (r: u32)
        ensures
            r == platform_param(*self),
    {
        match self {
            PlatformInfo::Profile => 0x0900,
            PlatformInfo::Version => 0x0901,
            PlatformInfo::Name => 0x0902,
            PlatformInfo::Vendor => 0x0903,
            PlatformInfo::Extensions => 0x0904,
        }
    }
}

/// A device property: its native selector, and how wide the destination of
/// the first native call is.
pub trait DeviceInfo: Sized {
    /// The native selector.
    spec fn spec_param(&self) -> u32;

    /// The width in bytes of a fixed-size value, or 0 for a variable-size
    /// value whose size is asked for first.
    spec fn spec_width(&self) -> usize;

    fn param(&self) -> (r: u32)
        ensures
            r == self.spec_param(),
    ;

    fn width(&self) -> (r: usize)
        ensures
            r == self.spec_width(),
    ;
}

/// The boolean properties of a device.
#[derive(Clone, Copy, Debug, PartialEq, Eq, Structural, Hash)]
pub enum DeviceInfoBool {
    Available,
    CompilerAvailable,
    EndianLittle,
    ErrorCorrectionSupport,
    ImageSupport,
}

impl DeviceInfo for DeviceInfoBool {
    open spec fn spec_param(&self) -> u32 {
        match self {
            DeviceInfoBool::Available => 0x1027,
            DeviceInfoBool::CompilerAvailable => 0x1028,
            DeviceInfoBool::EndianLittle => 0x1026,
            DeviceInfoBool::ErrorCorrectionSupport => 0x1024,
            DeviceInfoBool::ImageSupport => 0x1016,
        }
    }

    open spec fn spec_width(&self) -> usize {
        4
    }

    fn param(&self) -> (r: u32) {
        match self {
            DeviceInfoBool::Available => 0x1027,
            DeviceInfoBool::CompilerAvailable => 0x1028,
            DeviceInfoBool::EndianLittle => 0x1026,
            DeviceInfoBool::ErrorCorrectionSupport => 0x1024,
            DeviceInfoBool::ImageSupport => 0x1016,
        }
    }

    fn width(&self) -> (r: usize) {
        4
    }
}

/// The string properties of a device.
#[derive(Clone, Copy, Debug, PartialEq, Eq, Structural, Hash)]
pub enum DeviceInfoString {
    Name,
    Profile,
    Vendor,
    DeviceVersion,
    DriverVersion,
    Extensions,
}

impl DeviceInfo for DeviceInfoString {
    open spec fn spec_param(&self) -> u32 {
        match self {
            DeviceInfoString::Name => 0x102B,
            DeviceInfoString::Profile => 0x102E,
            DeviceInfoString::Vendor => 0x102C,
            DeviceInfoString::DeviceVersion => 0x102F,
            DeviceInfoString::DriverVersion => 0x102D,
            DeviceInfoString::Extensions => 0x1030,
        }
    }

    open spec fn spec_width(&self) -> usize {
        0
    }

    fn param(&self) -> (r: u32) {
        match self {
            DeviceInfoString::Name => 0x102B,
            DeviceInfoString::Profile => 0x102E,
            DeviceInfoString::Vendor => 0x102C,
            DeviceInfoString::DeviceVersion => 0x102F,
            DeviceInfoString::DriverVersion => 0x102D,
            DeviceInfoString::Extensions => 0x1030,
        }
    }

    fn width(&self) -> (r: usize) {
        0
    }
}

/// The 32-bit unsigned properties of a device.
#[derive(Clone, Copy, Debug, PartialEq, Eq, Structural, Hash)]
pub enum DeviceInfoClUint {
    MaxClockFrequency,
    MaxComputeUnits,
    MaxConstantArgs,
    MaxReadImageArgs,
    MaxSamplers,
    MaxWorkItemDimensions,
    MaxWriteImageArgs,
    MemBaseAddrAlign,
    MinDataTypeAlignSize,
    VendorId,
    PreferredVectorWidthChar,
    PreferredVectorWidthShort,
    PreferredVectorWidthInt,
    PreferredVectorWidthLong,
    PreferredVectorWidthFloat,
    PreferredVectorWidthDouble,
}

impl DeviceInfo for DeviceInfoClUint {
    open spec fn spec_param(&self) -> u32 {
        match self {
            DeviceInfoClUint::MaxClockFrequency => 0x100C,
            DeviceInfoClUint::MaxComputeUnits => 0x1002,
            DeviceInfoClUint::MaxConstantArgs => 0x1021,
            DeviceInfoClUint::MaxReadImageArgs => 0x100E,
            DeviceInfoClUint::MaxSamplers => 0x1018,
            DeviceInfoClUint::MaxWorkItemDimensions => 0x1003,
            DeviceInfoClUint::MaxWriteImageArgs => 0x100F,
            DeviceInfoClUint::MemBaseAddrAlign => 0x1019,
            DeviceInfoClUint::MinDataTypeAlignSize => 0x101A,
            DeviceInfoClUint::VendorId => 0x1001,
            DeviceInfoClUint::PreferredVectorWidthChar => 0x1006,
            DeviceInfoClUint::PreferredVectorWidthShort => 0x1007,
            DeviceInfoClUint::PreferredVectorWidthInt => 0x1008,
            DeviceInfoClUint::PreferredVectorWidthLong => 0x1009,
            DeviceInfoClUint::PreferredVectorWidthFloat => 0x100A,
            DeviceInfoClUint::PreferredVectorWidthDouble => 0x100B,
        }
    }

    open spec fn spec_width(&self) -> usize {
        4
    }

    fn param(&self) -> (r: u32) {
        match self {
            DeviceInfoClUint::MaxClockFrequency => 0x100C,
            DeviceInfoClUint::MaxComputeUnits => 0x1002,
            DeviceInfoClUint::MaxConstantArgs => 0x1021,
            DeviceInfoClUint::MaxReadImageArgs => 0x100E,
            DeviceInfoClUint::MaxSamplers => 0x1018,
            DeviceInfoClUint::MaxWorkItemDimensions => 0x1003,
            DeviceInfoClUint::MaxWriteImageArgs => 0x100F,
            DeviceInfoClUint::MemBaseAddrAlign => 0x1019,
            DeviceInfoClUint::MinDataTypeAlignSize => 0x101A,
            DeviceInfoClUint::VendorId => 0x1001,
            DeviceInfoClUint::PreferredVectorWidthChar => 0x1006,
            DeviceInfoClUint::PreferredVectorWidthShort => 0x1007,
            DeviceInfoClUint::PreferredVectorWidthInt => 0x1008,
            DeviceInfoClUint::PreferredVectorWidthLong => 0x1009,
            DeviceInfoClUint::PreferredVectorWidthFloat => 0x100A,
            DeviceInfoClUint::PreferredVectorWidthDouble => 0x100B,
        }
    }

    fn width(&self) -> (r: usize) {
        4
    }
}

/// The kinds of a device, as a 64-bit set of native bits.
#[derive(Clone, Copy, Debug, PartialEq, Eq, Structural, Hash)]
pub struct DeviceInfoDeviceType;

impl DeviceInfo for DeviceInfoDeviceType {
    open spec fn spec_param(&self) -> u32 {
        0x1000
    }

    open spec fn spec_width(&self) -> usize {
        8
    }

    fn param(&self) -> (r: u32) {
        0x1000
    }

    fn width(&self) -> (r: usize) {
        8
    }
}

/// `r` is what a string read that reported `code` and filled `buf` comes to.
pub open spec fn is_string_outcome(code: i32, buf: Seq<u8>, r: Outcome<String>) -> bool {
    if code != 0 {
        r == halt_of::<String>(code)
    } else {
        match cstring_violation(buf) {
            Some(v) => r == Outcome::<String>::Fatal(v),
            None => r matches Outcome::Done(s) && s@ == cstring_text(buf),
        }
    }
}

/// `r` is what the size step of a string read comes to: a fill of exactly
/// the reported size, where that size has room for the terminator.
pub open spec fn is_size_outcome(code: i32, size: usize, fill: Request, r: Outcome<Request>) -> bool {
    if code != 0 {
        r == halt_of::<Request>(code)
    } else if size == 0 {
        r == Outcome::<Request>::Fatal(Violation::EmptyBuffer)
    } else {
        r == Outcome::Done(fill)
    }
}

fn string_outcome(code: i32, buf: Vec<u8>) -> (r: Outcome<String>)
    ensures
        is_string_outcome(code, buf@, r),
{
    if let Err(halt) = screen::<String>(code) {
        return halt;
    }
    match decode_cstring_buf(buf) {
        Ok(s) => Outcome::Done(s),
        Err(v) => Outcome::Fatal(v),
    }
}

/// A string property of one platform, read with the two-call idiom: ask the
/// size, then fill a buffer of exactly that size.
#[derive(Clone, Copy, Debug, PartialEq, Eq, Structural, Hash)]
pub struct PlatformQuery {
    pub platform: PlatformId,
    pub info: PlatformInfo,
}

impl PlatformQuery {
    /// The native read of this property into `size` bytes.
    pub open spec fn spec_request(&self, size: usize) -> Request {
        Request::PlatformInfo { platform: self.platform, param: platform_param(self.info), size }
    }

    /// The first call: ask for the size, with no destination.
    pub fn size_request(&self) -> (r: Request)
        ensures
            r == self.spec_request(0),
    {
        Request::PlatformInfo { platform: self.platform, param: self.info.param(), size: 0 }
    }

    /// The second call, given what the first one reported.
    pub fn after_size(&self, code: i32, size: usize) -> (r: Outcome<Request>)
        ensures
            is_size_outcome(code, size, self.spec_request(size), r),
    {
        if let Err(halt) = screen::<Request>(code) {
            return halt;
        }
        if size == 0 {
            return Outcome::Fatal(Violation::EmptyBuffer);
        }
        Outcome::Done(Request::PlatformInfo { platform: self.platform, param: self.info.param(), size })
    }

    /// The property, given what the second call reported and the buffer it
    /// filled.
    pub fn finish(&self, code: i32, buf: Vec<u8>) -> (r: Outcome<String>)
        ensures
            is_string_outcome(code, buf@, r),
    {
        string_outcome(code, buf)
    }
}

/// Prepares the read of a string property of a platform.
pub fn get_platform_info(platform: PlatformId, info: PlatformInfo) -> (r: PlatformQuery)
    ensures
        r == (PlatformQuery { platform, info }),
{
    PlatformQuery { platform, info }
}

/// A property of one device.
#[derive(Clone, Copy, Debug, PartialEq, Eq)]
pub struct DeviceQuery<T> {
    pub device: DeviceId,
    pub info: T,
}

/// Prepares the read of a property of a device.
pub fn get_device_info<T: DeviceInfo>(device: DeviceId, info: T) -> (r: DeviceQuery<T>)
    ensures
        r.device == device,
        r.info == info,
{
    DeviceQuery { device, info }
}

impl<T: DeviceInfo> DeviceQuery<T> {
    /// The native read of this property into `size` bytes.
    pub open spec fn spec_request(&self, size: usize) -> Request {
        Request::DeviceInfo { device: self.device, param: self.info.spec_param(), size }
    }

    /// The first call: for a fixed-size value, the read into a destination
    /// of its width; for a string, the question of its size.
    pub fn request(&self) -> (r: Request)
        ensures
            r == self.spec_request(self.info.spec_width()),
    {
        Request::DeviceInfo { device: self.device, param: self.info.param(), size: self.info.width() }
    }
}

impl DeviceQuery<DeviceInfoString> {
    /// The second call, given what the first one reported.
    pub fn after_size(&self, code: i32, size: usize) -> (r: Outcome<Request>)
        ensures
            is_size_outcome(code, size, self.spec_request(size), r),
    {
        if let Err(halt) = screen::<Request>(code) {
            return halt;
        }
        if size == 0 {
            return Outcome::Fatal(Violation::EmptyBuffer);
        }
        Outcome::Done(Request::DeviceInfo { device: self.device, param: self.info.param(), size })
    }

    /// The property, given what the second call reported and the buffer it
    /// filled.
    pub fn finish(&self, code: i32, buf: Vec<u8>) -> (r: Outcome<String>)
        ensures
            is_string_outcome(code, buf@, r),
    {
        string_outcome(code, buf)
    }
}

impl DeviceQuery<DeviceInfoBool> {
    /// The property, given what the call reported and the native boolean it
    /// wrote.
    pub fn finish(&self, code: i32, value: u32) -> (r: Outcome<bool>)
        ensures
            code == 0 ==> r == Outcome::Done(value != 0),
            code != 0 ==> r == halt_of::<bool>(code),
    {
        if let Err(halt) = screen::<bool>(code) {
            return halt;
        }
        Outcome::Done(value != 0)
    }
}

impl DeviceQuery<DeviceInfoClUint> {
    /// The property, given what the call reported and the value it wrote.
    pub fn finish(&self, code: i32, value: u32) -> (r: Outcome<u32>)
        ensures
            code == 0 ==> r == Outcome::Done(value),
            code != 0 ==> r == halt_of::<u32>(code),
    {
        if let Err(halt) = screen::<u32>(code) {
            return halt;
        }
        Outcome::Done(value)
    }
}

impl DeviceQuery<DeviceInfoDeviceType> {
    /// The device's kinds, given what the call reported and the bits it
    /// wrote. Bits outside the defined kinds break the native contract.
    pub fn finish(&self, code: i32, bits: u64) -> (r: Outcome<DeviceType>)
        ensures
            code != 0 ==> r == halt_of::<DeviceType>(code),
            code == 0 && !within(bits, DEVICE_TYPE_KNOWN) ==> r == Outcome::<DeviceType>::Fatal(
                Violation::UnknownDeviceType(bits),
            ),
            code == 0 && within(bits, DEVICE_TYPE_KNOWN) ==> (r matches Outcome::Done(t) && t@
                == bits && t.wf()),
    {
        if let Err(halt) = screen::<DeviceType>(code) {
            return halt;
        }
        match DeviceType::from_bits(bits) {
            Some(t) => Outcome::Done(t),
            None => Outcome::Fatal(Violation::UnknownDeviceType(bits)),
        }
    }
}

} // verus!
