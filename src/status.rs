use vstd::prelude::*;

verus! {
/// A status code of the native compute API.
///
/// `Success` is the one code that reports success; every other variant is a
/// failure that callers may recover from.
#[derive(Clone, Copy, Debug, PartialEq, Eq, Structural, Hash)]
pub enum Status {
    Success,
    DeviceNotFound,
    DeviceNotAvailable,
    CompilerNotAvailable,
    MemObjectAllocationFailure,
    OutOfResources,
    OutOfHostMemory,
    ProfilingInfoNotAvailable,
    MemCopyOverlap,
    ImageFormatMismatch,
    ImageFormatNotSupported,
    BuildProgramFailure,
    MapFailure,
    MisalignedSubBufferOffset,
    ExecStatusErrorForEventsInWaitList,
    CompileProgramFailure,
    LinkerNotAvailable,
    LinkProgramFailure,
    DevicePartitionFailed,
    KernelArgInfoNotAvailable,
    InvalidValue,
    InvalidDeviceType,
    InvalidPlatform,
    InvalidDevice,
    InvalidContext,
    InvalidQueueProperties,
    InvalidCommandQueue,
    InvalidHostPtr,
    InvalidMemObject,
    InvalidImageFormatDescriptor,
    InvalidImageSize,
    InvalidSampler,
    InvalidBinary,
    InvalidBuildOptions,
    InvalidProgram,
    InvalidProgramExecutable,
    InvalidKernelName,
    InvalidKernelDefinition,
    InvalidKernel,
    InvalidArgIndex,
    InvalidArgValue,
    InvalidArgSize,
    InvalidKernelArgs,
    InvalidWorkDimension,
    InvalidWorkGroupSize,
    InvalidWorkItemSize,
    InvalidGlobalOffset,
    InvalidEventWaitList,
    InvalidEvent,
    InvalidOperation,
    InvalidGlObject,
    InvalidBufferSize,
    InvalidMipLevel,
    InvalidGlobalWorkSize,
    InvalidProperty,
    InvalidImageDescriptor,
    InvalidCompilerOptions,
    InvalidLinkerOptions,
    InvalidDevicePartitionCount,
    PlatformNotFoundKhr,
}

/// The native integer that stands for `s`.
pub open spec fn status_code(s: Status) -> i32 {
    match s {
        Status::Success => 0i32,
        Status::DeviceNotFound => -1i32,
        Status::DeviceNotAvailable => -2i32,
        Status::CompilerNotAvailable => -3i32,
        Status::MemObjectAllocationFailure => -4i32,
        Status::OutOfResources => -5i32,
        Status::OutOfHostMemory => -6i32,
        Status::ProfilingInfoNotAvailable => -7i32,
        Status::MemCopyOverlap => -8i32,
        Status::ImageFormatMismatch => -9i32,
        Status::ImageFormatNotSupported => -10i32,
        Status::BuildProgramFailure => -11i32,
        Status::MapFailure => -12i32,
        Status::MisalignedSubBufferOffset => -13i32,
        Status::ExecStatusErrorForEventsInWaitList => -14i32,
        Status::CompileProgramFailure => -15i32,
        Status::LinkerNotAvailable => -16i32,
        Status::LinkProgramFailure => -17i32,
        Status::DevicePartitionFailed => -18i32,
        Status::KernelArgInfoNotAvailable => -19i32,
        Status::InvalidValue => -30i32,
        Status::InvalidDeviceType => -31i32,
        Status::InvalidPlatform => -32i32,
        Status::InvalidDevice => -33i32,
        Status::InvalidContext => -34i32,
        Status::InvalidQueueProperties => -35i32,
        Status::InvalidCommandQueue => -36i32,
        Status::InvalidHostPtr => -37i32,
        Status::InvalidMemObject => -38i32,
        Status::InvalidImageFormatDescriptor => -39i32,
        Status::InvalidImageSize => -40i32,
        Status::InvalidSampler => -41i32,
        Status::InvalidBinary => -42i32,
        Status::InvalidBuildOptions => -43i32,
        Status::InvalidProgram => -44i32,
        Status::InvalidProgramExecutable => -45i32,
        Status::InvalidKernelName => -46i32,
        Status::InvalidKernelDefinition => -47i32,
        Status::InvalidKernel => -48i32,
        Status::InvalidArgIndex => -49i32,
        Status::InvalidArgValue => -50i32,
        Status::InvalidArgSize => -51i32,
        Status::InvalidKernelArgs => -52i32,
        Status::InvalidWorkDimension => -53i32,
        Status::InvalidWorkGroupSize => -54i32,
        Status::InvalidWorkItemSize => -55i32,
        Status::InvalidGlobalOffset => -56i32,
        Status::InvalidEventWaitList => -57i32,
        Status::InvalidEvent => -58i32,
        Status::InvalidOperation => -59i32,
        Status::InvalidGlObject => -60i32,
        Status::InvalidBufferSize => -61i32,
        Status::InvalidMipLevel => -62i32,
        Status::InvalidGlobalWorkSize => -63i32,
        Status::InvalidProperty => -64i32,
        Status::InvalidImageDescriptor => -65i32,
        Status::InvalidCompilerOptions => -66i32,
        Status::InvalidLinkerOptions => -67i32,
        Status::InvalidDevicePartitionCount => -68i32,
        Status::PlatformNotFoundKhr => -1001i32,
    }
}

/// The status that the native integer `code` stands for, if it stands for one.
pub open spec fn status_of(code: i32) -> Option<Status> {
    if code == 0i32 {
        Some(Status::Success)
    } else if code == -1i32 {
        Some(Status::DeviceNotFound)
    } else if code == -2i32 {
        Some(Status::DeviceNotAvailable)
    } else if code == -3i32 {
        Some(Status::CompilerNotAvailable)
    } else if code == -4i32 {
        Some(Status::MemObjectAllocationFailure)
    } else if code == -5i32 {
        Some(Status::OutOfResources)
    } else if code == -6i32 {
        Some(Status::OutOfHostMemory)
    } else if code == -7i32 {
        Some(Status::ProfilingInfoNotAvailable)
    } else if code == -8i32 {
        Some(Status::MemCopyOverlap)
    } else if code == -9i32 {
        Some(Status::ImageFormatMismatch)
    } else if code == -10i32 {
        Some(Status::ImageFormatNotSupported)
    } else if code == -11i32 {
        Some(Status::BuildProgramFailure)
    } else if code == -12i32 {
        Some(Status::MapFailure)
    } else if code == -13i32 {
        Some(Status::MisalignedSubBufferOffset)
    } else if code == -14i32 {
        Some(Status::ExecStatusErrorForEventsInWaitList)
    } else if code == -15i32 {
        Some(Status::CompileProgramFailure)
    } else if code == -16i32 {
        Some(Status::LinkerNotAvailable)
    } else if code == -17i32 {
        Some(Status::LinkProgramFailure)
    } else if code == -18i32 {
        Some(Status::DevicePartitionFailed)
    } else if code == -19i32 {
        Some(Status::KernelArgInfoNotAvailable)
    } else if code == -30i32 {
        Some(Status::InvalidValue)
    } else if code == -31i32 {
        Some(Status::InvalidDeviceType)
    } else if code == -32i32 {
        Some(Status::InvalidPlatform)
    } else if code == -33i32 {
        Some(Status::InvalidDevice)
    } else if code == -34i32 {
        Some(Status::InvalidContext)
    } else if code == -35i32 {
        Some(Status::InvalidQueueProperties)
    } else if code == -36i32 {
        Some(Status::InvalidCommandQueue)
    } else if code == -37i32 {
        Some(Status::InvalidHostPtr)
    } else if code == -38i32 {
        Some(Status::InvalidMemObject)
    } else if code == -39i32 {
        Some(Status::InvalidImageFormatDescriptor)
    } else if code == -40i32 {
        Some(Status::InvalidImageSize)
    } else if code == -41i32 {
        Some(Status::InvalidSampler)
    } else if code == -42i32 {
        Some(Status::InvalidBinary)
    } else if code == -43i32 {
        Some(Status::InvalidBuildOptions)
    } else if code == -44i32 {
        Some(Status::InvalidProgram)
    } else if code == -45i32 {
        Some(Status::InvalidProgramExecutable)
    } else if code == -46i32 {
        Some(Status::InvalidKernelName)
    } else if code == -47i32 {
        Some(Status::InvalidKernelDefinition)
    } else if code == -48i32 {
        Some(Status::InvalidKernel)
    } else if code == -49i32 {
        Some(Status::InvalidArgIndex)
    } else if code == -50i32 {
        Some(Status::InvalidArgValue)
    } else if code == -51i32 {
        Some(Status::InvalidArgSize)
    } else if code == -52i32 {
        Some(Status::InvalidKernelArgs)
    } else if code == -53i32 {
        Some(Status::InvalidWorkDimension)
    } else if code == -54i32 {
        Some(Status::InvalidWorkGroupSize)
    } else if code == -55i32 {
        Some(Status::InvalidWorkItemSize)
    } else if code == -56i32 {
        Some(Status::InvalidGlobalOffset)
    } else if code == -57i32 {
        Some(Status::InvalidEventWaitList)
    } else if code == -58i32 {
        Some(Status::InvalidEvent)
    } else if code == -59i32 {
        Some(Status::InvalidOperation)
    } else if code == -60i32 {
        Some(Status::InvalidGlObject)
    } else if code == -61i32 {
        Some(Status::InvalidBufferSize)
    } else if code == -62i32 {
        Some(Status::InvalidMipLevel)
    } else if code == -63i32 {
        Some(Status::InvalidGlobalWorkSize)
    } else if code == -64i32 {
        Some(Status::InvalidProperty)
    } else if code == -65i32 {
        Some(Status::InvalidImageDescriptor)
    } else if code == -66i32 {
        Some(Status::InvalidCompilerOptions)
    } else if code == -67i32 {
        Some(Status::InvalidLinkerOptions)
    } else if code == -68i32 {
        Some(Status::InvalidDevicePartitionCount)
    } else if code == -1001i32 {
        Some(Status::PlatformNotFoundKhr)
    } else {
        None
    }
}

/// `code` is one of the native status codes.
pub open spec fn is_status_code(code: i32) -> bool {
    status_of(code) is Some
}

impl Status {
    /// The native integer for this status.
    pub fn code(self) -> (r: i32)
        ensures
            r == status_code(self),
    {
        match self {
            Status::Success => 0,
            Status::DeviceNotFound => -1,
            Status::DeviceNotAvailable => -2,
            Status::CompilerNotAvailable => -3,
            Status::MemObjectAllocationFailure => -4,
            Status::OutOfResources => -5,
            Status::OutOfHostMemory => -6,
            Status::ProfilingInfoNotAvailable => -7,
            Status::MemCopyOverlap => -8,
            Status::ImageFormatMismatch => -9,
            Status::ImageFormatNotSupported => -10,
            Status::BuildProgramFailure => -11,
            Status::MapFailure => -12,
            Status::MisalignedSubBufferOffset => -13,
            Status::ExecStatusErrorForEventsInWaitList => -14,
            Status::CompileProgramFailure => -15,
            Status::LinkerNotAvailable => -16,
            Status::LinkProgramFailure => -17,
            Status::DevicePartitionFailed => -18,
            Status::KernelArgInfoNotAvailable => -19,
            Status::InvalidValue => -30,
            Status::InvalidDeviceType => -31,
            Status::InvalidPlatform => -32,
            Status::InvalidDevice => -33,
            Status::InvalidContext => -34,
            Status::InvalidQueueProperties => -35,
            Status::InvalidCommandQueue => -36,
            Status::InvalidHostPtr => -37,
            Status::InvalidMemObject => -38,
            Status::InvalidImageFormatDescriptor => -39,
            Status::InvalidImageSize => -40,
            Status::InvalidSampler => -41,
            Status::InvalidBinary => -42,
            Status::InvalidBuildOptions => -43,
            Status::InvalidProgram => -44,
            Status::InvalidProgramExecutable => -45,
            Status::InvalidKernelName => -46,
            Status::InvalidKernelDefinition => -47,
            Status::InvalidKernel => -48,
            Status::InvalidArgIndex => -49,
            Status::InvalidArgValue => -50,
            Status::InvalidArgSize => -51,
            Status::InvalidKernelArgs => -52,
            Status::InvalidWorkDimension => -53,
            Status::InvalidWorkGroupSize => -54,
            Status::InvalidWorkItemSize => -55,
            Status::InvalidGlobalOffset => -56,
            Status::InvalidEventWaitList => -57,
            Status::InvalidEvent => -58,
            Status::InvalidOperation => -59,
            Status::InvalidGlObject => -60,
            Status::InvalidBufferSize => -61,
            Status::InvalidMipLevel => -62,
            Status::InvalidGlobalWorkSize => -63,
            Status::InvalidProperty => -64,
            Status::InvalidImageDescriptor => -65,
            Status::InvalidCompilerOptions => -66,
            Status::InvalidLinkerOptions => -67,
            Status::InvalidDevicePartitionCount => -68,
            Status::PlatformNotFoundKhr => -1001,
        }
    }

    /// The status for a native integer; `None` for an integer that the API
    /// does not define.
    pub fn from_code(code: i32) -> (r: Option<Status>)
        ensures
            r == status_of(code),
    {
        match code {
            0 => Some(Status::Success),
            -1 => Some(Status::DeviceNotFound),
            -2 => Some(Status::DeviceNotAvailable),
            -3 => Some(Status::CompilerNotAvailable),
            -4 => Some(Status::MemObjectAllocationFailure),
            -5 => Some(Status::OutOfResources),
            -6 => Some(Status::OutOfHostMemory),
            -7 => Some(Status::ProfilingInfoNotAvailable),
            -8 => Some(Status::MemCopyOverlap),
            -9 => Some(Status::ImageFormatMismatch),
            -10 => Some(Status::ImageFormatNotSupported),
            -11 => Some(Status::BuildProgramFailure),
            -12 => Some(Status::MapFailure),
            -13 => Some(Status::MisalignedSubBufferOffset),
            -14 => Some(Status::ExecStatusErrorForEventsInWaitList),
            -15 => Some(Status::CompileProgramFailure),
            -16 => Some(Status::LinkerNotAvailable),
            -17 => Some(Status::LinkProgramFailure),
            -18 => Some(Status::DevicePartitionFailed),
            -19 => Some(Status::KernelArgInfoNotAvailable),
            -30 => Some(Status::InvalidValue),
            -31 => Some(Status::InvalidDeviceType),
            -32 => Some(Status::InvalidPlatform),
            -33 => Some(Status::InvalidDevice),
            -34 => Some(Status::InvalidContext),
            -35 => Some(Status::InvalidQueueProperties),
            -36 => Some(Status::InvalidCommandQueue),
            -37 => Some(Status::InvalidHostPtr),
            -38 => Some(Status::InvalidMemObject),
            -39 => Some(Status::InvalidImageFormatDescriptor),
            -40 => Some(Status::InvalidImageSize),
            -41 => Some(Status::InvalidSampler),
            -42 => Some(Status::InvalidBinary),
            -43 => Some(Status::InvalidBuildOptions),
            -44 => Some(Status::InvalidProgram),
            -45 => Some(Status::InvalidProgramExecutable),
            -46 => Some(Status::InvalidKernelName),
            -47 => Some(Status::InvalidKernelDefinition),
            -48 => Some(Status::InvalidKernel),
            -49 => Some(Status::InvalidArgIndex),
            -50 => Some(Status::InvalidArgValue),
            -51 => Some(Status::InvalidArgSize),
            -52 => Some(Status::InvalidKernelArgs),
            -53 => Some(Status::InvalidWorkDimension),
            -54 => Some(Status::InvalidWorkGroupSize),
            -55 => Some(Status::InvalidWorkItemSize),
            -56 => Some(Status::InvalidGlobalOffset),
            -57 => Some(Status::InvalidEventWaitList),
            -58 => Some(Status::InvalidEvent),
            -59 => Some(Status::InvalidOperation),
            -60 => Some(Status::InvalidGlObject),
            -61 => Some(Status::InvalidBufferSize),
            -62 => Some(Status::InvalidMipLevel),
            -63 => Some(Status::InvalidGlobalWorkSize),
            -64 => Some(Status::InvalidProperty),
            -65 => Some(Status::InvalidImageDescriptor),
            -66 => Some(Status::InvalidCompilerOptions),
            -67 => Some(Status::InvalidLinkerOptions),
            -68 => Some(Status::InvalidDevicePartitionCount),
            -1001 => Some(Status::PlatformNotFoundKhr),
            _ => None,
        }
    }
}

/// What a known native status means to a caller: success, or the failure
/// it reports.
pub open spec fn status_result(code: i32) -> Result<(), Status> {
    if code == 0 {
        Ok(())
    } else {
        Err(status_of(code)->0)
    }
}

/// Turns a native status into a typed outcome.
///
/// A code that the API does not define means the runtime is corrupt or
/// misused; that case is fatal and is left to the caller, who must test
/// `Status::from_code` first.
pub fn check_status(status_int: i32) -> (r: Result<(), Status>)
    requires
        is_status_code(status_int),
    ensures
        r == status_result(status_int),
        r is Ok <==> status_int == 0,
        r matches Err(s) ==> status_code(s) == status_int && s != Status::Success,
{
    match Status::from_code(status_int) {
        Some(Status::Success) => Ok(()),
        Some(other) => Err(other),
        None => Err(Status::InvalidValue),
    }
}

/// Every status survives the trip to its native integer and back.
pub proof fn lemma_status_round_trip(s: Status)
    ensures
        status_of(status_code(s)) == Some(s),
        is_status_code(status_code(s)),
{
}

/// A native integer that stands for a status is that status's integer, so
/// the mapping loses nothing in either direction.
pub proof fn lemma_code_round_trip(code: i32)
    requires
        is_status_code(code),
    ensures
        status_code(status_of(code)->0) == code,
{
}

} // verus!
