//! The driver's vocabulary: status codes, structure tags and device kinds,
//! each with the signed 32-bit number the driver uses for it, and the records
//! and flags of the other modules under one name.

use vstd::prelude::*;

pub use crate::flags::{InstanceCreateFlags, QueueFlags, SampleCountFlags};
pub use crate::records::{
    AllocationCallbacks, ApplicationInfo, DescriptionType, DeviceNameType, Extend3D,
    ExtensionNameType, ExtensionProperties, InstanceCreateInfo, LayerNameType, LayerProperties,
    PhysicalDeviceFeatures, PhysicalDeviceLimits, PhysicalDeviceProperties,
    PhysicalDeviceSparseProperties, QueueFamilyProperties,
};

verus! {

/// A 32-bit boolean as the driver writes it: zero is false, anything else true.
pub type Bool32 = u32;

/// A size or offset in device memory.
pub type DeviceSize = u64;

/// Opaque address of a driver context; zero stands for the null context.
pub type Instance = usize;

/// Opaque address of a physical device, as handed out by the driver.
pub type PhysicalDevice = usize;

/// Status code returned by a driver call.
#[derive(Clone, Copy, Debug, PartialEq, Eq, Structural)]
pub enum Result {
    Success,
    NotReady,
    Timeout,
    EventSet,
    EventReset,
    Incomplete,
    ErrorOutOfHostMemory,
    ErrorOutOfDeviceMemory,
    ErrorInitializationFailed,
    ErrorDeviceLost,
    ErrorMemoryMapFailed,
    ErrorLayerNotPresent,
    ErrorExtensionNotPresent,
    ErrorFeatureNotPresent,
    ErrorIncompatibleDriver,
    ErrorTooManyObjects,
    ErrorFormatNotSupported,
    ErrorFragmentedPool,
    ErrorSurfaceLostKhr,
    ErrorNativeWindowInUseKhr,
    SuboptimalKhr,
    ErrorOutOfDateKhr,
    ErrorIncompatibleDisplayKhr,
    ErrorValidationFailedExt,
    ErrorInvalidShaderNv,
    ErrorOutOfPoolMemoryKhr,
    ErrorInvalidExternalHandleKhr,
    MaxEnum,
}

impl Result {
    /// The number the driver uses for this status.
    pub open spec fn code(self) -> int {
        match self {
            Result::Success => 0,
            Result::NotReady => 1,
            Result::Timeout => 2,
            Result::EventSet => 3,
            Result::EventReset => 4,
            Result::Incomplete => 5,
            Result::ErrorOutOfHostMemory => -1,
            Result::ErrorOutOfDeviceMemory => -2,
            Result::ErrorInitializationFailed => -3,
            Result::ErrorDeviceLost => -4,
            Result::ErrorMemoryMapFailed => -5,
            Result::ErrorLayerNotPresent => -6,
            Result::ErrorExtensionNotPresent => -7,
            Result::ErrorFeatureNotPresent => -8,
            Result::ErrorIncompatibleDriver => -9,
            Result::ErrorTooManyObjects => -10,
            Result::ErrorFormatNotSupported => -11,
            Result::ErrorFragmentedPool => -12,
            Result::ErrorSurfaceLostKhr => -1000000000,
            Result::ErrorNativeWindowInUseKhr => -1000000001,
            Result::SuboptimalKhr => 1000001003,
            Result::ErrorOutOfDateKhr => -1000001004,
            Result::ErrorIncompatibleDisplayKhr => -1000003001,
            Result::ErrorValidationFailedExt => -1000011001,
            Result::ErrorInvalidShaderNv => -1000012000,
            Result::ErrorOutOfPoolMemoryKhr => -1000069000,
            Result::ErrorInvalidExternalHandleKhr => -1000072003,
            Result::MaxEnum => 0x7fff_ffff,
        }
    }

    /// The status that a number stands for, if it stands for one.
    pub open spec fn of_code(raw: int) -> Option<Result> {
        if exists|status: Result| status.code() == raw {
            Some(choose|status: Result| status.code() == raw)
        } else {
            None
        }
    }

    /// An error status is a negative one; the others inform.
    pub open spec fn is_error_spec(self) -> bool {
        self.code() < 0
    }

    /// Different statuses have different numbers.
    pub proof fn lemma_code_injective(a: Result, b: Result)
        requires
            a.code() == b.code(),
        ensures
            a == b,
    {
    }

    /// Reading back the number of a status gives that status.
    pub proof fn lemma_of_code_round_trip(status: Result)
        ensures
            Result::of_code(status.code()) == Some(status),
    {
        let found = choose|other: Result| other.code() == status.code();
        Result::lemma_code_injective(found, status);
    }

    pub fn as_raw(self) -> (raw: i32)
        ensures
            raw == self.code(),
    {
        match self {
            Result::Success => 0,
            Result::NotReady => 1,
            Result::Timeout => 2,
            Result::EventSet => 3,
            Result::EventReset => 4,
            Result::Incomplete => 5,
            Result::ErrorOutOfHostMemory => -1,
            Result::ErrorOutOfDeviceMemory => -2,
            Result::ErrorInitializationFailed => -3,
            Result::ErrorDeviceLost => -4,
            Result::ErrorMemoryMapFailed => -5,
            Result::ErrorLayerNotPresent => -6,
            Result::ErrorExtensionNotPresent => -7,
            Result::ErrorFeatureNotPresent => -8,
            Result::ErrorIncompatibleDriver => -9,
            Result::ErrorTooManyObjects => -10,
            Result::ErrorFormatNotSupported => -11,
            Result::ErrorFragmentedPool => -12,
            Result::ErrorSurfaceLostKhr => -1000000000,
            Result::ErrorNativeWindowInUseKhr => -1000000001,
            Result::SuboptimalKhr => 1000001003,
            Result::ErrorOutOfDateKhr => -1000001004,
            Result::ErrorIncompatibleDisplayKhr => -1000003001,
            Result::ErrorValidationFailedExt => -1000011001,
            Result::ErrorInvalidShaderNv => -1000012000,
            Result::ErrorOutOfPoolMemoryKhr => -1000069000,
            Result::ErrorInvalidExternalHandleKhr => -1000072003,
            Result::MaxEnum => 0x7fff_ffff,
        }
    }

    pub fn from_raw(raw: i32) -> (status: Option<Result>)
        ensures
            status == Result::of_code(raw as int),
    {
        let status = match raw {
            0 => Some(Result::Success),
            1 => Some(Result::NotReady),
            2 => Some(Result::Timeout),
            3 => Some(Result::EventSet),
            4 => Some(Result::EventReset),
            5 => Some(Result::Incomplete),
            -1 => Some(Result::ErrorOutOfHostMemory),
            -2 => Some(Result::ErrorOutOfDeviceMemory),
            -3 => Some(Result::ErrorInitializationFailed),
            -4 => Some(Result::ErrorDeviceLost),
            -5 => Some(Result::ErrorMemoryMapFailed),
            -6 => Some(Result::ErrorLayerNotPresent),
            -7 => Some(Result::ErrorExtensionNotPresent),
            -8 => Some(Result::ErrorFeatureNotPresent),
            -9 => Some(Result::ErrorIncompatibleDriver),
            -10 => Some(Result::ErrorTooManyObjects),
            -11 => Some(Result::ErrorFormatNotSupported),
            -12 => Some(Result::ErrorFragmentedPool),
            -1000000000 => Some(Result::ErrorSurfaceLostKhr),
            -1000000001 => Some(Result::ErrorNativeWindowInUseKhr),
            1000001003 => Some(Result::SuboptimalKhr),
            -1000001004 => Some(Result::ErrorOutOfDateKhr),
            -1000003001 => Some(Result::ErrorIncompatibleDisplayKhr),
            -1000011001 => Some(Result::ErrorValidationFailedExt),
            -1000012000 => Some(Result::ErrorInvalidShaderNv),
            -1000069000 => Some(Result::ErrorOutOfPoolMemoryKhr),
            -1000072003 => Some(Result::ErrorInvalidExternalHandleKhr),
            0x7fff_ffff => Some(Result::MaxEnum),
            _ => None,
        };
        proof {
            match status {
                Some(found) => {
                    Result::lemma_of_code_round_trip(found);
                },
                None => {
                    assert forall|other: Result| other.code() != raw as int by {}
                },
            }
        }
        status
    }

    pub fn is_error(self) -> (error: bool)
        ensures
            error == self.is_error_spec(),
    {
        self.as_raw() < 0
    }
}

/// Tag that opens a descriptor record and tells the driver its kind.
#[derive(Clone, Copy, Debug, PartialEq, Eq, Structural)]
pub enum StructureType {
    ApplicationInfo,
    InstanceCreateInfo,
    MaxEnum,
}

impl StructureType {
    /// The number the driver uses for this tag.
    pub open spec fn code(self) -> int {
        match self {
            StructureType::ApplicationInfo => 0,
            StructureType::InstanceCreateInfo => 1,
            StructureType::MaxEnum => 0x7fff_ffff,
        }
    }

    /// The tag that a number stands for, if it stands for one.
    pub open spec fn of_code(raw: int) -> Option<StructureType> {
        if raw == 0 {
            Some(StructureType::ApplicationInfo)
        } else if raw == 1 {
            Some(StructureType::InstanceCreateInfo)
        } else if raw == 0x7fff_ffff {
            Some(StructureType::MaxEnum)
        } else {
            None
        }
    }

    /// Reading back the number of a tag gives that tag.
    pub proof fn lemma_of_code_round_trip(tag: StructureType)
        ensures
            StructureType::of_code(tag.code()) == Some(tag),
    {
    }

    pub fn as_raw(self) -> (raw: i32)
        ensures
            raw == self.code(),
    {
        match self {
            StructureType::ApplicationInfo => 0,
            StructureType::InstanceCreateInfo => 1,
            StructureType::MaxEnum => 0x7fff_ffff,
        }
    }

    pub fn from_raw(raw: i32) -> (tag: Option<StructureType>)
        ensures
            tag == StructureType::of_code(raw as int),
    {
        match raw {
            0 => Some(StructureType::ApplicationInfo),
            1 => Some(StructureType::InstanceCreateInfo),
            0x7fff_ffff => Some(StructureType::MaxEnum),
            _ => None,
        }
    }
}

/// Kind of a physical device.
#[derive(Clone, Copy, Debug, PartialEq, Eq, Structural)]
pub enum PhysicalDeviceType {
    Other,
    IntegratedGpu,
    DiscreteGpu,
    VirtualGpu,
    Cpu,
    MaxEnum,
}

impl PhysicalDeviceType {
    /// The number the driver uses for this kind.
    pub open spec fn code(self) -> int {
        match self {
            PhysicalDeviceType::Other => 0,
            PhysicalDeviceType::IntegratedGpu => 1,
            PhysicalDeviceType::DiscreteGpu => 2,
            PhysicalDeviceType::VirtualGpu => 3,
            PhysicalDeviceType::Cpu => 4,
            PhysicalDeviceType::MaxEnum => 0x7fff_ffff,
        }
    }

    /// The kind that a number stands for, if it stands for one.
    pub open spec fn of_code(raw: int) -> Option<PhysicalDeviceType> {
        if raw == 0 {
            Some(PhysicalDeviceType::Other)
        } else if raw == 1 {
            Some(PhysicalDeviceType::IntegratedGpu)
        } else if raw == 2 {
            Some(PhysicalDeviceType::DiscreteGpu)
        } else if raw == 3 {
            Some(PhysicalDeviceType::VirtualGpu)
        } else if raw == 4 {
            Some(PhysicalDeviceType::Cpu)
        } else if raw == 0x7fff_ffff {
            Some(PhysicalDeviceType::MaxEnum)
        } else {
            None
        }
    }

    /// Reading back the number of a kind gives that kind.
    pub proof fn lemma_of_code_round_trip(kind: PhysicalDeviceType)
        ensures
            PhysicalDeviceType::of_code(kind.code()) == Some(kind),
    {
    }

    pub fn as_raw(self) -> (raw: i32)
        ensures
            raw == self.code(),
    {
        match self {
            PhysicalDeviceType::Other => 0,
            PhysicalDeviceType::IntegratedGpu => 1,
            PhysicalDeviceType::DiscreteGpu => 2,
            PhysicalDeviceType::VirtualGpu => 3,
            PhysicalDeviceType::Cpu => 4,
            PhysicalDeviceType::MaxEnum => 0x7fff_ffff,
        }
    }

    pub fn from_raw(raw: i32) -> (kind: Option<PhysicalDeviceType>)
        ensures
            kind == PhysicalDeviceType::of_code(raw as int),
    {
        match raw {
            0 => Some(PhysicalDeviceType::Other),
            1 => Some(PhysicalDeviceType::IntegratedGpu),
            2 => Some(PhysicalDeviceType::DiscreteGpu),
            3 => Some(PhysicalDeviceType::VirtualGpu),
            4 => Some(PhysicalDeviceType::Cpu),
            0x7fff_ffff => Some(PhysicalDeviceType::MaxEnum),
            _ => None,
        }
    }
}

} // verus!
