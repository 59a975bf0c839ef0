use vkinfo::vk::{PhysicalDeviceType, Result, StructureType};

#[test]
fn status_numbers_match_the_driver() {
    assert_eq!(Result::Success.as_raw(), 0);
    assert_eq!(Result::Incomplete.as_raw(), 5);
    assert_eq!(Result::ErrorOutOfHostMemory.as_raw(), -1);
    assert_eq!(Result::ErrorFragmentedPool.as_raw(), -12);
    assert_eq!(Result::ErrorSurfaceLostKhr.as_raw(), -1000000000);
    assert_eq!(Result::SuboptimalKhr.as_raw(), 1000001003);
    assert_eq!(Result::ErrorInvalidExternalHandleKhr.as_raw(), -1000072003);
    assert_eq!(Result::MaxEnum.as_raw(), 0x7fff_ffff);
}

#[test]
fn status_round_trips_through_its_number() {
    let all = [
        Result::Success,
        Result::NotReady,
        Result::Timeout,
        Result::EventSet,
        Result::EventReset,
        Result::Incomplete,
        Result::ErrorOutOfHostMemory,
        Result::ErrorOutOfDeviceMemory,
        Result::ErrorInitializationFailed,
        Result::ErrorDeviceLost,
        Result::ErrorMemoryMapFailed,
        Result::ErrorLayerNotPresent,
        Result::ErrorExtensionNotPresent,
        Result::ErrorFeatureNotPresent,
        Result::ErrorIncompatibleDriver,
        Result::ErrorTooManyObjects,
        Result::ErrorFormatNotSupported,
        Result::ErrorFragmentedPool,
        Result::ErrorSurfaceLostKhr,
        Result::ErrorNativeWindowInUseKhr,
        Result::SuboptimalKhr,
        Result::ErrorOutOfDateKhr,
        Result::ErrorIncompatibleDisplayKhr,
        Result::ErrorValidationFailedExt,
        Result::ErrorInvalidShaderNv,
        Result::ErrorOutOfPoolMemoryKhr,
        Result::ErrorInvalidExternalHandleKhr,
        Result::MaxEnum,
    ];
    for status in all {
        assert_eq!(Result::from_raw(status.as_raw()), Some(status));
    }
}

#[test]
fn unknown_status_number_is_no_status() {
    assert_eq!(Result::from_raw(6), None);
    assert_eq!(Result::from_raw(-13), None);
    assert_eq!(Result::from_raw(i32::MIN), None);
}

#[test]
fn negative_statuses_are_errors() {
    assert!(Result::ErrorDeviceLost.is_error());
    assert!(Result::ErrorOutOfDateKhr.is_error());
    assert!(!Result::Success.is_error());
    assert!(!Result::Incomplete.is_error());
    assert!(!Result::SuboptimalKhr.is_error());
}

#[test]
fn structure_type_numbers() {
    assert_eq!(StructureType::ApplicationInfo.as_raw(), 0);
    assert_eq!(StructureType::InstanceCreateInfo.as_raw(), 1);
    assert_eq!(StructureType::MaxEnum.as_raw(), 0x7fff_ffff);
    assert_eq!(StructureType::from_raw(1), Some(StructureType::InstanceCreateInfo));
    assert_eq!(StructureType::from_raw(2), None);
}

#[test]
fn physical_device_type_numbers() {
    assert_eq!(PhysicalDeviceType::Other.as_raw(), 0);
    assert_eq!(PhysicalDeviceType::DiscreteGpu.as_raw(), 2);
    assert_eq!(PhysicalDeviceType::Cpu.as_raw(), 4);
    assert_eq!(PhysicalDeviceType::from_raw(3), Some(PhysicalDeviceType::VirtualGpu));
    assert_eq!(PhysicalDeviceType::from_raw(5), None);
    assert_eq!(PhysicalDeviceType::from_raw(0x7fff_ffff), Some(PhysicalDeviceType::MaxEnum));
}
