//! The native surface that the binding drives. A driver maps the image of the
//! library, looks entry points up, and calls them at the addresses that the
//! binding resolved.
//!
//! What each call is handed is stated here, as the precondition of the call,
//! and proved wherever the binding makes it. Nothing is assumed of what a
//! driver answers: the methods promise nothing. The contracts of the binding
//! speak of a driver's answers through the postcondition of its own method,
//! so they hold of every driver, and say of a driver that states what it
//! answers exactly what the binding makes of it.

use vstd::prelude::*;
use crate::function::FunctionAddress;
use crate::records::{
    ExtensionProperties, InstanceCreateInfo, LayerProperties, PhysicalDeviceFeatures,
    PhysicalDeviceProperties, QueueFamilyProperties,
};
use crate::symbol::{well_formed_name, Symbol};

verus! {

/// What the driver answered to one call of a plural query.
pub struct Reply<T> {
    /// The number of the status that the call returned.
    pub status: i32,
    /// The count that the driver wrote: how many records it has, or how many
    /// it wrote into the storage.
    pub count: u32,
    /// The storage after the call; empty where the call had none.
    pub records: Vec<T>,
}

/// What the driver answered to one call of a plural query that returns no
/// status.
pub struct Filled<T> {
    /// The count that the driver wrote.
    pub count: u32,
    /// The storage after the call; empty where the call had none.
    pub records: Vec<T>,
}

/// The calls that the binding makes into the native side.
pub trait Driver {
    /// Maps the image of the library at `path` and says whether it is mapped.
    fn map_image(&self, path: &str) -> bool;

    /// The address that the mapped image exports under `name`, or zero.
    fn find_symbol(&self, name: &[u8]) -> usize
        requires
            well_formed_name(name@),
    ;

    /// Asks the resolver for the address of `name` under `context`; zero
    /// where the resolver knows none.
    fn get_instance_proc_addr(
        &self,
        resolver: &FunctionAddress,
        context: usize,
        name: &[u8],
    ) -> usize
        requires
            resolver.serves(Symbol::GetInstanceProcAddr, 0),
            well_formed_name(name@),
    ;

    /// Creates a context from `info`, with no allocator; the status and the
    /// context that the driver wrote.
    fn create_instance(&self, function: &FunctionAddress, info: &InstanceCreateInfo) -> (i32, usize)
        requires
            function.serves(Symbol::CreateInstance, 0),
    ;

    /// Tears `instance` down, with no allocator.
    fn destroy_instance(&self, function: &FunctionAddress, instance: usize)
        requires
            instance != 0,
            function.serves(Symbol::DestroyInstance, instance),
    ;

    /// One call of the layer query: without storage where `capacity` is none,
    /// else with storage for that many records.
    fn enumerate_instance_layer_properties(
        &self,
        function: &FunctionAddress,
        capacity: Option<u32>,
    ) -> Reply<LayerProperties>
        requires
            function.serves(Symbol::EnumerateInstanceLayerProperties, 0),
    ;

    /// One call of the extension query, for the layer named or, where
    /// `layer_name` is none, with a null name.
    fn enumerate_instance_extension_properties(
        &self,
        function: &FunctionAddress,
        layer_name: Option<&Vec<u8>>,
        capacity: Option<u32>,
    ) -> Reply<ExtensionProperties>
        requires
            function.serves(Symbol::EnumerateInstanceExtensionProperties, 0),
            layer_name matches Some(name) ==> well_formed_name(name@),
    ;

    /// One call of the device query on `instance`.
    fn enumerate_physical_devices(
        &self,
        function: &FunctionAddress,
        instance: usize,
        capacity: Option<u32>,
    ) -> Reply<usize>
        requires
            instance != 0,
            function.serves(Symbol::EnumeratePhysicalDevices, instance),
    ;

    /// The feature record that the driver fills in for `device`.
    fn get_physical_device_features(
        &self,
        function: &FunctionAddress,
        device: usize,
    ) -> PhysicalDeviceFeatures
        requires
            function.symbol_is(Symbol::GetPhysicalDeviceFeatures),
            function.context_spec() != 0,
    ;

    /// The property record that the driver fills in for `device`.
    fn get_physical_device_properties(
        &self,
        function: &FunctionAddress,
        device: usize,
    ) -> PhysicalDeviceProperties
        requires
            function.symbol_is(Symbol::GetPhysicalDeviceProperties),
            function.context_spec() != 0,
    ;

    /// One call of the queue-family query on `device`.
    fn get_physical_device_queue_family_properties(
        &self,
        function: &FunctionAddress,
        device: usize,
        capacity: Option<u32>,
    ) -> Filled<QueueFamilyProperties>
        requires
            function.symbol_is(Symbol::GetPhysicalDeviceQueueFamilyProperties),
            function.context_spec() != 0,
    ;
}

} // verus!
