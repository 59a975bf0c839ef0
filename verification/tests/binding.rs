use std::cell::{Cell, RefCell};
use std::rc::Rc;

use vkinfo::driver::{Driver, Filled, Reply};
use vkinfo::entry::Entry;
use vkinfo::error::Error;
use vkinfo::flags::QueueFlags;
use vkinfo::function::FunctionAddress;
use vkinfo::library::{Library, DEFAULT_LIBRARY};
use vkinfo::protocol::MAX_PASSES;
use vkinfo::records::{
    DescriptionType, DeviceNameType, Extend3D, ExtensionNameType, ExtensionProperties,
    InstanceCreateInfo, LayerNameType, LayerProperties, PhysicalDeviceFeatures,
    PhysicalDeviceLimits, PhysicalDeviceProperties, PhysicalDeviceSparseProperties,
    QueueFamilyProperties,
};
use vkinfo::symbol::Symbol;
use vkinfo::vk;

const CONTEXT: usize = 0x5000;

/// What the mock driver holds and what it has been asked so far.
struct State {
    images: Vec<&'static str>,
    exports_resolver: bool,
    unknown: RefCell<Vec<&'static str>>,
    layers: RefCell<Vec<LayerProperties>>,
    extensions: Vec<(Option<&'static str>, ExtensionProperties)>,
    devices: Vec<usize>,
    families: Vec<QueueFamilyProperties>,
    create_status: i32,
    created: usize,
    layer_status: i32,
    grow_after_count: Cell<bool>,
    always_incomplete: bool,
    overreport: bool,
    empty_name: usize,
    mapped: RefCell<Vec<String>>,
    resolved: RefCell<Vec<(usize, Vec<u8>)>>,
    descriptors: RefCell<Vec<InstanceCreateInfo>>,
    layer_calls: RefCell<Vec<Option<u32>>>,
    extension_names: RefCell<Vec<Option<Vec<u8>>>>,
    device_calls: Cell<u32>,
    family_calls: RefCell<Vec<Option<u32>>>,
    destroy_calls: Cell<u32>,
    destroyed: RefCell<Vec<usize>>,
}

#[derive(Clone)]
struct Mock(Rc<State>);

/// Watches the driver from outside: notes when it is the last to hold it.
struct Image {
    state: Rc<State>,
    unmaps: Rc<Cell<u32>>,
}

impl Drop for Image {
    fn drop(&mut self) {
        if Rc::strong_count(&self.state) == 1 {
            self.unmaps.set(self.unmaps.get() + 1);
        }
    }
}

fn layer(name: &str, spec_version: u32) -> LayerProperties {
    LayerProperties {
        layer_name: LayerNameType::from_bytes(name.as_bytes()).unwrap(),
        spec_version,
        implementation_version: 1,
        description: DescriptionType::from_bytes(b"a layer").unwrap(),
    }
}

fn extension(name: &str, spec_version: u32) -> ExtensionProperties {
    ExtensionProperties {
        extension_name: ExtensionNameType::from_bytes(name.as_bytes()).unwrap(),
        spec_version,
    }
}

fn family(bits: u32, queue_count: u32) -> QueueFamilyProperties {
    QueueFamilyProperties {
        queue_flags: QueueFlags { bits },
        queue_count,
        timestamp_valid_bits: 64,
        min_image_transfer_granularity: Extend3D { width: 1, height: 1, depth: 1 },
    }
}

fn state() -> State {
    State {
        images: vec![DEFAULT_LIBRARY],
        exports_resolver: true,
        unknown: RefCell::new(Vec::new()),
        layers: RefCell::new(vec![layer("LayerA", 1), layer("LayerB", 2)]),
        extensions: vec![
            (None, extension("EXT_base", 7)),
            (Some("LayerA"), extension("EXT_foo", 3)),
        ],
        devices: vec![0x100, 0x200],
        families: vec![family(0x1 | 0x2, 16), family(0x4, 2), family(0x8, 1)],
        create_status: 0,
        created: CONTEXT,
        layer_status: 0,
        grow_after_count: Cell::new(false),
        always_incomplete: false,
        overreport: false,
        empty_name: 0,
        mapped: RefCell::new(Vec::new()),
        resolved: RefCell::new(Vec::new()),
        descriptors: RefCell::new(Vec::new()),
        layer_calls: RefCell::new(Vec::new()),
        extension_names: RefCell::new(Vec::new()),
        device_calls: Cell::new(0),
        family_calls: RefCell::new(Vec::new()),
        destroy_calls: Cell::new(0),
        destroyed: RefCell::new(Vec::new()),
    }
}

fn mock(state: State) -> Mock {
    Mock(Rc::new(state))
}

const NAMES: [&str; 8] = [
    "vkCreateInstance",
    "vkEnumerateInstanceExtensionProperties",
    "vkEnumerateInstanceLayerProperties",
    "vkDestroyInstance",
    "vkEnumeratePhysicalDevices",
    "vkGetPhysicalDeviceFeatures",
    "vkGetPhysicalDeviceProperties",
    "vkGetPhysicalDeviceQueueFamilyProperties",
];

fn address_of(name: &str) -> usize {
    0x1000 + 8 * NAMES.iter().position(|known| *known == name).unwrap()
}

/// Fills storage the way the driver does: as many records as fit, and the
/// status that says whether all of them did.
fn fill<T: Clone>(all: &[T], capacity: Option<u32>) -> Reply<T> {
    match capacity {
        None => Reply { status: 0, count: all.len() as u32, records: Vec::new() },
        Some(capacity) => {
            let written = all.len().min(capacity as usize);
            Reply {
                status: if written < all.len() { 5 } else { 0 },
                count: written as u32,
                records: all[..written].to_vec(),
            }
        }
    }
}

impl Driver for Mock {
    fn map_image(&self, path: &str) -> bool {
        self.0.mapped.borrow_mut().push(path.to_string());
        self.0.images.iter().any(|image| *image == path)
    }

    fn find_symbol(&self, name: &[u8]) -> usize {
        assert_eq!(name, b"vkGetInstanceProcAddr\0");
        if self.0.exports_resolver {
            0xb007
        } else {
            0
        }
    }

    fn get_instance_proc_addr(
        &self,
        resolver: &FunctionAddress,
        context: usize,
        name: &[u8],
    ) -> usize {
        assert_eq!(resolver.address(), 0xb007);
        assert_eq!(name.last(), Some(&0u8));
        self.0.resolved.borrow_mut().push((context, name.to_vec()));
        let text = std::str::from_utf8(&name[..name.len() - 1]).unwrap();
        if text.is_empty() {
            return self.0.empty_name;
        }
        if self.0.unknown.borrow().iter().any(|unknown| *unknown == text) {
            return 0;
        }
        match NAMES.iter().position(|known| *known == text) {
            Some(_) => address_of(text),
            None => 0,
        }
    }

    fn create_instance(&self, function: &FunctionAddress, info: &InstanceCreateInfo) -> (i32, usize) {
        assert_eq!(function.address(), address_of("vkCreateInstance"));
        assert_eq!(function.context(), 0);
        self.0.descriptors.borrow_mut().push(*info);
        (self.0.create_status, self.0.created)
    }

    fn destroy_instance(&self, function: &FunctionAddress, instance: usize) {
        assert_eq!(function.address(), address_of("vkDestroyInstance"));
        assert_eq!(function.context(), instance);
        self.0.destroy_calls.set(self.0.destroy_calls.get() + 1);
        self.0.destroyed.borrow_mut().push(instance);
    }

    fn enumerate_instance_layer_properties(
        &self,
        function: &FunctionAddress,
        capacity: Option<u32>,
    ) -> Reply<LayerProperties> {
        assert_eq!(function.address(), address_of("vkEnumerateInstanceLayerProperties"));
        self.0.layer_calls.borrow_mut().push(capacity);
        if self.0.layer_status != 0 {
            return Reply { status: self.0.layer_status, count: 0, records: Vec::new() };
        }
        let mut reply = fill(&self.0.layers.borrow(), capacity);
        if capacity.is_none() && self.0.grow_after_count.get() {
            self.0.grow_after_count.set(false);
            self.0.layers.borrow_mut().push(layer("LayerC", 3));
        }
        if capacity.is_some() && self.0.always_incomplete {
            reply.status = 5;
        }
        if capacity.is_some() && self.0.overreport {
            reply.count += 10;
        }
        reply
    }

    fn enumerate_instance_extension_properties(
        &self,
        function: &FunctionAddress,
        layer_name: Option<&Vec<u8>>,
        capacity: Option<u32>,
    ) -> Reply<ExtensionProperties> {
        assert_eq!(function.address(), address_of("vkEnumerateInstanceExtensionProperties"));
        self.0.extension_names.borrow_mut().push(layer_name.cloned());
        let wanted: Option<Vec<u8>> = layer_name.map(|name| name[..name.len() - 1].to_vec());
        let found: Vec<ExtensionProperties> = self
            .0
            .extensions
            .iter()
            .filter(|(of, _)| of.map(|name| name.as_bytes().to_vec()) == wanted)
            .map(|(_, extension)| *extension)
            .collect();
        fill(&found, capacity)
    }

    fn enumerate_physical_devices(
        &self,
        function: &FunctionAddress,
        instance: usize,
        capacity: Option<u32>,
    ) -> Reply<usize> {
        assert_eq!(function.address(), address_of("vkEnumeratePhysicalDevices"));
        assert_eq!(instance, self.0.created);
        self.0.device_calls.set(self.0.device_calls.get() + 1);
        fill(&self.0.devices, capacity)
    }

    fn get_physical_device_features(
        &self,
        function: &FunctionAddress,
        device: usize,
    ) -> PhysicalDeviceFeatures {
        assert_eq!(function.address(), address_of("vkGetPhysicalDeviceFeatures"));
        PhysicalDeviceFeatures {
            geometry_shader: 1,
            shader_int64: (device == 0x200) as u32,
            ..PhysicalDeviceFeatures::default()
        }
    }

    fn get_physical_device_properties(
        &self,
        function: &FunctionAddress,
        device: usize,
    ) -> PhysicalDeviceProperties {
        assert_eq!(function.address(), address_of("vkGetPhysicalDeviceProperties"));
        PhysicalDeviceProperties {
            api_version: 0x0040_0000,
            driver_version: 12,
            vendor_id: 0x10de,
            device_id: device as u32,
            device_type: vk::PhysicalDeviceType::DiscreteGpu,
            device_name: DeviceNameType::from_bytes(b"Mock GPU").unwrap(),
            pipeline_cache_uuid: [9u8; 16],
            limit: PhysicalDeviceLimits {
                max_image_dimension_2d: 16384,
                max_sampler_anisotropy: 16.0f32.to_bits(),
                ..PhysicalDeviceLimits::default()
            },
            sparse_properties: PhysicalDeviceSparseProperties::default(),
        }
    }

    fn get_physical_device_queue_family_properties(
        &self,
        function: &FunctionAddress,
        _device: usize,
        capacity: Option<u32>,
    ) -> Filled<QueueFamilyProperties> {
        assert_eq!(function.address(), address_of("vkGetPhysicalDeviceQueueFamilyProperties"));
        self.0.family_calls.borrow_mut().push(capacity);
        let reply = fill(&self.0.families, capacity);
        Filled { count: reply.count, records: reply.records }
    }
}

fn entry_of(driver: &Mock) -> Entry<Mock> {
    Entry::new(driver.clone()).unwrap()
}

#[test]
fn entry_loads_the_default_library_and_resolves_global_functions() {
    let driver = mock(state());
    let entry = Entry::new(driver.clone());
    assert!(entry.is_ok());
    assert_eq!(*driver.0.mapped.borrow(), vec![DEFAULT_LIBRARY.to_string()]);
    let resolved = driver.0.resolved.borrow();
    assert_eq!(
        *resolved,
        vec![
            (0usize, b"vkCreateInstance\0".to_vec()),
            (0usize, b"vkEnumerateInstanceExtensionProperties\0".to_vec()),
            (0usize, b"vkEnumerateInstanceLayerProperties\0".to_vec()),
        ]
    );
}

#[test]
fn missing_image_is_library_not_found() {
    let mut fresh = state();
    fresh.images = Vec::new();
    let driver = mock(fresh);
    assert_eq!(Entry::new(driver.clone()).err(), Some(Error::LibraryNotFound));
    assert!(driver.0.resolved.borrow().is_empty());
    assert_eq!(Library::load(driver.clone(), None).err(), Some(Error::LibraryNotFound));
}

#[test]
fn library_is_loaded_by_the_name_given() {
    let mut fresh = state();
    fresh.images = vec!["libvulkan.so.1"];
    let driver = mock(fresh);
    assert!(Library::load(driver.clone(), Some("libvulkan.so.1")).is_ok());
    assert_eq!(Library::load(driver.clone(), None).err(), Some(Error::LibraryNotFound));
    assert_eq!(
        *driver.0.mapped.borrow(),
        vec!["libvulkan.so.1".to_string(), "vulkan-1.dll".to_string()]
    );
}

#[test]
fn image_without_resolver_is_bootstrap_symbol_missing() {
    let mut fresh = state();
    fresh.exports_resolver = false;
    let driver = mock(fresh);
    assert_eq!(Entry::new(driver.clone()).err(), Some(Error::BootstrapSymbolMissing));
    assert!(driver.0.resolved.borrow().is_empty());
}

#[test]
fn resolve_of_unknown_symbol_is_symbol_not_found() {
    let driver = mock(state());
    let library = Library::load(driver.clone(), None).unwrap();
    for name in [&b"vkNoSuchFunction\0"[..], b"vkCreateDevice\0", b"x\0", b"\0"] {
        assert_eq!(library.resolve(0, name).err(), Some(Error::SymbolNotFound));
        assert_eq!(library.resolve(CONTEXT, name).err(), Some(Error::SymbolNotFound));
    }
}

#[test]
fn resolve_of_known_symbol_keeps_address_context_and_name() {
    let driver = mock(state());
    let library = Library::load(driver.clone(), None).unwrap();
    let function = library.resolve(CONTEXT, b"vkDestroyInstance\0").unwrap();
    assert_eq!(function.address(), address_of("vkDestroyInstance"));
    assert_ne!(function.address(), 0);
    assert_eq!(function.context(), CONTEXT);
    assert_eq!(function.name().as_slice(), b"vkDestroyInstance\0");
    assert_eq!(library.resolver().address(), 0xb007);
    assert_eq!(library.resolver().context(), 0);
}

#[test]
fn resolve_asks_the_resolver_for_the_name_that_is_only_its_terminator() {
    let driver = mock(state());
    let library = Library::load(driver.clone(), None).unwrap();
    assert_eq!(library.resolve(0, b"\0").err(), Some(Error::SymbolNotFound));
    assert_eq!(library.resolve(CONTEXT, b"\0").err(), Some(Error::SymbolNotFound));
    assert_eq!(
        *driver.0.resolved.borrow(),
        vec![(0usize, b"\0".to_vec()), (CONTEXT, b"\0".to_vec())]
    );

    let mut fresh = state();
    fresh.empty_name = 0x7777;
    let driver = mock(fresh);
    let library = Library::load(driver.clone(), None).unwrap();
    let function = library.resolve(CONTEXT, b"\0").unwrap();
    assert_eq!(function.address(), 0x7777);
    assert_eq!(function.context(), CONTEXT);
    assert_eq!(function.name().as_slice(), b"\0");
}

#[test]
fn resolve_refuses_malformed_name_without_asking() {
    let driver = mock(state());
    let library = Library::load(driver.clone(), None).unwrap();
    for name in [&b"vkCreateInstance"[..], b"", b"\0\0", b"vk\0Create\0", b"vkCreateInstance\0\0"] {
        assert_eq!(library.resolve(0, name).err(), Some(Error::MalformedName));
    }
    assert!(driver.0.resolved.borrow().is_empty());
}

#[test]
fn ask_hands_the_resolver_the_terminated_name() {
    let driver = mock(state());
    let library = Library::load(driver.clone(), None).unwrap();
    let address = library.ask(Symbol::GetPhysicalDeviceQueueFamilyProperties, CONTEXT);
    assert_eq!(address, address_of("vkGetPhysicalDeviceQueueFamilyProperties"));
    assert_eq!(
        *driver.0.resolved.borrow(),
        vec![(CONTEXT, b"vkGetPhysicalDeviceQueueFamilyProperties\0".to_vec())]
    );
}

#[test]
fn entry_fails_when_a_global_function_is_missing() {
    for name in [
        "vkCreateInstance",
        "vkEnumerateInstanceExtensionProperties",
        "vkEnumerateInstanceLayerProperties",
    ] {
        let fresh = state();
        fresh.unknown.borrow_mut().push(name);
        let driver = mock(fresh);
        assert_eq!(Entry::new(driver.clone()).err(), Some(Error::SymbolNotFound));
    }
}

#[test]
fn two_layers_and_one_extension_for_layer_a() {
    let driver = mock(state());
    let entry = entry_of(&driver);
    let layers = entry.enumerate_instance_layer_properties().unwrap();
    assert_eq!(layers.len(), 2);
    assert_eq!(layers[0].layer_name.as_bytes(), b"LayerA");
    assert_eq!(layers[1].layer_name.as_bytes(), b"LayerB");
    assert_eq!(layers[0].layer_name.to_text(), "LayerA");
    assert_eq!(layers[1].layer_name.to_text(), "LayerB");
    assert_eq!(layers[0], layer("LayerA", 1));
    assert_eq!(layers[1], layer("LayerB", 2));

    let extensions = entry.enumerate_instance_extension_properties(Some(b"LayerA")).unwrap();
    assert_eq!(extensions.len(), 1);
    assert_eq!(extensions[0].extension_name.as_bytes(), b"EXT_foo");
    assert_eq!(extensions[0].extension_name.to_text(), "EXT_foo");
    assert_eq!(extensions[0].spec_version, 3);
    assert_eq!(extensions[0], extension("EXT_foo", 3));
}

#[test]
fn extensions_of_a_layer_without_any_are_empty() {
    let driver = mock(state());
    let entry = entry_of(&driver);
    let extensions = entry.enumerate_instance_extension_properties(Some(b"LayerB")).unwrap();
    assert!(extensions.is_empty());
}

#[test]
fn absent_layer_name_is_handed_over_as_null() {
    let driver = mock(state());
    let entry = entry_of(&driver);
    let extensions = entry.enumerate_instance_extension_properties(None).unwrap();
    assert_eq!(extensions, vec![extension("EXT_base", 7)]);
    assert_eq!(*driver.0.extension_names.borrow(), vec![None, None]);
}

#[test]
fn layer_name_is_handed_over_with_its_terminator() {
    let driver = mock(state());
    let entry = entry_of(&driver);
    entry.enumerate_instance_extension_properties(Some(b"LayerA")).unwrap();
    let expected = Some(b"LayerA\0".to_vec());
    assert_eq!(*driver.0.extension_names.borrow(), vec![expected.clone(), expected]);
}

#[test]
fn empty_layer_name_is_not_the_absent_one() {
    let driver = mock(state());
    let entry = entry_of(&driver);
    let extensions = entry.enumerate_instance_extension_properties(Some(b"")).unwrap();
    assert!(extensions.is_empty());
    let expected = Some(b"\0".to_vec());
    assert_eq!(*driver.0.extension_names.borrow(), vec![expected.clone(), expected]);
}

#[test]
fn layer_name_with_zero_byte_is_refused() {
    let driver = mock(state());
    let entry = entry_of(&driver);
    assert_eq!(
        entry.enumerate_instance_extension_properties(Some(b"Layer\0A")).err(),
        Some(Error::MalformedName)
    );
    assert!(driver.0.extension_names.borrow().is_empty());
}

#[test]
fn stable_count_fills_storage_of_exactly_that_size() {
    let driver = mock(state());
    let entry = entry_of(&driver);
    let layers = entry.enumerate_instance_layer_properties().unwrap();
    assert_eq!(*driver.0.layer_calls.borrow(), vec![None, Some(2)]);
    assert_eq!(layers.len(), 2);
}

#[test]
fn incomplete_pass_is_retried_with_the_grown_count() {
    let fresh = state();
    fresh.grow_after_count.set(true);
    let driver = mock(fresh);
    let entry = entry_of(&driver);
    let layers = entry.enumerate_instance_layer_properties().unwrap();
    assert_eq!(*driver.0.layer_calls.borrow(), vec![None, Some(2), None, Some(3)]);
    assert_eq!(layers.len(), 3);
    assert_eq!(layers[2].layer_name.as_bytes(), b"LayerC");
}

#[test]
fn enumeration_gives_up_after_the_passes_allowed() {
    let mut fresh = state();
    fresh.always_incomplete = true;
    let driver = mock(fresh);
    let entry = entry_of(&driver);
    assert_eq!(entry.enumerate_instance_layer_properties().err(), Some(Error::Unstable));
    assert_eq!(driver.0.layer_calls.borrow().len(), 2 * MAX_PASSES as usize);
}

#[test]
fn native_refusal_is_passed_on_with_its_status() {
    let mut fresh = state();
    fresh.layer_status = -1;
    let driver = mock(fresh);
    let entry = entry_of(&driver);
    assert_eq!(
        entry.enumerate_instance_layer_properties().err(),
        Some(Error::Native(vk::Result::ErrorOutOfHostMemory))
    );
    assert_eq!(*driver.0.layer_calls.borrow(), vec![None]);
}

#[test]
fn informational_status_is_not_taken_for_success() {
    let mut fresh = state();
    fresh.layer_status = 1;
    let driver = mock(fresh);
    let entry = entry_of(&driver);
    assert_eq!(
        entry.enumerate_instance_layer_properties().err(),
        Some(Error::Native(vk::Result::NotReady))
    );
}

#[test]
fn number_that_is_no_status_is_reported_as_such() {
    let mut fresh = state();
    fresh.layer_status = 77;
    let driver = mock(fresh);
    let entry = entry_of(&driver);
    assert_eq!(entry.enumerate_instance_layer_properties().err(), Some(Error::UnknownStatus(77)));
}

#[test]
fn count_written_past_the_storage_is_cut_to_the_storage() {
    let mut fresh = state();
    fresh.overreport = true;
    let driver = mock(fresh);
    let entry = entry_of(&driver);
    let layers = entry.enumerate_instance_layer_properties().unwrap();
    assert_eq!(layers.len(), 2);
}

#[test]
fn create_instance_hands_over_the_minimal_descriptor() {
    let driver = mock(state());
    let entry = entry_of(&driver);
    let instance = entry.create_instance().unwrap();
    assert_eq!(instance.handle(), CONTEXT);
    assert!(!instance.is_destroyed());
    let descriptors = driver.0.descriptors.borrow();
    assert_eq!(descriptors.len(), 1);
    let info = descriptors[0];
    assert_eq!(info.s_type, vk::StructureType::InstanceCreateInfo);
    assert_eq!(info.p_next, 0);
    assert_eq!(info.flags.bits, 0);
    assert_eq!(info.p_application_info, 0);
    assert_eq!(info.enabled_layer_count, 0);
    assert_eq!(info.pp_enabled_layer_names, 0);
    assert_eq!(info.enabled_extension_count, 0);
    assert_eq!(info.pp_enabled_extension_names, 0);
}

#[test]
fn create_instance_resolves_under_the_new_context() {
    let driver = mock(state());
    let entry = entry_of(&driver);
    entry.create_instance().unwrap();
    let resolved = driver.0.resolved.borrow();
    assert_eq!(
        resolved[3..],
        [
            (CONTEXT, b"vkDestroyInstance\0".to_vec()),
            (CONTEXT, b"vkEnumeratePhysicalDevices\0".to_vec()),
            (CONTEXT, b"vkGetPhysicalDeviceFeatures\0".to_vec()),
            (CONTEXT, b"vkGetPhysicalDeviceProperties\0".to_vec()),
            (CONTEXT, b"vkGetPhysicalDeviceQueueFamilyProperties\0".to_vec()),
        ]
    );
    assert_eq!(driver.0.destroy_calls.get(), 0);
}

#[test]
fn creation_refused_is_context_creation_failed() {
    let mut fresh = state();
    fresh.create_status = -9;
    let driver = mock(fresh);
    let entry = entry_of(&driver);
    assert_eq!(
        entry.create_instance().err(),
        Some(Error::ContextCreationFailed(vk::Result::ErrorIncompatibleDriver))
    );
    assert_eq!(driver.0.resolved.borrow().len(), 3);
    assert_eq!(driver.0.destroy_calls.get(), 0);
}

#[test]
fn creation_with_informational_status_gives_no_context() {
    let mut fresh = state();
    fresh.create_status = 5;
    let driver = mock(fresh);
    let entry = entry_of(&driver);
    assert_eq!(
        entry.create_instance().err(),
        Some(Error::ContextCreationFailed(vk::Result::Incomplete))
    );
}

#[test]
fn creation_with_unknown_status_gives_no_context() {
    let mut fresh = state();
    fresh.create_status = -500;
    let driver = mock(fresh);
    let entry = entry_of(&driver);
    assert_eq!(entry.create_instance().err(), Some(Error::UnknownStatus(-500)));
}

#[test]
fn null_context_from_the_driver_gives_no_handle() {
    let mut fresh = state();
    fresh.created = 0;
    let driver = mock(fresh);
    let entry = entry_of(&driver);
    assert_eq!(entry.create_instance().err(), Some(Error::NullContext));
    assert_eq!(driver.0.resolved.borrow().len(), 3);
}

#[test]
fn missing_context_function_destroys_the_fresh_context() {
    for name in [
        "vkEnumeratePhysicalDevices",
        "vkGetPhysicalDeviceFeatures",
        "vkGetPhysicalDeviceProperties",
        "vkGetPhysicalDeviceQueueFamilyProperties",
    ] {
        let driver = mock(state());
        let entry = entry_of(&driver);
        driver.0.unknown.borrow_mut().push(name);
        assert_eq!(entry.create_instance().err(), Some(Error::SymbolNotFound));
        assert_eq!(driver.0.destroy_calls.get(), 1);
        assert_eq!(*driver.0.destroyed.borrow(), vec![CONTEXT]);
    }
}

#[test]
fn missing_teardown_function_leaves_nothing_to_destroy_with() {
    let driver = mock(state());
    let entry = entry_of(&driver);
    driver.0.unknown.borrow_mut().push("vkDestroyInstance");
    assert_eq!(entry.create_instance().err(), Some(Error::SymbolNotFound));
    assert_eq!(driver.0.destroy_calls.get(), 0);
}

#[test]
fn destroy_runs_the_native_teardown_once() {
    let driver = mock(state());
    let entry = entry_of(&driver);
    let mut instance = entry.create_instance().unwrap();
    assert!(instance.destroy_instance());
    assert!(instance.is_destroyed());
    assert!(!instance.destroy_instance());
    assert!(!instance.destroy_instance());
    assert!(instance.is_destroyed());
    assert_eq!(driver.0.destroy_calls.get(), 1);
    assert_eq!(*driver.0.destroyed.borrow(), vec![CONTEXT]);
    assert_eq!(instance.handle(), CONTEXT);
}

#[test]
fn no_devices_is_an_empty_sequence() {
    let mut fresh = state();
    fresh.devices = Vec::new();
    let driver = mock(fresh);
    let entry = entry_of(&driver);
    let instance = entry.create_instance().unwrap();
    assert_eq!(instance.enumerate_physical_devices(), Ok(Vec::new()));
    assert_eq!(driver.0.device_calls.get(), 2);
}

#[test]
fn devices_come_in_driver_order() {
    let driver = mock(state());
    let entry = entry_of(&driver);
    let instance = entry.create_instance().unwrap();
    assert_eq!(instance.enumerate_physical_devices(), Ok(vec![0x100, 0x200]));
    assert_eq!(instance.enumerate_physical_devices(), Ok(vec![0x100, 0x200]));
}

#[test]
fn features_and_properties_are_what_the_driver_wrote() {
    let driver = mock(state());
    let entry = entry_of(&driver);
    let instance = entry.create_instance().unwrap();
    let features = instance.get_physical_device_features(0x200);
    assert_eq!(features.geometry_shader, 1);
    assert_eq!(features.shader_int64, 1);
    assert_eq!(features.robust_buffer_access, 0);
    assert_eq!(instance.get_physical_device_features(0x100).shader_int64, 0);
    let properties = instance.get_physical_device_properties(0x100);
    assert_eq!(properties.device_id, 0x100);
    assert_eq!(properties.device_type, vk::PhysicalDeviceType::DiscreteGpu);
    assert_eq!(properties.device_name.as_bytes(), b"Mock GPU");
    assert_eq!(properties.pipeline_cache_uuid, [9u8; 16]);
    assert_eq!(properties.limit.max_image_dimension_2d, 16384);
    assert_eq!(f32::from_bits(properties.limit.max_sampler_anisotropy), 16.0);
}

#[test]
fn queue_families_are_counted_then_filled() {
    let driver = mock(state());
    let entry = entry_of(&driver);
    let instance = entry.create_instance().unwrap();
    let families = instance.get_physical_device_queue_family_properties(0x100);
    assert_eq!(families, vec![family(0x3, 16), family(0x4, 2), family(0x8, 1)]);
    assert_eq!(*driver.0.family_calls.borrow(), vec![None, Some(3)]);
}

#[test]
fn library_outlives_the_entry_while_a_context_holds_it() {
    let unmaps = Rc::new(Cell::new(0));
    let driver = mock(state());
    let image = Image { state: driver.0.clone(), unmaps: unmaps.clone() };
    let entry = Entry::new(driver).unwrap();
    let mut instance = entry.create_instance().unwrap();
    let second = entry.create_instance().unwrap();
    assert_eq!(Rc::strong_count(&image.state), 2);
    drop(entry);
    assert_eq!(Rc::strong_count(&image.state), 2);
    assert_eq!(instance.enumerate_physical_devices(), Ok(vec![0x100, 0x200]));
    drop(second);
    assert_eq!(Rc::strong_count(&image.state), 2);
    assert!(instance.destroy_instance());
    drop(instance);
    assert_eq!(Rc::strong_count(&image.state), 1);
    drop(image);
    assert_eq!(unmaps.get(), 1);
}

#[test]
fn each_context_resolves_its_own_functions() {
    let driver = mock(state());
    let entry = entry_of(&driver);
    let _first = entry.create_instance().unwrap();
    let _second = entry.create_instance().unwrap();
    assert_eq!(driver.0.resolved.borrow().len(), 3 + 5 + 5);
}
