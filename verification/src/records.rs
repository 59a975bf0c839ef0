//! Plain-value mirror of the driver's fixed-layout records. Addresses are held
//! as `usize` (zero is null), fixed buffers as byte arrays, and fractional
//! limits as their IEEE-754 single-precision bit patterns.

use vstd::prelude::*;
use crate::flags::{InstanceCreateFlags, QueueFlags, SampleCountFlags};
use crate::text::{
    lossy_utf8, read_string, read_text, store_text, storable, text_of, NAME_CAPACITY,
};
use crate::vk::{Bool32, DeviceSize, PhysicalDeviceType, StructureType};

verus! {

/// Bit pattern of an IEEE-754 single-precision number.
pub type FloatBits = u32;

/// Length in bytes of a pipeline-cache identifier.
pub const UUID_SIZE: usize = 16;

/// Extent of a three-dimensional region.
#[derive(Clone, Copy, Debug, Default, PartialEq, Eq)]
pub struct Extend3D {
    pub width: u32,
    pub height: u32,
    pub depth: u32,
}

/// Name of a layer, in a fixed buffer.
#[derive(Clone, Copy, Debug, PartialEq, Eq)]
pub struct LayerNameType(pub [u8; 256]);

impl LayerNameType {
    /// The text held: the bytes before the first zero byte, or all of them.
    pub open spec fn text(&self) -> Seq<u8> {
        text_of(self.0@)
    }

    /// Reads the text without looking past the end of the buffer.
    pub fn as_bytes(&self) -> (bytes: Vec<u8>)
        ensures
            bytes@ == self.text(),
            bytes@.len() <= NAME_CAPACITY,
            storable(bytes@),
    {
        read_text(self.0.as_slice())
    }

    /// The text as a string; bytes that are no UTF-8 come out as the
    /// replacement character.
    pub fn to_text(&self) -> (text: String)
        ensures
            text@ == lossy_utf8(self.text()),
    {
        read_string(self.0.as_slice())
    }

    /// Stores a text, or refuses one that is too long or holds a zero byte.
    pub fn from_bytes(text: &[u8]) -> (stored: Option<LayerNameType>)
        ensures
            stored.is_some() == (storable(text@) && text@.len() <= NAME_CAPACITY),
            stored matches Some(name) ==> name.text() == text@,
    {
        match store_text(text) {
            Some(buffer) => Some(LayerNameType(buffer)),
            None => None,
        }
    }
}

/// Description of a layer, in a fixed buffer.
#[derive(Clone, Copy, Debug, PartialEq, Eq)]
pub struct DescriptionType(pub [u8; 256]);

impl DescriptionType {
    /// The text held: the bytes before the first zero byte, or all of them.
    pub open spec fn text(&self) -> Seq<u8> {
        text_of(self.0@)
    }

    /// Reads the text without looking past the end of the buffer.
    pub fn as_bytes(&self) -> (bytes: Vec<u8>)
        ensures
            bytes@ == self.text(),
            bytes@.len() <= NAME_CAPACITY,
            storable(bytes@),
    {
        read_text(self.0.as_slice())
    }

    /// The text as a string; bytes that are no UTF-8 come out as the
    /// replacement character.
    pub fn to_text(&self) -> (text: String)
        ensures
            text@ == lossy_utf8(self.text()),
    {
        read_string(self.0.as_slice())
    }

    /// Stores a text, or refuses one that is too long or holds a zero byte.
    pub fn from_bytes(text: &[u8]) -> (stored: Option<DescriptionType>)
        ensures
            stored.is_some() == (storable(text@) && text@.len() <= NAME_CAPACITY),
            stored matches Some(name) ==> name.text() == text@,
    {
        match store_text(text) {
            Some(buffer) => Some(DescriptionType(buffer)),
            None => None,
        }
    }
}

/// Name of an extension, in a fixed buffer.
#[derive(Clone, Copy, Debug, PartialEq, Eq)]
pub struct ExtensionNameType(pub [u8; 256]);

impl ExtensionNameType {
    /// The text held: the bytes before the first zero byte, or all of them.
    pub open spec fn text(&self) -> Seq<u8> {
        text_of(self.0@)
    }

    /// Reads the text without looking past the end of the buffer.
    pub fn as_bytes(&self) -> (bytes: Vec<u8>)
        ensures
            bytes@ == self.text(),
            bytes@.len() <= NAME_CAPACITY,
            storable(bytes@),
    {
        read_text(self.0.as_slice())
    }

    /// The text as a string; bytes that are no UTF-8 come out as the
    /// replacement character.
    pub fn to_text(&self) -> (text: String)
        ensures
            text@ == lossy_utf8(self.text()),
    {
        read_string(self.0.as_slice())
    }

    /// Stores a text, or refuses one that is too long or holds a zero byte.
    pub fn from_bytes(text: &[u8]) -> (stored: Option<ExtensionNameType>)
        ensures
            stored.is_some() == (storable(text@) && text@.len() <= NAME_CAPACITY),
            stored matches Some(name) ==> name.text() == text@,
    {
        match store_text(text) {
            Some(buffer) => Some(ExtensionNameType(buffer)),
            None => None,
        }
    }
}

/// Name of a physical device, in a fixed buffer.
#[derive(Clone, Copy, Debug, PartialEq, Eq)]
pub struct DeviceNameType(pub [u8; 256]);

impl DeviceNameType {
    /// The text held: the bytes before the first zero byte, or all of them.
    pub open spec fn text(&self) -> Seq<u8> {
        text_of(self.0@)
    }

    /// Reads the text without looking past the end of the buffer.
    pub fn as_bytes(&self) -> (bytes: Vec<u8>)
        ensures
            bytes@ == self.text(),
            bytes@.len() <= NAME_CAPACITY,
            storable(bytes@),
    {
        read_text(self.0.as_slice())
    }

    /// The text as a string; bytes that are no UTF-8 come out as the
    /// replacement character.
    pub fn to_text(&self) -> (text: String)
        ensures
            text@ == lossy_utf8(self.text()),
    {
        read_string(self.0.as_slice())
    }

    /// Stores a text, or refuses one that is too long or holds a zero byte.
    pub fn from_bytes(text: &[u8]) -> (stored: Option<DeviceNameType>)
        ensures
            stored.is_some() == (storable(text@) && text@.len() <= NAME_CAPACITY),
            stored matches Some(name) ==> name.text() == text@,
    {
        match store_text(text) {
            Some(buffer) => Some(DeviceNameType(buffer)),
            None => None,
        }
    }
}

/// What the driver reports of one layer.
#[derive(Clone, Copy, Debug, PartialEq, Eq)]
pub struct LayerProperties {
    pub layer_name: LayerNameType,
    pub spec_version: u32,
    pub implementation_version: u32,
    pub description: DescriptionType,
}

/// What the driver reports of one extension.
#[derive(Clone, Copy, Debug, PartialEq, Eq)]
pub struct ExtensionProperties {
    pub extension_name: ExtensionNameType,
    pub spec_version: u32,
}

/// Addresses of the host allocation callbacks.
#[derive(Clone, Copy, Debug, PartialEq, Eq)]
pub struct AllocationCallbacks {
    pub p_user_data: usize,
    pub pfn_allocation: usize,
    pub pfn_reallocation: usize,
    pub pfn_free: usize,
    pub pfn_internal_allocation: usize,
    pub pfn_internal_free: usize,
}

/// What an application tells the driver of itself.
#[derive(Clone, Copy, Debug, PartialEq, Eq)]
pub struct ApplicationInfo {
    pub s_type: StructureType,
    pub p_next: usize,
    pub p_application_name: usize,
    pub application_version: u32,
    pub p_engine_name: usize,
    pub engine_version: u32,
    pub api_version: u32,
}

/// Descriptor handed to the driver to create a context.
#[derive(Clone, Copy, Debug, PartialEq, Eq)]
pub struct InstanceCreateInfo {
    pub s_type: StructureType,
    pub p_next: usize,
    pub flags: InstanceCreateFlags,
    pub p_application_info: usize,
    pub enabled_layer_count: u32,
    pub pp_enabled_layer_names: usize,
    pub enabled_extension_count: u32,
    pub pp_enabled_extension_names: usize,
}

impl InstanceCreateInfo {
    /// The descriptor that asks for nothing: no application metadata, no
    /// layer and no extension enabled, every address null.
    pub open spec fn minimal_spec() -> InstanceCreateInfo {
        InstanceCreateInfo {
            s_type: StructureType::InstanceCreateInfo,
            p_next: 0,
            flags: InstanceCreateFlags { bits: 0 },
            p_application_info: 0,
            enabled_layer_count: 0,
            pp_enabled_layer_names: 0,
            enabled_extension_count: 0,
            pp_enabled_extension_names: 0,
        }
    }

    pub fn minimal() -> (info: InstanceCreateInfo)
        ensures
            info == InstanceCreateInfo::minimal_spec(),
    {
        InstanceCreateInfo {
            s_type: StructureType::InstanceCreateInfo,
            p_next: 0,
            flags: InstanceCreateFlags::empty(),
            p_application_info: 0,
            enabled_layer_count: 0,
            pp_enabled_layer_names: 0,
            enabled_extension_count: 0,
            pp_enabled_extension_names: 0,
        }
    }
}

/// Feature switches of a physical device.
#[derive(Clone, Copy, Debug, Default, PartialEq, Eq)]
pub struct PhysicalDeviceFeatures {
    pub robust_buffer_access: Bool32,
    pub full_draw_index_uint32: Bool32,
    pub image_cube_array: Bool32,
    pub independent_blend: Bool32,
    pub geometry_shader: Bool32,
    pub tessellation_shader: Bool32,
    pub sample_rate_shading: Bool32,
    pub dual_src_blend: Bool32,
    pub logic_op: Bool32,
    pub multi_draw_indirect: Bool32,
    pub draw_indirect_first_instance: Bool32,
    pub depth_clamp: Bool32,
    pub depth_bias_clamp: Bool32,
    pub fill_mode_non_solid: Bool32,
    pub depth_bounds: Bool32,
    pub wide_lines: Bool32,
    pub large_points: Bool32,
    pub alpha_to_one: Bool32,
    pub multi_viewport: Bool32,
    pub sampler_anisotropy: Bool32,
    pub texture_compression_etc2: Bool32,
    pub texture_compression_astc_ldr: Bool32,
    pub texture_compression_bc: Bool32,
    pub occlusion_query_precise: Bool32,
    pub pipeline_statistics_query: Bool32,
    pub vertex_pipeline_stores_and_atomics: Bool32,
    pub fragment_stores_and_atomics: Bool32,
    pub shader_tessellation_and_geometry_point_size: Bool32,
    pub shader_image_gather_extended: Bool32,
    pub shader_storage_image_extended_formats: Bool32,
    pub shader_storage_image_multisample: Bool32,
    pub shader_storage_image_read_without_format: Bool32,
    pub shader_storage_image_write_without_format: Bool32,
    pub shader_uniform_buffer_array_dynamic_indexing: Bool32,
    pub shader_sampled_image_array_dynamic_indexing: Bool32,
    pub shader_storage_buffer_array_dynamic_indexing: Bool32,
    pub shader_storage_image_array_dynamic_index: Bool32,
    pub shader_clip_distance: Bool32,
    pub shader_cull_distance: Bool32,
    pub shader_float64: Bool32,
    pub shader_int64: Bool32,
    pub shader_int16: Bool32,
    pub shader_resource_residency: Bool32,
    pub shader_resource_min_load: Bool32,
    pub sparse_binding: Bool32,
    pub sparse_residency_buffer: Bool32,
    pub sparse_residency_image_2d: Bool32,
    pub sparse_residency_image_3d: Bool32,
    pub sparse_residency_2_samples: Bool32,
    pub sparse_residency_4_samples: Bool32,
    pub sparse_residency_8_samples: Bool32,
    pub sparse_residency_16_samples: Bool32,
    pub sparse_residency_aliased: Bool32,
    pub variable_multisample_rate: Bool32,
    pub inherited_queries: Bool32,
}

/// What the driver reports of one physical device.
#[derive(Clone, Copy, Debug, PartialEq, Eq)]
pub struct PhysicalDeviceProperties {
    pub api_version: u32,
    pub driver_version: u32,
    pub vendor_id: u32,
    pub device_id: u32,
    pub device_type: PhysicalDeviceType,
    pub device_name: DeviceNameType,
    pub pipeline_cache_uuid: [u8; UUID_SIZE],
    pub limit: PhysicalDeviceLimits,
    pub sparse_properties: PhysicalDeviceSparseProperties,
}

/// Limits of a physical device.
#[derive(Clone, Copy, Debug, Default, PartialEq, Eq)]
pub struct PhysicalDeviceLimits {
    pub max_image_dimension_1d: u32,
    pub max_image_dimension_2d: u32,
    pub max_image_dimension_3d: u32,
    pub max_image_dimension_cube: u32,
    pub max_image_array_layers: u32,
    pub max_texel_buffer_elements: u32,
    pub max_uniform_buffer_range: u32,
    pub max_storage_buffer_range: u32,
    pub max_push_constants_size: u32,
    pub max_memory_allocation_count: u32,
    pub max_sampler_allocation_count: u32,
    pub buffer_image_granularity: DeviceSize,
    pub sparse_address_space_size: DeviceSize,
    pub max_bound_descriptor_sets: u32,
    pub max_per_stage_descriptor_samplers: u32,
    pub max_per_stage_descriptor_uniform_buffers: u32,
    pub max_per_stage_descriptor_storage_buffers: u32,
    pub max_per_stage_descriptor_sampled_images: u32,
    pub max_per_stage_descriptor_storage_images: u32,
    pub max_per_stage_descriptor_input_attachments: u32,
    pub max_per_stage_resources: u32,
    pub max_descriptor_set_samplers: u32,
    pub max_descriptor_set_uniform_buffers: u32,
    pub max_descriptor_set_uniform_buffers_dynamic: u32,
    pub max_descriptor_set_storage_buffers: u32,
    pub max_descriptor_set_storage_buffers_dynamic: u32,
    pub max_descriptor_set_sampled_images: u32,
    pub max_descriptor_set_storage_images: u32,
    pub max_descriptor_set_input_attachments: u32,
    pub max_vertex_input_attributes: u32,
    pub max_vertex_input_bindings: u32,
    pub max_vertex_input_attribute_offset: u32,
    pub max_vertex_input_binding_stride: u32,
    pub max_vertext_output_components: u32,
    pub max_tessellation_generation_level: u32,
    pub max_tessellation_patch_size: u32,
    pub max_tessellation_control_per_vertex_input_components: u32,
    pub max_tessellation_control_per_vertex_output_components: u32,
    pub max_tessellation_control_per_patch_output_components: u32,
    pub max_tessellation_control_total_output_components: u32,
    pub max_tessellation_evaluation_input_components: u32,
    pub max_tessellation_evaluation_output_components: u32,
    pub max_geometry_shader_invocations: u32,
    pub max_geometry_input_components: u32,
    pub max_geometry_output_components: u32,
    pub max_geometry_output_vertices: u32,
    pub max_geometry_total_output_components: u32,
    pub max_fragment_input_components: u32,
    pub max_fragment_output_attachments: u32,
    pub max_fragment_dual_src_attachments: u32,
    pub max_fragment_combined_output_resources: u32,
    pub max_compute_shared_memory_size: u32,
    pub max_compute_work_group_count: [u32; 3],
    pub max_compute_work_group_invocations: u32,
    pub max_compute_work_group_size: [u32; 3],
    pub sub_pixel_precision_bits: u32,
    pub sub_texel_precision_bits: u32,
    pub mipmap_precision_bits: u32,
    pub max_draw_indexed_index_value: u32,
    pub max_draw_indirect_count: u32,
    pub max_sampler_lod_bias: FloatBits,
    pub max_sampler_anisotropy: FloatBits,
    pub max_viewports: u32,
    pub max_viewport_dimensions: [u32; 2],
    pub viewport_bounds_range: [FloatBits; 2],
    pub viewport_sub_pixel_bits: u32,
    pub min_memory_map_alignment: usize,
    pub min_texel_buffer_offset_alignment: DeviceSize,
    pub min_uniform_buffer_offset_alignment: DeviceSize,
    pub min_storage_buffer_offset_alignment: DeviceSize,
    pub min_texel_offset: i32,
    pub max_texel_offset: u32,
    pub min_texel_gather_offset: i32,
    pub max_texel_gather_offset: u32,
    pub min_interpolation_offset: FloatBits,
    pub max_interpolation_offset: FloatBits,
    pub sub_pixel_interpolation_offset_bits: u32,
    pub max_framebuffer_width: u32,
    pub max_framebuffer_height: u32,
    pub max_framebuffer_layers: u32,
    pub framebuffer_color_sample_counts: SampleCountFlags,
    pub framebuffer_depth_sample_counts: SampleCountFlags,
    pub framebuffer_stencil_sample_counts: SampleCountFlags,
    pub framebuffer_no_attachments_sample_counts: SampleCountFlags,
    pub max_color_attachments: u32,
    pub sampled_image_color_sample_counts: SampleCountFlags,
    pub sampled_image_integer_sample_counts: SampleCountFlags,
    pub sampled_image_depth_sample_counts: SampleCountFlags,
    pub sampled_image_stencil_sample_counts: SampleCountFlags,
    pub storage_image_sample_counts: SampleCountFlags,
    pub max_sample_mask_words: u32,
    pub timestamp_compute_and_graphics: Bool32,
    pub timestamp_period: FloatBits,
    pub max_clip_distances: u32,
    pub max_cull_distances: u32,
    pub max_comined_clip_and_cull_distances: u32,
    pub discrete_queue_properties: u32,
    pub point_size_range: [FloatBits; 2],
    pub line_width_range: [FloatBits; 2],
    pub point_size_granularity: FloatBits,
    pub line_width_granularity: FloatBits,
    pub strict_lines: Bool32,
    pub standard_sample_locations: Bool32,
    pub optimal_buffer_copy_offset_alignment: DeviceSize,
    pub optimal_buffer_copy_row_pitch_alignment: DeviceSize,
    pub non_coherent_atom_size: DeviceSize,
}

/// Sparse-memory properties of a physical device.
#[derive(Clone, Copy, Debug, Default, PartialEq, Eq)]
pub struct PhysicalDeviceSparseProperties {
    pub residency_standard_2d_block_shape: Bool32,
    pub residency_standard_2d_multisample_block_shape: Bool32,
    pub residency_standard_3d_block_shape: Bool32,
    pub residency_aligned_mip_size: Bool32,
    pub residency_non_resident_strict: Bool32,
}

/// What the driver reports of one queue family.
#[derive(Clone, Copy, Debug, Default, PartialEq, Eq)]
pub struct QueueFamilyProperties {
    pub queue_flags: QueueFlags,
    pub queue_count: u32,
    pub timestamp_valid_bits: u32,
    pub min_image_transfer_granularity: Extend3D,
}

} // verus!
