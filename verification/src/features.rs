use crate::d3d12::{
    D3D12_FEATURE_ARCHITECTURE1, D3D12_FEATURE_COMMAND_QUEUE_PRIORITY, D3D12_FEATURE_CROSS_NODE,
    D3D12_FEATURE_D3D12_OPTIONS, D3D12_FEATURE_D3D12_OPTIONS1, D3D12_FEATURE_D3D12_OPTIONS10,
    D3D12_FEATURE_D3D12_OPTIONS11, D3D12_FEATURE_D3D12_OPTIONS12, D3D12_FEATURE_D3D12_OPTIONS13,
    D3D12_FEATURE_D3D12_OPTIONS2, D3D12_FEATURE_D3D12_OPTIONS3, D3D12_FEATURE_D3D12_OPTIONS4,
    D3D12_FEATURE_D3D12_OPTIONS5, D3D12_FEATURE_D3D12_OPTIONS6, D3D12_FEATURE_D3D12_OPTIONS7,
    D3D12_FEATURE_D3D12_OPTIONS8, D3D12_FEATURE_D3D12_OPTIONS9, D3D12_FEATURE_DISPLAYABLE,
    D3D12_FEATURE_EXISTING_HEAPS, D3D12_FEATURE_FEATURE_LEVELS, D3D12_FEATURE_FORMAT_INFO,
    D3D12_FEATURE_FORMAT_SUPPORT, D3D12_FEATURE_GPU_VIRTUAL_ADDRESS_SUPPORT,
    D3D12_FEATURE_MULTISAMPLE_QUALITY_LEVELS, D3D12_FEATURE_PROTECTED_RESOURCE_SESSION_SUPPORT,
    D3D12_FEATURE_PROTECTED_RESOURCE_SESSION_TYPES,
    D3D12_FEATURE_PROTECTED_RESOURCE_SESSION_TYPE_COUNT, D3D12_FEATURE_ROOT_SIGNATURE,
    D3D12_FEATURE_SERIALIZATION, D3D12_FEATURE_SHADER_CACHE, D3D12_FEATURE_SHADER_MODEL,
    D3D_ROOT_SIGNATURE_VERSION_1_1, D3D_SHADER_MODEL_6_7,
};
use crate::utility::Error;
use vstd::prelude::*;

verus! {

/// A capability of the device that is asked for without an input.
///
/// The native layer is handed the identifier of the capability and the data
/// that `query` gives, and fills in the data; `check` reads the answer from it.
pub trait Feature: Sized {
    /// The identifier of the capability.
    const FEATURE: i32;

    /// The data that the native layer fills in.
    type Data;

    /// The data that the native layer is handed.
    spec fn asks() -> Self::Data;

    /// The answer that the data holds.
    spec fn reads(data: Self::Data) -> Self;

    fn query() -> (data: Self::Data)
        ensures
            data == Self::asks(),
    ;

    fn check(queried: Result<Self::Data, Error>) -> (r: Result<Self, Error>)
        ensures
            r == answer(queried, |data: Self::Data| Self::reads(data)),
    ;
}

/// A capability of the device that is asked for with an input, which the value
/// carries when it is handed in.
pub trait RequestFeature: Sized {
    /// The identifier of the capability.
    const FEATURE: i32;

    /// The data that the native layer fills in.
    type Data;

    /// The data that the native layer is handed for the input.
    spec fn asks(&self) -> Self::Data;

    /// The answer that the data holds for the input.
    spec fn reads(self, data: Self::Data) -> Self;

    fn query(&self) -> (data: Self::Data)
        ensures
            data == self.asks(),
    ;

    fn check(self, queried: Result<Self::Data, Error>) -> (r: Result<Self, Error>)
        ensures
            r == answer(queried, |data: Self::Data| self.reads(data)),
    ;
}

/// The answer to a query: what is read from the data, or the error of the query.
pub open spec fn answer<D, T>(queried: Result<D, Error>, reads: spec_fn(D) -> T) -> Result<
    T,
    Error,
> {
    match queried {
        Ok(data) => Ok(reads(data)),
        Err(e) => Err(e),
    }
}

/// The data of the query for `D3D12Options`, as the native layer fills it in.
/// A truth value is a number, 0 for false.
#[derive(Clone, Copy, PartialEq, Eq, Structural, Debug)]
pub struct D3D12OptionsData {
    pub double_precision_float_shader_ops: i32,
    pub output_merger_logic_op: i32,
    pub min_precision_support: i32,
    pub tiled_resources_tier: i32,
    pub resource_binding_tier: i32,
    pub ps_specified_stencil_ref_supported: i32,
    pub typed_uav_load_additional_formats: i32,
    pub rovs_supported: i32,
    pub conservative_rasterization_tier: i32,
    pub max_gpu_virtual_address_bits_per_resource: u32,
    pub standard_swizzle_64kb_supported: i32,
    pub cross_node_sharing_tier: i32,
    pub cross_adapter_row_major_texture_supported: i32,
    pub vp_and_rt_array_index_from_any_shader_feeding_rasterizer_supported_without_gs_emulation: i32,
    pub resource_heap_tier: i32,
}

#[derive(Clone, Copy, PartialEq, Eq, Structural, Debug)]
pub struct D3D12Options {
    pub double_precision_float_shader_ops: bool,
    pub output_merger_logic_op: bool,
    pub min_precision_support: i32,
    pub tiled_resources_tier: i32,
    pub resource_binding_tier: i32,
    pub ps_specified_stencil_ref_supported: bool,
    pub typed_uav_load_additional_formats: bool,
    pub rovs_supported: bool,
    pub conservative_rasterization_tier: i32,
    pub max_gpu_virtual_address_bits_per_resource: u32,
    pub standard_swizzle_64kb_supported: bool,
    pub cross_node_sharing_tier: i32,
    pub cross_adapter_row_major_texture_supported: bool,
    pub vp_and_rt_array_index_from_any_shader_feeding_rasterizer_supported_without_gs_emulation: bool,
    pub resource_heap_tier: i32,
}

impl Feature for D3D12Options {
    const FEATURE: i32 = D3D12_FEATURE_D3D12_OPTIONS;

    type Data = D3D12OptionsData;

    open spec fn asks() -> D3D12OptionsData {
        D3D12OptionsData {
            double_precision_float_shader_ops: 0,
            output_merger_logic_op: 0,
            min_precision_support: 0,
            tiled_resources_tier: 0,
            resource_binding_tier: 0,
            ps_specified_stencil_ref_supported: 0,
            typed_uav_load_additional_formats: 0,
            rovs_supported: 0,
            conservative_rasterization_tier: 0,
            max_gpu_virtual_address_bits_per_resource: 0,
            standard_swizzle_64kb_supported: 0,
            cross_node_sharing_tier: 0,
            cross_adapter_row_major_texture_supported: 0,
            vp_and_rt_array_index_from_any_shader_feeding_rasterizer_supported_without_gs_emulation:
                0,
            resource_heap_tier: 0,
        }
    }

    open spec fn reads(data: D3D12OptionsData) -> Self {
        D3D12Options {
            double_precision_float_shader_ops: data.double_precision_float_shader_ops != 0,
            output_merger_logic_op: data.output_merger_logic_op != 0,
            min_precision_support: data.min_precision_support,
            tiled_resources_tier: data.tiled_resources_tier,
            resource_binding_tier: data.resource_binding_tier,
            ps_specified_stencil_ref_supported: data.ps_specified_stencil_ref_supported != 0,
            typed_uav_load_additional_formats: data.typed_uav_load_additional_formats != 0,
            rovs_supported: data.rovs_supported != 0,
            conservative_rasterization_tier: data.conservative_rasterization_tier,
            max_gpu_virtual_address_bits_per_resource:
                data.max_gpu_virtual_address_bits_per_resource,
            standard_swizzle_64kb_supported: data.standard_swizzle_64kb_supported != 0,
            cross_node_sharing_tier: data.cross_node_sharing_tier,
            cross_adapter_row_major_texture_supported:
                data.cross_adapter_row_major_texture_supported != 0,
            vp_and_rt_array_index_from_any_shader_feeding_rasterizer_supported_without_gs_emulation:
                data.vp_and_rt_array_index_from_any_shader_feeding_rasterizer_supported_without_gs_emulation != 0,
            resource_heap_tier: data.resource_heap_tier,
        }
    }

    fn query() -> (data: D3D12OptionsData) {
        D3D12OptionsData {
            double_precision_float_shader_ops: 0,
            output_merger_logic_op: 0,
            min_precision_support: 0,
            tiled_resources_tier: 0,
            resource_binding_tier: 0,
            ps_specified_stencil_ref_supported: 0,
            typed_uav_load_additional_formats: 0,
            rovs_supported: 0,
            conservative_rasterization_tier: 0,
            max_gpu_virtual_address_bits_per_resource: 0,
            standard_swizzle_64kb_supported: 0,
            cross_node_sharing_tier: 0,
            cross_adapter_row_major_texture_supported: 0,
            vp_and_rt_array_index_from_any_shader_feeding_rasterizer_supported_without_gs_emulation:
                0,
            resource_heap_tier: 0,
        }
    }

    fn check(queried: Result<D3D12OptionsData, Error>) -> (r: Result<Self, Error>) {
        match queried {
            Ok(data) => Ok(
                D3D12Options {
                    double_precision_float_shader_ops: data.double_precision_float_shader_ops != 0,
                    output_merger_logic_op: data.output_merger_logic_op != 0,
                    min_precision_support: data.min_precision_support,
                    tiled_resources_tier: data.tiled_resources_tier,
                    resource_binding_tier: data.resource_binding_tier,
                    ps_specified_stencil_ref_supported:
                        data.ps_specified_stencil_ref_supported != 0,
                    typed_uav_load_additional_formats: data.typed_uav_load_additional_formats != 0,
                    rovs_supported: data.rovs_supported != 0,
                    conservative_rasterization_tier: data.conservative_rasterization_tier,
                    max_gpu_virtual_address_bits_per_resource:
                        data.max_gpu_virtual_address_bits_per_resource,
                    standard_swizzle_64kb_supported: data.standard_swizzle_64kb_supported != 0,
                    cross_node_sharing_tier: data.cross_node_sharing_tier,
                    cross_adapter_row_major_texture_supported:
                        data.cross_adapter_row_major_texture_supported != 0,
                    vp_and_rt_array_index_from_any_shader_feeding_rasterizer_supported_without_gs_emulation:
                        data.vp_and_rt_array_index_from_any_shader_feeding_rasterizer_supported_without_gs_emulation != 0,
                    resource_heap_tier: data.resource_heap_tier,
                },
            ),
            Err(e) => Err(e),
        }
    }
}

/// The data of the query for `Architecture`, as the native layer fills it in.
/// A truth value is a number, 0 for false.
#[derive(Clone, Copy, PartialEq, Eq, Structural, Debug)]
pub struct ArchitectureData {
    pub node_index: u32,
    pub tile_based_renderer: i32,
    pub uma: i32,
    pub cache_coherent_uma: i32,
    pub isolate_mmu: i32,
}

#[derive(Clone, Copy, PartialEq, Eq, Structural, Debug)]
pub struct Architecture {
    pub node_index: u32,
    pub tile_based_renderer: bool,
    pub uma: bool,
    pub cache_coherent_uma: bool,
    pub isolate_mmu: bool,
}

impl Architecture {
    pub fn new(node_index: u32) -> (r: Self)
        ensures
            r.node_index == node_index,
            r.tile_based_renderer == false,
            r.uma == false,
            r.cache_coherent_uma == false,
            r.isolate_mmu == false,
    {
        Architecture {
            node_index,
            tile_based_renderer: false,
            uma: false,
            cache_coherent_uma: false,
            isolate_mmu: false,
        }
    }
}

impl RequestFeature for Architecture {
    const FEATURE: i32 = D3D12_FEATURE_ARCHITECTURE1;

    type Data = ArchitectureData;

    open spec fn asks(&self) -> ArchitectureData {
        ArchitectureData {
            node_index: self.node_index,
            tile_based_renderer: 0,
            uma: 0,
            cache_coherent_uma: 0,
            isolate_mmu: 0,
        }
    }

    open spec fn reads(self, data: ArchitectureData) -> Self {
        Architecture {
            node_index: data.node_index,
            tile_based_renderer: data.tile_based_renderer != 0,
            uma: data.uma != 0,
            cache_coherent_uma: data.cache_coherent_uma != 0,
            isolate_mmu: data.isolate_mmu != 0,
        }
    }

    fn query(&self) -> (data: ArchitectureData) {
        ArchitectureData {
            node_index: self.node_index,
            tile_based_renderer: 0,
            uma: 0,
            cache_coherent_uma: 0,
            isolate_mmu: 0,
        }
    }

    fn check(self, queried: Result<ArchitectureData, Error>) -> (r: Result<Self, Error>) {
        match queried {
            Ok(data) => Ok(
                Architecture {
                    node_index: data.node_index,
                    tile_based_renderer: data.tile_based_renderer != 0,
                    uma: data.uma != 0,
                    cache_coherent_uma: data.cache_coherent_uma != 0,
                    isolate_mmu: data.isolate_mmu != 0,
                },
            ),
            Err(e) => Err(e),
        }
    }
}

/// The data of the query for `FormatSupport`, as the native layer fills it in.
#[derive(Clone, Copy, PartialEq, Eq, Structural, Debug)]
pub struct FormatSupportData {
    pub format: i32,
    pub support1: i32,
    pub support2: i32,
}

#[derive(Clone, Copy, PartialEq, Eq, Structural, Debug)]
pub struct FormatSupport {
    pub format: i32,
    pub support1: i32,
    pub support2: i32,
}

impl FormatSupport {
    pub fn new(format: i32) -> (r: Self)
        ensures
            r.format == format,
            r.support1 == 0,
            r.support2 == 0,
    {
        FormatSupport { format, support1: 0, support2: 0 }
    }
}

impl RequestFeature for FormatSupport {
    const FEATURE: i32 = D3D12_FEATURE_FORMAT_SUPPORT;

    type Data = FormatSupportData;

    open spec fn asks(&self) -> FormatSupportData {
        FormatSupportData { format: self.format, support1: 0, support2: 0 }
    }

    open spec fn reads(self, data: FormatSupportData) -> Self {
        FormatSupport { format: data.format, support1: data.support1, support2: data.support2 }
    }

    fn query(&self) -> (data: FormatSupportData) {
        FormatSupportData { format: self.format, support1: 0, support2: 0 }
    }

    fn check(self, queried: Result<FormatSupportData, Error>) -> (r: Result<Self, Error>) {
        match queried {
            Ok(data) => Ok(
                FormatSupport {
                    format: data.format,
                    support1: data.support1,
                    support2: data.support2,
                },
            ),
            Err(e) => Err(e),
        }
    }
}

/// The data of the query for `MultisampleQualityLevels`, as the native layer fills it in.
#[derive(Clone, Copy, PartialEq, Eq, Structural, Debug)]
pub struct MultisampleQualityLevelsData {
    pub format: i32,
    pub sample_count: u32,
    pub flags: i32,
    pub num_quality_levels: u32,
}

#[derive(Clone, Copy, PartialEq, Eq, Structural, Debug)]
pub struct MultisampleQualityLevels {
    pub format: i32,
    pub sample_count: u32,
    pub flags: i32,
    pub num_quality_levels: u32,
}

impl MultisampleQualityLevels {
    pub fn new(format: i32, sample_count: u32) -> (r: Self)
        ensures
            r.format == format,
            r.sample_count == sample_count,
            r.flags == 0,
            r.num_quality_levels == 0,
    {
        MultisampleQualityLevels { format, sample_count, flags: 0, num_quality_levels: 0 }
    }
}

impl RequestFeature for MultisampleQualityLevels {
    const FEATURE: i32 = D3D12_FEATURE_MULTISAMPLE_QUALITY_LEVELS;

    type Data = MultisampleQualityLevelsData;

    open spec fn asks(&self) -> MultisampleQualityLevelsData {
        MultisampleQualityLevelsData {
            format: self.format,
            sample_count: self.sample_count,
            flags: 0,
            num_quality_levels: 0,
        }
    }

    open spec fn reads(self, data: MultisampleQualityLevelsData) -> Self {
        MultisampleQualityLevels {
            format: data.format,
            sample_count: data.sample_count,
            flags: data.flags,
            num_quality_levels: data.num_quality_levels,
        }
    }

    fn query(&self) -> (data: MultisampleQualityLevelsData) {
        MultisampleQualityLevelsData {
            format: self.format,
            sample_count: self.sample_count,
            flags: 0,
            num_quality_levels: 0,
        }
    }

    fn check(self, queried: Result<MultisampleQualityLevelsData, Error>) -> (r: Result<Self, Error>) {
        match queried {
            Ok(data) => Ok(
                MultisampleQualityLevels {
                    format: data.format,
                    sample_count: data.sample_count,
                    flags: data.flags,
                    num_quality_levels: data.num_quality_levels,
                },
            ),
            Err(e) => Err(e),
        }
    }
}

/// The data of the query for `FormatInfo`, as the native layer fills it in.
#[derive(Clone, Copy, PartialEq, Eq, Structural, Debug)]
pub struct FormatInfoData {
    pub format: i32,
    pub plane_count: u8,
}

#[derive(Clone, Copy, PartialEq, Eq, Structural, Debug)]
pub struct FormatInfo {
    pub format: i32,
    pub plane_count: u8,
}

impl FormatInfo {
    pub fn new(format: i32) -> (r: Self)
        ensures
            r.format == format,
            r.plane_count == 0,
    {
        FormatInfo { format, plane_count: 0 }
    }
}

impl RequestFeature for FormatInfo {
    const FEATURE: i32 = D3D12_FEATURE_FORMAT_INFO;

    type Data = FormatInfoData;

    open spec fn asks(&self) -> FormatInfoData {
        FormatInfoData { format: self.format, plane_count: 0 }
    }

    open spec fn reads(self, data: FormatInfoData) -> Self {
        FormatInfo { format: data.format, plane_count: data.plane_count }
    }

    fn query(&self) -> (data: FormatInfoData) {
        FormatInfoData { format: self.format, plane_count: 0 }
    }

    fn check(self, queried: Result<FormatInfoData, Error>) -> (r: Result<Self, Error>) {
        match queried {
            Ok(data) => Ok(FormatInfo { format: data.format, plane_count: data.plane_count }),
            Err(e) => Err(e),
        }
    }
}

/// The data of the query for `GpuVirtualAddressSupport`, as the native layer fills it in.
#[derive(Clone, Copy, PartialEq, Eq, Structural, Debug)]
pub struct GpuVirtualAddressSupportData {
    pub max_gpu_virtual_address_bits_per_resource: u32,
    pub max_gpu_virtual_address_bits_per_process: u32,
}

#[derive(Clone, Copy, PartialEq, Eq, Structural, Debug)]
pub struct GpuVirtualAddressSupport {
    pub max_gpu_virtual_address_bits_per_resource: u32,
    pub max_gpu_virtual_address_bits_per_process: u32,
}

impl Feature for GpuVirtualAddressSupport {
    const FEATURE: i32 = D3D12_FEATURE_GPU_VIRTUAL_ADDRESS_SUPPORT;

    type Data = GpuVirtualAddressSupportData;

    open spec fn asks() -> GpuVirtualAddressSupportData {
        GpuVirtualAddressSupportData {
            max_gpu_virtual_address_bits_per_resource: 0,
            max_gpu_virtual_address_bits_per_process: 0,
        }
    }

    open spec fn reads(data: GpuVirtualAddressSupportData) -> Self {
        GpuVirtualAddressSupport {
            max_gpu_virtual_address_bits_per_resource:
                data.max_gpu_virtual_address_bits_per_resource,
            max_gpu_virtual_address_bits_per_process: data.max_gpu_virtual_address_bits_per_process,
        }
    }

    fn query() -> (data: GpuVirtualAddressSupportData) {
        GpuVirtualAddressSupportData {
            max_gpu_virtual_address_bits_per_resource: 0,
            max_gpu_virtual_address_bits_per_process: 0,
        }
    }

    fn check(queried: Result<GpuVirtualAddressSupportData, Error>) -> (r: Result<Self, Error>) {
        match queried {
            Ok(data) => Ok(
                GpuVirtualAddressSupport {
                    max_gpu_virtual_address_bits_per_resource:
                        data.max_gpu_virtual_address_bits_per_resource,
                    max_gpu_virtual_address_bits_per_process:
                        data.max_gpu_virtual_address_bits_per_process,
                },
            ),
            Err(e) => Err(e),
        }
    }
}

/// The data of the query for `ShaderModel`, as the native layer fills it in.
#[derive(Clone, Copy, PartialEq, Eq, Structural, Debug)]
pub struct ShaderModelData {
    pub highest_shader_model: i32,
}

#[derive(Clone, Copy, PartialEq, Eq, Structural, Debug)]
pub struct ShaderModel {
    pub highest_shader_model: i32,
}

impl Feature for ShaderModel {
    const FEATURE: i32 = D3D12_FEATURE_SHADER_MODEL;

    type Data = ShaderModelData;

    open spec fn asks() -> ShaderModelData {
        ShaderModelData { highest_shader_model: D3D_SHADER_MODEL_6_7 }
    }

    open spec fn reads(data: ShaderModelData) -> Self {
        ShaderModel { highest_shader_model: data.highest_shader_model }
    }

    fn query() -> (data: ShaderModelData) {
        ShaderModelData { highest_shader_model: D3D_SHADER_MODEL_6_7 }
    }

    fn check(queried: Result<ShaderModelData, Error>) -> (r: Result<Self, Error>) {
        match queried {
            Ok(data) => Ok(ShaderModel { highest_shader_model: data.highest_shader_model }),
            Err(e) => Err(e),
        }
    }
}

/// The data of the query for `D3D12Options1`, as the native layer fills it in.
/// A truth value is a number, 0 for false.
#[derive(Clone, Copy, PartialEq, Eq, Structural, Debug)]
pub struct D3D12Options1Data {
    pub wave_ops: i32,
    pub wave_lane_count_min: u32,
    pub wave_lane_count_max: u32,
    pub total_lane_count: u32,
    pub expanded_compute_resource_states: i32,
    pub int64_shader_ops: i32,
}

#[derive(Clone, Copy, PartialEq, Eq, Structural, Debug)]
pub struct D3D12Options1 {
    pub wave_ops: bool,
    pub wave_lane_count_min: u32,
    pub wave_lane_count_max: u32,
    pub total_lane_count: u32,
    pub expanded_compute_resource_states: bool,
    pub int64_shader_ops: bool,
}

impl Feature for D3D12Options1 {
    const FEATURE: i32 = D3D12_FEATURE_D3D12_OPTIONS1;

    type Data = D3D12Options1Data;

    open spec fn asks() -> D3D12Options1Data {
        D3D12Options1Data {
            wave_ops: 0,
            wave_lane_count_min: 0,
            wave_lane_count_max: 0,
            total_lane_count: 0,
            expanded_compute_resource_states: 0,
            int64_shader_ops: 0,
        }
    }

    open spec fn reads(data: D3D12Options1Data) -> Self {
        D3D12Options1 {
            wave_ops: data.wave_ops != 0,
            wave_lane_count_min: data.wave_lane_count_min,
            wave_lane_count_max: data.wave_lane_count_max,
            total_lane_count: data.total_lane_count,
            expanded_compute_resource_states: data.expanded_compute_resource_states != 0,
            int64_shader_ops: data.int64_shader_ops != 0,
        }
    }

    fn query() -> (data: D3D12Options1Data) {
        D3D12Options1Data {
            wave_ops: 0,
            wave_lane_count_min: 0,
            wave_lane_count_max: 0,
            total_lane_count: 0,
            expanded_compute_resource_states: 0,
            int64_shader_ops: 0,
        }
    }

    fn check(queried: Result<D3D12Options1Data, Error>) -> (r: Result<Self, Error>) {
        match queried {
            Ok(data) => Ok(
                D3D12Options1 {
                    wave_ops: data.wave_ops != 0,
                    wave_lane_count_min: data.wave_lane_count_min,
                    wave_lane_count_max: data.wave_lane_count_max,
                    total_lane_count: data.total_lane_count,
                    expanded_compute_resource_states: data.expanded_compute_resource_states != 0,
                    int64_shader_ops: data.int64_shader_ops != 0,
                },
            ),
            Err(e) => Err(e),
        }
    }
}

/// The data of the query for `ProtectedResourceSessionSupport`, as the native layer fills it in.
#[derive(Clone, Copy, PartialEq, Eq, Structural, Debug)]
pub struct ProtectedResourceSessionSupportData {
    pub node_index: u32,
    pub support: i32,
}

#[derive(Clone, Copy, PartialEq, Eq, Structural, Debug)]
pub struct ProtectedResourceSessionSupport {
    pub node_index: u32,
    pub support: i32,
}

impl ProtectedResourceSessionSupport {
    pub fn new(node_index: u32) -> (r: Self)
        ensures
            r.node_index == node_index,
            r.support == 0,
    {
        ProtectedResourceSessionSupport { node_index, support: 0 }
    }
}

impl RequestFeature for ProtectedResourceSessionSupport {
    const FEATURE: i32 = D3D12_FEATURE_PROTECTED_RESOURCE_SESSION_SUPPORT;

    type Data = ProtectedResourceSessionSupportData;

    open spec fn asks(&self) -> ProtectedResourceSessionSupportData {
        ProtectedResourceSessionSupportData { node_index: self.node_index, support: 0 }
    }

    open spec fn reads(self, data: ProtectedResourceSessionSupportData) -> Self {
        ProtectedResourceSessionSupport { node_index: data.node_index, support: data.support }
    }

    fn query(&self) -> (data: ProtectedResourceSessionSupportData) {
        ProtectedResourceSessionSupportData { node_index: self.node_index, support: 0 }
    }

    fn check(self, queried: Result<ProtectedResourceSessionSupportData, Error>) -> (r: Result<Self, Error>) {
        match queried {
            Ok(data) => Ok(
                ProtectedResourceSessionSupport {
                    node_index: data.node_index,
                    support: data.support,
                },
            ),
            Err(e) => Err(e),
        }
    }
}

/// The data of the query for `RootSignature`, as the native layer fills it in.
#[derive(Clone, Copy, PartialEq, Eq, Structural, Debug)]
pub struct RootSignatureData {
    pub highest_version: i32,
}

#[derive(Clone, Copy, PartialEq, Eq, Structural, Debug)]
pub struct RootSignature {
    pub highest_version: i32,
}

impl Feature for RootSignature {
    const FEATURE: i32 = D3D12_FEATURE_ROOT_SIGNATURE;

    type Data = RootSignatureData;

    open spec fn asks() -> RootSignatureData {
        RootSignatureData { highest_version: D3D_ROOT_SIGNATURE_VERSION_1_1 }
    }

    open spec fn reads(data: RootSignatureData) -> Self {
        RootSignature { highest_version: data.highest_version }
    }

    fn query() -> (data: RootSignatureData) {
        RootSignatureData { highest_version: D3D_ROOT_SIGNATURE_VERSION_1_1 }
    }

    fn check(queried: Result<RootSignatureData, Error>) -> (r: Result<Self, Error>) {
        match queried {
            Ok(data) => Ok(RootSignature { highest_version: data.highest_version }),
            Err(e) => Err(e),
        }
    }
}

/// The data of the query for `D3D12Options2`, as the native layer fills it in.
/// A truth value is a number, 0 for false.
#[derive(Clone, Copy, PartialEq, Eq, Structural, Debug)]
pub struct D3D12Options2Data {
    pub depth_bounds_test_supported: i32,
    pub programmable_sample_positions_tier: i32,
}

#[derive(Clone, Copy, PartialEq, Eq, Structural, Debug)]
pub struct D3D12Options2 {
    pub depth_bounds_test_supported: bool,
    pub programmable_sample_positions_tier: i32,
}

impl Feature for D3D12Options2 {
    const FEATURE: i32 = D3D12_FEATURE_D3D12_OPTIONS2;

    type Data = D3D12Options2Data;

    open spec fn asks() -> D3D12Options2Data {
        D3D12Options2Data { depth_bounds_test_supported: 0, programmable_sample_positions_tier: 0 }
    }

    open spec fn reads(data: D3D12Options2Data) -> Self {
        D3D12Options2 {
            depth_bounds_test_supported: data.depth_bounds_test_supported != 0,
            programmable_sample_positions_tier: data.programmable_sample_positions_tier,
        }
    }

    fn query() -> (data: D3D12Options2Data) {
        D3D12Options2Data { depth_bounds_test_supported: 0, programmable_sample_positions_tier: 0 }
    }

    fn check(queried: Result<D3D12Options2Data, Error>) -> (r: Result<Self, Error>) {
        match queried {
            Ok(data) => Ok(
                D3D12Options2 {
                    depth_bounds_test_supported: data.depth_bounds_test_supported != 0,
                    programmable_sample_positions_tier: data.programmable_sample_positions_tier,
                },
            ),
            Err(e) => Err(e),
        }
    }
}

/// The data of the query for `ShaderCache`, as the native layer fills it in.
#[derive(Clone, Copy, PartialEq, Eq, Structural, Debug)]
pub struct ShaderCacheData {
    pub support_flags: i32,
}

#[derive(Clone, Copy, PartialEq, Eq, Structural, Debug)]
pub struct ShaderCache {
    pub support_flags: i32,
}

impl Feature for ShaderCache {
    const FEATURE: i32 = D3D12_FEATURE_SHADER_CACHE;

    type Data = ShaderCacheData;

    open spec fn asks() -> ShaderCacheData {
        ShaderCacheData { support_flags: 0 }
    }

    open spec fn reads(data: ShaderCacheData) -> Self {
        ShaderCache { support_flags: data.support_flags }
    }

    fn query() -> (data: ShaderCacheData) {
        ShaderCacheData { support_flags: 0 }
    }

    fn check(queried: Result<ShaderCacheData, Error>) -> (r: Result<Self, Error>) {
        match queried {
            Ok(data) => Ok(ShaderCache { support_flags: data.support_flags }),
            Err(e) => Err(e),
        }
    }
}

/// The data of the query for `CommandQueuePriority`, as the native layer fills it in.
/// A truth value is a number, 0 for false.
#[derive(Clone, Copy, PartialEq, Eq, Structural, Debug)]
pub struct CommandQueuePriorityData {
    pub command_list_type: i32,
    pub priority: u32,
    pub priority_for_type_is_supported: i32,
}

#[derive(Clone, Copy, PartialEq, Eq, Structural, Debug)]
pub struct CommandQueuePriority {
    pub command_list_type: i32,
    pub priority: u32,
    pub priority_for_type_is_supported: bool,
}

impl CommandQueuePriority {
    pub fn new(command_list_type: i32, priority: u32) -> (r: Self)
        ensures
            r.command_list_type == command_list_type,
            r.priority == priority,
            r.priority_for_type_is_supported == false,
    {
        CommandQueuePriority { command_list_type, priority, priority_for_type_is_supported: false }
    }
}

impl RequestFeature for CommandQueuePriority {
    const FEATURE: i32 = D3D12_FEATURE_COMMAND_QUEUE_PRIORITY;

    type Data = CommandQueuePriorityData;

    open spec fn asks(&self) -> CommandQueuePriorityData {
        CommandQueuePriorityData {
            command_list_type: self.command_list_type,
            priority: self.priority,
            priority_for_type_is_supported: 0,
        }
    }

    open spec fn reads(self, data: CommandQueuePriorityData) -> Self {
        CommandQueuePriority {
            command_list_type: data.command_list_type,
            priority: data.priority,
            priority_for_type_is_supported: data.priority_for_type_is_supported != 0,
        }
    }

    fn query(&self) -> (data: CommandQueuePriorityData) {
        CommandQueuePriorityData {
            command_list_type: self.command_list_type,
            priority: self.priority,
            priority_for_type_is_supported: 0,
        }
    }

    fn check(self, queried: Result<CommandQueuePriorityData, Error>) -> (r: Result<Self, Error>) {
        match queried {
            Ok(data) => Ok(
                CommandQueuePriority {
                    command_list_type: data.command_list_type,
                    priority: data.priority,
                    priority_for_type_is_supported: data.priority_for_type_is_supported != 0,
                },
            ),
            Err(e) => Err(e),
        }
    }
}

/// The data of the query for `D3D12Options3`, as the native layer fills it in.
/// A truth value is a number, 0 for false.
#[derive(Clone, Copy, PartialEq, Eq, Structural, Debug)]
pub struct D3D12Options3Data {
    pub copy_queue_timestamp_queries_supported: i32,
    pub casting_fully_typed_format_supported: i32,
    pub write_buffer_immediate_support_flags: i32,
    pub view_instancing_tier: i32,
    pub barycentrics_supported: i32,
}

#[derive(Clone, Copy, PartialEq, Eq, Structural, Debug)]
pub struct D3D12Options3 {
    pub copy_queue_timestamp_queries_supported: bool,
    pub casting_fully_typed_format_supported: bool,
    pub write_buffer_immediate_support_flags: i32,
    pub view_instancing_tier: i32,
    pub barycentrics_supported: bool,
}

impl Feature for D3D12Options3 {
    const FEATURE: i32 = D3D12_FEATURE_D3D12_OPTIONS3;

    type Data = D3D12Options3Data;

    open spec fn asks() -> D3D12Options3Data {
        D3D12Options3Data {
            copy_queue_timestamp_queries_supported: 0,
            casting_fully_typed_format_supported: 0,
            write_buffer_immediate_support_flags: 0,
            view_instancing_tier: 0,
            barycentrics_supported: 0,
        }
    }

    open spec fn reads(data: D3D12Options3Data) -> Self {
        D3D12Options3 {
            copy_queue_timestamp_queries_supported:
                data.copy_queue_timestamp_queries_supported != 0,
            casting_fully_typed_format_supported: data.casting_fully_typed_format_supported != 0,
            write_buffer_immediate_support_flags: data.write_buffer_immediate_support_flags,
            view_instancing_tier: data.view_instancing_tier,
            barycentrics_supported: data.barycentrics_supported != 0,
        }
    }

    fn query() -> (data: D3D12Options3Data) {
        D3D12Options3Data {
            copy_queue_timestamp_queries_supported: 0,
            casting_fully_typed_format_supported: 0,
            write_buffer_immediate_support_flags: 0,
            view_instancing_tier: 0,
            barycentrics_supported: 0,
        }
    }

    fn check(queried: Result<D3D12Options3Data, Error>) -> (r: Result<Self, Error>) {
        match queried {
            Ok(data) => Ok(
                D3D12Options3 {
                    copy_queue_timestamp_queries_supported:
                        data.copy_queue_timestamp_queries_supported != 0,
                    casting_fully_typed_format_supported:
                        data.casting_fully_typed_format_supported != 0,
                    write_buffer_immediate_support_flags: data.write_buffer_immediate_support_flags,
                    view_instancing_tier: data.view_instancing_tier,
                    barycentrics_supported: data.barycentrics_supported != 0,
                },
            ),
            Err(e) => Err(e),
        }
    }
}

/// The data of the query for `ExistingHeaps`, as the native layer fills it in.
/// A truth value is a number, 0 for false.
#[derive(Clone, Copy, PartialEq, Eq, Structural, Debug)]
pub struct ExistingHeapsData {
    pub supported: i32,
}

#[derive(Clone, Copy, PartialEq, Eq, Structural, Debug)]
pub struct ExistingHeaps {
    pub supported: bool,
}

impl Feature for ExistingHeaps {
    const FEATURE: i32 = D3D12_FEATURE_EXISTING_HEAPS;

    type Data = ExistingHeapsData;

    open spec fn asks() -> ExistingHeapsData {
        ExistingHeapsData { supported: 0 }
    }

    open spec fn reads(data: ExistingHeapsData) -> Self {
        ExistingHeaps { supported: data.supported != 0 }
    }

    fn query() -> (data: ExistingHeapsData) {
        ExistingHeapsData { supported: 0 }
    }

    fn check(queried: Result<ExistingHeapsData, Error>) -> (r: Result<Self, Error>) {
        match queried {
            Ok(data) => Ok(ExistingHeaps { supported: data.supported != 0 }),
            Err(e) => Err(e),
        }
    }
}

/// The data of the query for `D3D12Options4`, as the native layer fills it in.
/// A truth value is a number, 0 for false.
#[derive(Clone, Copy, PartialEq, Eq, Structural, Debug)]
pub struct D3D12Options4Data {
    pub msaa_64kb_aligned_texture_supported: i32,
    pub shared_resource_compatibility_tier: i32,
    pub native_16bit_shader_ops_supported: i32,
}

#[derive(Clone, Copy, PartialEq, Eq, Structural, Debug)]
pub struct D3D12Options4 {
    pub msaa_64kb_aligned_texture_supported: bool,
    pub shared_resource_compatibility_tier: i32,
    pub native_16bit_shader_ops_supported: bool,
}

impl Feature for D3D12Options4 {
    const FEATURE: i32 = D3D12_FEATURE_D3D12_OPTIONS4;

    type Data = D3D12Options4Data;

    open spec fn asks() -> D3D12Options4Data {
        D3D12Options4Data {
            msaa_64kb_aligned_texture_supported: 0,
            shared_resource_compatibility_tier: 0,
            native_16bit_shader_ops_supported: 0,
        }
    }

    open spec fn reads(data: D3D12Options4Data) -> Self {
        D3D12Options4 {
            msaa_64kb_aligned_texture_supported: data.msaa_64kb_aligned_texture_supported != 0,
            shared_resource_compatibility_tier: data.shared_resource_compatibility_tier,
            native_16bit_shader_ops_supported: data.native_16bit_shader_ops_supported != 0,
        }
    }

    fn query() -> (data: D3D12Options4Data) {
        D3D12Options4Data {
            msaa_64kb_aligned_texture_supported: 0,
            shared_resource_compatibility_tier: 0,
            native_16bit_shader_ops_supported: 0,
        }
    }

    fn check(queried: Result<D3D12Options4Data, Error>) -> (r: Result<Self, Error>) {
        match queried {
            Ok(data) => Ok(
                D3D12Options4 {
                    msaa_64kb_aligned_texture_supported:
                        data.msaa_64kb_aligned_texture_supported != 0,
                    shared_resource_compatibility_tier: data.shared_resource_compatibility_tier,
                    native_16bit_shader_ops_supported: data.native_16bit_shader_ops_supported != 0,
                },
            ),
            Err(e) => Err(e),
        }
    }
}

/// The data of the query for `Serialization`, as the native layer fills it in.
#[derive(Clone, Copy, PartialEq, Eq, Structural, Debug)]
pub struct SerializationData {
    pub node_index: u32,
    pub heap_serialization_tier: i32,
}

#[derive(Clone, Copy, PartialEq, Eq, Structural, Debug)]
pub struct Serialization {
    pub node_index: u32,
    pub heap_serialization_tier: i32,
}

impl Serialization {
    pub fn new(node_index: u32) -> (r: Self)
        ensures
            r.node_index == node_index,
            r.heap_serialization_tier == 0,
    {
        Serialization { node_index, heap_serialization_tier: 0 }
    }
}

impl RequestFeature for Serialization {
    const FEATURE: i32 = D3D12_FEATURE_SERIALIZATION;

    type Data = SerializationData;

    open spec fn asks(&self) -> SerializationData {
        SerializationData { node_index: self.node_index, heap_serialization_tier: 0 }
    }

    open spec fn reads(self, data: SerializationData) -> Self {
        Serialization {
            node_index: data.node_index,
            heap_serialization_tier: data.heap_serialization_tier,
        }
    }

    fn query(&self) -> (data: SerializationData) {
        SerializationData { node_index: self.node_index, heap_serialization_tier: 0 }
    }

    fn check(self, queried: Result<SerializationData, Error>) -> (r: Result<Self, Error>) {
        match queried {
            Ok(data) => Ok(
                Serialization {
                    node_index: data.node_index,
                    heap_serialization_tier: data.heap_serialization_tier,
                },
            ),
            Err(e) => Err(e),
        }
    }
}

/// The data of the query for `CrossNode`, as the native layer fills it in.
/// A truth value is a number, 0 for false.
#[derive(Clone, Copy, PartialEq, Eq, Structural, Debug)]
pub struct CrossNodeData {
    pub sharing_tier: i32,
    pub atomic_shader_instructions: i32,
}

#[derive(Clone, Copy, PartialEq, Eq, Structural, Debug)]
pub struct CrossNode {
    pub sharing_tier: i32,
    pub atomic_shader_instructions: bool,
}

impl Feature for CrossNode {
    const FEATURE: i32 = D3D12_FEATURE_CROSS_NODE;

    type Data = CrossNodeData;

    open spec fn asks() -> CrossNodeData {
        CrossNodeData { sharing_tier: 0, atomic_shader_instructions: 0 }
    }

    open spec fn reads(data: CrossNodeData) -> Self {
        CrossNode {
            sharing_tier: data.sharing_tier,
            atomic_shader_instructions: data.atomic_shader_instructions != 0,
        }
    }

    fn query() -> (data: CrossNodeData) {
        CrossNodeData { sharing_tier: 0, atomic_shader_instructions: 0 }
    }

    fn check(queried: Result<CrossNodeData, Error>) -> (r: Result<Self, Error>) {
        match queried {
            Ok(data) => Ok(
                CrossNode {
                    sharing_tier: data.sharing_tier,
                    atomic_shader_instructions: data.atomic_shader_instructions != 0,
                },
            ),
            Err(e) => Err(e),
        }
    }
}

/// The data of the query for `D3D12Options5`, as the native layer fills it in.
/// A truth value is a number, 0 for false.
#[derive(Clone, Copy, PartialEq, Eq, Structural, Debug)]
pub struct D3D12Options5Data {
    pub srv_only_tiled_resource_tier3: i32,
    pub render_pass_tier: i32,
    pub raytracing_tier: i32,
}

#[derive(Clone, Copy, PartialEq, Eq, Structural, Debug)]
pub struct D3D12Options5 {
    pub srv_only_tiled_resource_tier3: bool,
    pub render_pass_tier: i32,
    pub raytracing_tier: i32,
}

impl Feature for D3D12Options5 {
    const FEATURE: i32 = D3D12_FEATURE_D3D12_OPTIONS5;

    type Data = D3D12Options5Data;

    open spec fn asks() -> D3D12Options5Data {
        D3D12Options5Data {
            srv_only_tiled_resource_tier3: 0,
            render_pass_tier: 0,
            raytracing_tier: 0,
        }
    }

    open spec fn reads(data: D3D12Options5Data) -> Self {
        D3D12Options5 {
            srv_only_tiled_resource_tier3: data.srv_only_tiled_resource_tier3 != 0,
            render_pass_tier: data.render_pass_tier,
            raytracing_tier: data.raytracing_tier,
        }
    }

    fn query() -> (data: D3D12Options5Data) {
        D3D12Options5Data {
            srv_only_tiled_resource_tier3: 0,
            render_pass_tier: 0,
            raytracing_tier: 0,
        }
    }

    fn check(queried: Result<D3D12Options5Data, Error>) -> (r: Result<Self, Error>) {
        match queried {
            Ok(data) => Ok(
                D3D12Options5 {
                    srv_only_tiled_resource_tier3: data.srv_only_tiled_resource_tier3 != 0,
                    render_pass_tier: data.render_pass_tier,
                    raytracing_tier: data.raytracing_tier,
                },
            ),
            Err(e) => Err(e),
        }
    }
}

/// The data of the query for `Displayable`, as the native layer fills it in.
/// A truth value is a number, 0 for false.
#[derive(Clone, Copy, PartialEq, Eq, Structural, Debug)]
pub struct DisplayableData {
    pub displayable_texture: i32,
    pub shared_resource_compatibility_tier: i32,
}

#[derive(Clone, Copy, PartialEq, Eq, Structural, Debug)]
pub struct Displayable {
    pub displayable_texture: bool,
    pub shared_resource_compatibility_tier: i32,
}

impl Feature for Displayable {
    const FEATURE: i32 = D3D12_FEATURE_DISPLAYABLE;

    type Data = DisplayableData;

    open spec fn asks() -> DisplayableData {
        DisplayableData { displayable_texture: 0, shared_resource_compatibility_tier: 0 }
    }

    open spec fn reads(data: DisplayableData) -> Self {
        Displayable {
            displayable_texture: data.displayable_texture != 0,
            shared_resource_compatibility_tier: data.shared_resource_compatibility_tier,
        }
    }

    fn query() -> (data: DisplayableData) {
        DisplayableData { displayable_texture: 0, shared_resource_compatibility_tier: 0 }
    }

    fn check(queried: Result<DisplayableData, Error>) -> (r: Result<Self, Error>) {
        match queried {
            Ok(data) => Ok(
                Displayable {
                    displayable_texture: data.displayable_texture != 0,
                    shared_resource_compatibility_tier: data.shared_resource_compatibility_tier,
                },
            ),
            Err(e) => Err(e),
        }
    }
}

/// The data of the query for `D3D12Options6`, as the native layer fills it in.
/// A truth value is a number, 0 for false.
#[derive(Clone, Copy, PartialEq, Eq, Structural, Debug)]
pub struct D3D12Options6Data {
    pub additional_shading_rates_supported: i32,
    pub per_primitive_shading_rate_supported_with_viewport_indexing: i32,
    pub variable_shading_rate_tier: i32,
    pub shading_rate_image_tile_size: u32,
    pub background_processing_supported: i32,
}

#[derive(Clone, Copy, PartialEq, Eq, Structural, Debug)]
pub struct D3D12Options6 {
    pub additional_shading_rates_supported: bool,
    pub per_primitive_shading_rate_supported_with_viewport_indexing: bool,
    pub variable_shading_rate_tier: i32,
    pub shading_rate_image_tile_size: u32,
    pub background_processing_supported: bool,
}

impl Feature for D3D12Options6 {
    const FEATURE: i32 = D3D12_FEATURE_D3D12_OPTIONS6;

    type Data = D3D12Options6Data;

    open spec fn asks() -> D3D12Options6Data {
        D3D12Options6Data {
            additional_shading_rates_supported: 0,
            per_primitive_shading_rate_supported_with_viewport_indexing: 0,
            variable_shading_rate_tier: 0,
            shading_rate_image_tile_size: 0,
            background_processing_supported: 0,
        }
    }

    open spec fn reads(data: D3D12Options6Data) -> Self {
        D3D12Options6 {
            additional_shading_rates_supported: data.additional_shading_rates_supported != 0,
            per_primitive_shading_rate_supported_with_viewport_indexing:
                data.per_primitive_shading_rate_supported_with_viewport_indexing != 0,
            variable_shading_rate_tier: data.variable_shading_rate_tier,
            shading_rate_image_tile_size: data.shading_rate_image_tile_size,
            background_processing_supported: data.background_processing_supported != 0,
        }
    }

    fn query() -> (data: D3D12Options6Data) {
        D3D12Options6Data {
            additional_shading_rates_supported: 0,
            per_primitive_shading_rate_supported_with_viewport_indexing: 0,
            variable_shading_rate_tier: 0,
            shading_rate_image_tile_size: 0,
            background_processing_supported: 0,
        }
    }

    fn check(queried: Result<D3D12Options6Data, Error>) -> (r: Result<Self, Error>) {
        match queried {
            Ok(data) => Ok(
                D3D12Options6 {
                    additional_shading_rates_supported:
                        data.additional_shading_rates_supported != 0,
                    per_primitive_shading_rate_supported_with_viewport_indexing:
                        data.per_primitive_shading_rate_supported_with_viewport_indexing != 0,
                    variable_shading_rate_tier: data.variable_shading_rate_tier,
                    shading_rate_image_tile_size: data.shading_rate_image_tile_size,
                    background_processing_supported: data.background_processing_supported != 0,
                },
            ),
            Err(e) => Err(e),
        }
    }
}

/// The data of the query for `D3D12Options7`, as the native layer fills it in.
#[derive(Clone, Copy, PartialEq, Eq, Structural, Debug)]
pub struct D3D12Options7Data {
    pub mesh_shader_tier: i32,
    pub sampler_feedback_tier: i32,
}

#[derive(Clone, Copy, PartialEq, Eq, Structural, Debug)]
pub struct D3D12Options7 {
    pub mesh_shader_tier: i32,
    pub sampler_feedback_tier: i32,
}

impl Feature for D3D12Options7 {
    const FEATURE: i32 = D3D12_FEATURE_D3D12_OPTIONS7;

    type Data = D3D12Options7Data;

    open spec fn asks() -> D3D12Options7Data {
        D3D12Options7Data { mesh_shader_tier: 0, sampler_feedback_tier: 0 }
    }

    open spec fn reads(data: D3D12Options7Data) -> Self {
        D3D12Options7 {
            mesh_shader_tier: data.mesh_shader_tier,
            sampler_feedback_tier: data.sampler_feedback_tier,
        }
    }

    fn query() -> (data: D3D12Options7Data) {
        D3D12Options7Data { mesh_shader_tier: 0, sampler_feedback_tier: 0 }
    }

    fn check(queried: Result<D3D12Options7Data, Error>) -> (r: Result<Self, Error>) {
        match queried {
            Ok(data) => Ok(
                D3D12Options7 {
                    mesh_shader_tier: data.mesh_shader_tier,
                    sampler_feedback_tier: data.sampler_feedback_tier,
                },
            ),
            Err(e) => Err(e),
        }
    }
}

/// The data of the query for `ProtectedResourceSessionTypeCount`, as the native layer fills it in.
#[derive(Clone, Copy, PartialEq, Eq, Structural, Debug)]
pub struct ProtectedResourceSessionTypeCountData {
    pub node_index: u32,
    pub count: u32,
}

#[derive(Clone, Copy, PartialEq, Eq, Structural, Debug)]
pub struct ProtectedResourceSessionTypeCount {
    pub node_index: u32,
    pub count: u32,
}

impl ProtectedResourceSessionTypeCount {
    pub fn new(node_index: u32) -> (r: Self)
        ensures
            r.node_index == node_index,
            r.count == 0,
    {
        ProtectedResourceSessionTypeCount { node_index, count: 0 }
    }
}

impl RequestFeature for ProtectedResourceSessionTypeCount {
    const FEATURE: i32 = D3D12_FEATURE_PROTECTED_RESOURCE_SESSION_TYPE_COUNT;

    type Data = ProtectedResourceSessionTypeCountData;

    open spec fn asks(&self) -> ProtectedResourceSessionTypeCountData {
        ProtectedResourceSessionTypeCountData { node_index: self.node_index, count: 0 }
    }

    open spec fn reads(self, data: ProtectedResourceSessionTypeCountData) -> Self {
        ProtectedResourceSessionTypeCount { node_index: data.node_index, count: data.count }
    }

    fn query(&self) -> (data: ProtectedResourceSessionTypeCountData) {
        ProtectedResourceSessionTypeCountData { node_index: self.node_index, count: 0 }
    }

    fn check(self, queried: Result<ProtectedResourceSessionTypeCountData, Error>) -> (r: Result<Self, Error>) {
        match queried {
            Ok(data) => Ok(
                ProtectedResourceSessionTypeCount {
                    node_index: data.node_index,
                    count: data.count,
                },
            ),
            Err(e) => Err(e),
        }
    }
}

/// The data of the query for `D3D12Options8`, as the native layer fills it in.
/// A truth value is a number, 0 for false.
#[derive(Clone, Copy, PartialEq, Eq, Structural, Debug)]
pub struct D3D12Options8Data {
    pub unaligned_block_textures_supported: i32,
}

#[derive(Clone, Copy, PartialEq, Eq, Structural, Debug)]
pub struct D3D12Options8 {
    pub unaligned_block_textures_supported: bool,
}

impl Feature for D3D12Options8 {
    const FEATURE: i32 = D3D12_FEATURE_D3D12_OPTIONS8;

    type Data = D3D12Options8Data;

    open spec fn asks() -> D3D12Options8Data {
        D3D12Options8Data { unaligned_block_textures_supported: 0 }
    }

    open spec fn reads(data: D3D12Options8Data) -> Self {
        D3D12Options8 {
            unaligned_block_textures_supported: data.unaligned_block_textures_supported != 0,
        }
    }

    fn query() -> (data: D3D12Options8Data) {
        D3D12Options8Data { unaligned_block_textures_supported: 0 }
    }

    fn check(queried: Result<D3D12Options8Data, Error>) -> (r: Result<Self, Error>) {
        match queried {
            Ok(data) => Ok(
                D3D12Options8 {
                    unaligned_block_textures_supported:
                        data.unaligned_block_textures_supported != 0,
                },
            ),
            Err(e) => Err(e),
        }
    }
}

/// The data of the query for `D3D12Options9`, as the native layer fills it in.
/// A truth value is a number, 0 for false.
#[derive(Clone, Copy, PartialEq, Eq, Structural, Debug)]
pub struct D3D12Options9Data {
    pub mesh_shader_pipeline_stats_supported: i32,
    pub mesh_shader_supports_full_range_render_target_array_index: i32,
    pub atomic_int64_on_typed_resource_supported: i32,
    pub atomic_int64_on_group_shared_supported: i32,
    pub derivatives_in_mesh_and_amplification_shaders_supported: i32,
    pub wave_mma_tier: i32,
}

#[derive(Clone, Copy, PartialEq, Eq, Structural, Debug)]
pub struct D3D12Options9 {
    pub mesh_shader_pipeline_stats_supported: bool,
    pub mesh_shader_supports_full_range_render_target_array_index: bool,
    pub atomic_int64_on_typed_resource_supported: bool,
    pub atomic_int64_on_group_shared_supported: bool,
    pub derivatives_in_mesh_and_amplification_shaders_supported: bool,
    pub wave_mma_tier: i32,
}

impl Feature for D3D12Options9 {
    const FEATURE: i32 = D3D12_FEATURE_D3D12_OPTIONS9;

    type Data = D3D12Options9Data;

    open spec fn asks() -> D3D12Options9Data {
        D3D12Options9Data {
            mesh_shader_pipeline_stats_supported: 0,
            mesh_shader_supports_full_range_render_target_array_index: 0,
            atomic_int64_on_typed_resource_supported: 0,
            atomic_int64_on_group_shared_supported: 0,
            derivatives_in_mesh_and_amplification_shaders_supported: 0,
            wave_mma_tier: 0,
        }
    }

    open spec fn reads(data: D3D12Options9Data) -> Self {
        D3D12Options9 {
            mesh_shader_pipeline_stats_supported: data.mesh_shader_pipeline_stats_supported != 0,
            mesh_shader_supports_full_range_render_target_array_index:
                data.mesh_shader_supports_full_range_render_target_array_index != 0,
            atomic_int64_on_typed_resource_supported:
                data.atomic_int64_on_typed_resource_supported != 0,
            atomic_int64_on_group_shared_supported:
                data.atomic_int64_on_group_shared_supported != 0,
            derivatives_in_mesh_and_amplification_shaders_supported:
                data.derivatives_in_mesh_and_amplification_shaders_supported != 0,
            wave_mma_tier: data.wave_mma_tier,
        }
    }

    fn query() -> (data: D3D12Options9Data) {
        D3D12Options9Data {
            mesh_shader_pipeline_stats_supported: 0,
            mesh_shader_supports_full_range_render_target_array_index: 0,
            atomic_int64_on_typed_resource_supported: 0,
            atomic_int64_on_group_shared_supported: 0,
            derivatives_in_mesh_and_amplification_shaders_supported: 0,
            wave_mma_tier: 0,
        }
    }

    fn check(queried: Result<D3D12Options9Data, Error>) -> (r: Result<Self, Error>) {
        match queried {
            Ok(data) => Ok(
                D3D12Options9 {
                    mesh_shader_pipeline_stats_supported:
                        data.mesh_shader_pipeline_stats_supported != 0,
                    mesh_shader_supports_full_range_render_target_array_index:
                        data.mesh_shader_supports_full_range_render_target_array_index != 0,
                    atomic_int64_on_typed_resource_supported:
                        data.atomic_int64_on_typed_resource_supported != 0,
                    atomic_int64_on_group_shared_supported:
                        data.atomic_int64_on_group_shared_supported != 0,
                    derivatives_in_mesh_and_amplification_shaders_supported:
                        data.derivatives_in_mesh_and_amplification_shaders_supported != 0,
                    wave_mma_tier: data.wave_mma_tier,
                },
            ),
            Err(e) => Err(e),
        }
    }
}

/// The data of the query for `D3D12Options10`, as the native layer fills it in.
/// A truth value is a number, 0 for false.
#[derive(Clone, Copy, PartialEq, Eq, Structural, Debug)]
pub struct D3D12Options10Data {
    pub variable_rate_shading_sum_combiner_supported: i32,
    pub mesh_shader_per_primitive_shading_rate_supported: i32,
}

#[derive(Clone, Copy, PartialEq, Eq, Structural, Debug)]
pub struct D3D12Options10 {
    pub variable_rate_shading_sum_combiner_supported: bool,
    pub mesh_shader_per_primitive_shading_rate_supported: bool,
}

impl Feature for D3D12Options10 {
    const FEATURE: i32 = D3D12_FEATURE_D3D12_OPTIONS10;

    type Data = D3D12Options10Data;

    open spec fn asks() -> D3D12Options10Data {
        D3D12Options10Data {
            variable_rate_shading_sum_combiner_supported: 0,
            mesh_shader_per_primitive_shading_rate_supported: 0,
        }
    }

    open spec fn reads(data: D3D12Options10Data) -> Self {
        D3D12Options10 {
            variable_rate_shading_sum_combiner_supported:
                data.variable_rate_shading_sum_combiner_supported != 0,
            mesh_shader_per_primitive_shading_rate_supported:
                data.mesh_shader_per_primitive_shading_rate_supported != 0,
        }
    }

    fn query() -> (data: D3D12Options10Data) {
        D3D12Options10Data {
            variable_rate_shading_sum_combiner_supported: 0,
            mesh_shader_per_primitive_shading_rate_supported: 0,
        }
    }

    fn check(queried: Result<D3D12Options10Data, Error>) -> (r: Result<Self, Error>) {
        match queried {
            Ok(data) => Ok(
                D3D12Options10 {
                    variable_rate_shading_sum_combiner_supported:
                        data.variable_rate_shading_sum_combiner_supported != 0,
                    mesh_shader_per_primitive_shading_rate_supported:
                        data.mesh_shader_per_primitive_shading_rate_supported != 0,
                },
            ),
            Err(e) => Err(e),
        }
    }
}

/// The data of the query for `D3D12Options11`, as the native layer fills it in.
/// A truth value is a number, 0 for false.
#[derive(Clone, Copy, PartialEq, Eq, Structural, Debug)]
pub struct D3D12Options11Data {
    pub atomic_int64_on_descriptor_heap_resource_supported: i32,
}

#[derive(Clone, Copy, PartialEq, Eq, Structural, Debug)]
pub struct D3D12Options11 {
    pub atomic_int64_on_descriptor_heap_resource_supported: bool,
}

impl Feature for D3D12Options11 {
    const FEATURE: i32 = D3D12_FEATURE_D3D12_OPTIONS11;

    type Data = D3D12Options11Data;

    open spec fn asks() -> D3D12Options11Data {
        D3D12Options11Data { atomic_int64_on_descriptor_heap_resource_supported: 0 }
    }

    open spec fn reads(data: D3D12Options11Data) -> Self {
        D3D12Options11 {
            atomic_int64_on_descriptor_heap_resource_supported:
                data.atomic_int64_on_descriptor_heap_resource_supported != 0,
        }
    }

    fn query() -> (data: D3D12Options11Data) {
        D3D12Options11Data { atomic_int64_on_descriptor_heap_resource_supported: 0 }
    }

    fn check(queried: Result<D3D12Options11Data, Error>) -> (r: Result<Self, Error>) {
        match queried {
            Ok(data) => Ok(
                D3D12Options11 {
                    atomic_int64_on_descriptor_heap_resource_supported:
                        data.atomic_int64_on_descriptor_heap_resource_supported != 0,
                },
            ),
            Err(e) => Err(e),
        }
    }
}

/// The data of the query for `D3D12Options12`, as the native layer fills it in.
/// A truth value is a number, 0 for false.
#[derive(Clone, Copy, PartialEq, Eq, Structural, Debug)]
pub struct D3D12Options12Data {
    pub ms_primitives_pipeline_statistic_includes_culled_primitives: i32,
    pub enhanced_barriers_supported: i32,
    pub relaxed_format_casting_supported: i32,
}

#[derive(Clone, Copy, PartialEq, Eq, Structural, Debug)]
pub struct D3D12Options12 {
    pub ms_primitives_pipeline_statistic_includes_culled_primitives: i32,
    pub enhanced_barriers_supported: bool,
    pub relaxed_format_casting_supported: bool,
}

impl Feature for D3D12Options12 {
    const FEATURE: i32 = D3D12_FEATURE_D3D12_OPTIONS12;

    type Data = D3D12Options12Data;

    open spec fn asks() -> D3D12Options12Data {
        D3D12Options12Data {
            ms_primitives_pipeline_statistic_includes_culled_primitives: 0,
            enhanced_barriers_supported: 0,
            relaxed_format_casting_supported: 0,
        }
    }

    open spec fn reads(data: D3D12Options12Data) -> Self {
        D3D12Options12 {
            ms_primitives_pipeline_statistic_includes_culled_primitives:
                data.ms_primitives_pipeline_statistic_includes_culled_primitives,
            enhanced_barriers_supported: data.enhanced_barriers_supported != 0,
            relaxed_format_casting_supported: data.relaxed_format_casting_supported != 0,
        }
    }

    fn query() -> (data: D3D12Options12Data) {
        D3D12Options12Data {
            ms_primitives_pipeline_statistic_includes_culled_primitives: 0,
            enhanced_barriers_supported: 0,
            relaxed_format_casting_supported: 0,
        }
    }

    fn check(queried: Result<D3D12Options12Data, Error>) -> (r: Result<Self, Error>) {
        match queried {
            Ok(data) => Ok(
                D3D12Options12 {
                    ms_primitives_pipeline_statistic_includes_culled_primitives:
                        data.ms_primitives_pipeline_statistic_includes_culled_primitives,
                    enhanced_barriers_supported: data.enhanced_barriers_supported != 0,
                    relaxed_format_casting_supported: data.relaxed_format_casting_supported != 0,
                },
            ),
            Err(e) => Err(e),
        }
    }
}

/// The data of the query for `D3D12Options13`, as the native layer fills it in.
/// A truth value is a number, 0 for false.
#[derive(Clone, Copy, PartialEq, Eq, Structural, Debug)]
pub struct D3D12Options13Data {
    pub unrestricted_buffer_texture_copy_pitch_supported: i32,
    pub unrestricted_vertex_element_alignment_supported: i32,
    pub inverted_viewport_height_flips_y_supported: i32,
    pub inverted_viewport_depth_flips_z_supported: i32,
    pub texture_copy_between_dimensions_supported: i32,
    pub alpha_blend_factor_supported: i32,
}

#[derive(Clone, Copy, PartialEq, Eq, Structural, Debug)]
pub struct D3D12Options13 {
    pub unrestricted_buffer_texture_copy_pitch_supported: bool,
    pub unrestricted_vertex_element_alignment_supported: bool,
    pub inverted_viewport_height_flips_y_supported: bool,
    pub inverted_viewport_depth_flips_z_supported: bool,
    pub texture_copy_between_dimensions_supported: bool,
    pub alpha_blend_factor_supported: bool,
}

impl Feature for D3D12Options13 {
    const FEATURE: i32 = D3D12_FEATURE_D3D12_OPTIONS13;

    type Data = D3D12Options13Data;

    open spec fn asks() -> D3D12Options13Data {
        D3D12Options13Data {
            unrestricted_buffer_texture_copy_pitch_supported: 0,
            unrestricted_vertex_element_alignment_supported: 0,
            inverted_viewport_height_flips_y_supported: 0,
            inverted_viewport_depth_flips_z_supported: 0,
            texture_copy_between_dimensions_supported: 0,
            alpha_blend_factor_supported: 0,
        }
    }

    open spec fn reads(data: D3D12Options13Data) -> Self {
        D3D12Options13 {
            unrestricted_buffer_texture_copy_pitch_supported:
                data.unrestricted_buffer_texture_copy_pitch_supported != 0,
            unrestricted_vertex_element_alignment_supported:
                data.unrestricted_vertex_element_alignment_supported != 0,
            inverted_viewport_height_flips_y_supported:
                data.inverted_viewport_height_flips_y_supported != 0,
            inverted_viewport_depth_flips_z_supported:
                data.inverted_viewport_depth_flips_z_supported != 0,
            texture_copy_between_dimensions_supported:
                data.texture_copy_between_dimensions_supported != 0,
            alpha_blend_factor_supported: data.alpha_blend_factor_supported != 0,
        }
    }

    fn query() -> (data: D3D12Options13Data) {
        D3D12Options13Data {
            unrestricted_buffer_texture_copy_pitch_supported: 0,
            unrestricted_vertex_element_alignment_supported: 0,
            inverted_viewport_height_flips_y_supported: 0,
            inverted_viewport_depth_flips_z_supported: 0,
            texture_copy_between_dimensions_supported: 0,
            alpha_blend_factor_supported: 0,
        }
    }

    fn check(queried: Result<D3D12Options13Data, Error>) -> (r: Result<Self, Error>) {
        match queried {
            Ok(data) => Ok(
                D3D12Options13 {
                    unrestricted_buffer_texture_copy_pitch_supported:
                        data.unrestricted_buffer_texture_copy_pitch_supported != 0,
                    unrestricted_vertex_element_alignment_supported:
                        data.unrestricted_vertex_element_alignment_supported != 0,
                    inverted_viewport_height_flips_y_supported:
                        data.inverted_viewport_height_flips_y_supported != 0,
                    inverted_viewport_depth_flips_z_supported:
                        data.inverted_viewport_depth_flips_z_supported != 0,
                    texture_copy_between_dimensions_supported:
                        data.texture_copy_between_dimensions_supported != 0,
                    alpha_blend_factor_supported: data.alpha_blend_factor_supported != 0,
                },
            ),
            Err(e) => Err(e),
        }
    }
}

/// The highest of the feature levels asked for that the device supports.
#[derive(Debug)]
pub struct FeatureLevels {
    pub feature_levels_requested: Vec<i32>,
    pub max_supported_feature_level: i32,
}

impl FeatureLevels {
    pub fn new(request: &[i32]) -> (r: Self)
        ensures
            r.feature_levels_requested@ == request@,
            r.max_supported_feature_level == 0,
    {
        let mut levels: Vec<i32> = Vec::new();
        let mut i: usize = 0;
        while i < request.len()
            invariant
                i <= request.len(),
                levels@ == request@.take(i as int),
            decreases request.len() - i,
        {
            levels.push(request[i]);
            assert(levels@ =~= request@.take(i + 1));
            i += 1;
        }
        assert(request@.take(request@.len() as int) =~= request@);
        FeatureLevels { feature_levels_requested: levels, max_supported_feature_level: 0 }
    }

    /// The identifier of the capability.
    pub const FEATURE: i32 = D3D12_FEATURE_FEATURE_LEVELS;

    /// The number of levels that the native layer is told.
    pub fn num_feature_levels(&self) -> (r: u32)
        requires
            self.feature_levels_requested@.len() <= u32::MAX,
        ensures
            r == self.feature_levels_requested@.len(),
    {
        self.feature_levels_requested.len() as u32
    }

    /// Takes the answer of the native layer to the levels asked for: the
    /// highest level that is supported, or the error of the query.
    pub fn check(self, queried: Result<i32, Error>) -> (r: Result<Self, Error>)
        ensures
            r == match queried {
                Ok(level) => Ok::<FeatureLevels, Error>(
                    FeatureLevels {
                        feature_levels_requested: self.feature_levels_requested,
                        max_supported_feature_level: level,
                    },
                ),
                Err(e) => Err::<FeatureLevels, Error>(e),
            },
    {
        match queried {
            Ok(level) => Ok(
                FeatureLevels {
                    feature_levels_requested: self.feature_levels_requested,
                    max_supported_feature_level: level,
                },
            ),
            Err(e) => Err(e),
        }
    }
}

/// A globally unique identifier.
#[derive(Clone, Copy, PartialEq, Eq, Debug)]
pub struct Guid {
    pub data1: u32,
    pub data2: u16,
    pub data3: u16,
    pub data4: [u8; 8],
}

/// The types of protected resource sessions that a node supports.
#[derive(Debug)]
pub struct ProtectedResourceSessionTypes {
    pub node_index: u32,
    pub types: Vec<Guid>,
}

/// The data that the query for the number of session types of a node is handed.
pub open spec fn count_request(node_index: u32) -> ProtectedResourceSessionTypeCountData {
    ProtectedResourceSessionTypeCountData { node_index, count: 0 }
}

/// What asking for the session types gives for the outcome of the second query.
pub open spec fn session_types(node_index: u32, listed: Result<Vec<Guid>, Error>) -> Result<
    ProtectedResourceSessionTypes,
    Error,
> {
    match listed {
        Ok(types) => Ok(ProtectedResourceSessionTypes { node_index, types }),
        Err(e) => Err(e),
    }
}

impl ProtectedResourceSessionTypes {
    pub fn new(node_index: u32) -> (r: Self)
        ensures
            r.node_index == node_index,
            r.types@.len() == 0,
    {
        ProtectedResourceSessionTypes { node_index, types: Vec::new() }
    }

    /// The identifier of the capability.
    pub const FEATURE: i32 = D3D12_FEATURE_PROTECTED_RESOURCE_SESSION_TYPES;

    /// Asks for the session types of the node, in two queries.
    ///
    /// First the number of types is asked for, by `count`, which is handed the
    /// data of that query. Where that fails its error is returned. Else the
    /// types are asked for, by `list`, which is handed the node and the number
    /// of types that the first query reported.
    pub fn check<C, L>(self, count: C, list: L) -> (r: Result<Self, Error>)
        where
            C: FnOnce(ProtectedResourceSessionTypeCountData) -> Result<
                ProtectedResourceSessionTypeCountData,
                Error,
            >,
            L: FnOnce(u32, u32) -> Result<Vec<Guid>, Error>,
        requires
            count.requires((count_request(self.node_index),)),
            forall|n: u32| #[trigger] list.requires((self.node_index, n)),
        ensures
            exists|counted: Result<ProtectedResourceSessionTypeCountData, Error>| #[trigger]
                count.ensures(
                    (count_request(self.node_index),),
                    counted,
                ) && match counted {
                    Err(e) => r == Err::<ProtectedResourceSessionTypes, Error>(e),
                    Ok(data) => exists|listed: Result<Vec<Guid>, Error>| #[trigger]
                        list.ensures((self.node_index, data.count), listed) && r == session_types(
                            self.node_index,
                            listed,
                        ),
                },
    {
        let request = ProtectedResourceSessionTypeCount::new(self.node_index);
        let data = request.query();
        let counted = count(data);
        match request.check(counted) {
            Err(e) => Err(e),
            Ok(answer) => {
                let listed = list(self.node_index, answer.count);
                let r = match listed {
                    Ok(types) => Ok(
                        ProtectedResourceSessionTypes { node_index: self.node_index, types },
                    ),
                    Err(e) => Err(e),
                };
                assert(list.ensures((self.node_index, counted.unwrap().count), listed));
                r
            },
        }
    }
}

} // verus!
