use crate::d3d12::{
    D3D12_DEFAULT_SHADER_4_COMPONENT_MAPPING, D3D12_DESCRIPTOR_HEAP_FLAG_NONE,
    D3D12_DSV_DIMENSION_TEXTURE1D, D3D12_DSV_DIMENSION_TEXTURE1DARRAY,
    D3D12_DSV_DIMENSION_TEXTURE2D, D3D12_DSV_DIMENSION_TEXTURE2DARRAY,
    D3D12_DSV_DIMENSION_TEXTURE2DMS, D3D12_DSV_DIMENSION_TEXTURE2DMSARRAY,
    D3D12_RTV_DIMENSION_BUFFER, D3D12_RTV_DIMENSION_TEXTURE1D, D3D12_RTV_DIMENSION_TEXTURE1DARRAY,
    D3D12_RTV_DIMENSION_TEXTURE2D, D3D12_RTV_DIMENSION_TEXTURE2DARRAY,
    D3D12_RTV_DIMENSION_TEXTURE2DMS, D3D12_RTV_DIMENSION_TEXTURE2DMSARRAY,
    D3D12_RTV_DIMENSION_TEXTURE3D, D3D12_SRV_DIMENSION_BUFFER,
    D3D12_SRV_DIMENSION_RAYTRACING_ACCELERATION_STRUCTURE, D3D12_SRV_DIMENSION_TEXTURE1D,
    D3D12_SRV_DIMENSION_TEXTURE1DARRAY, D3D12_SRV_DIMENSION_TEXTURE2D,
    D3D12_SRV_DIMENSION_TEXTURE2DARRAY, D3D12_SRV_DIMENSION_TEXTURE2DMS,
    D3D12_SRV_DIMENSION_TEXTURE2DMSARRAY, D3D12_SRV_DIMENSION_TEXTURE3D,
    D3D12_SRV_DIMENSION_TEXTURECUBE, D3D12_SRV_DIMENSION_TEXTURECUBEARRAY,
    D3D12_UAV_DIMENSION_BUFFER, D3D12_UAV_DIMENSION_TEXTURE1D, D3D12_UAV_DIMENSION_TEXTURE1DARRAY,
    D3D12_UAV_DIMENSION_TEXTURE2D, D3D12_UAV_DIMENSION_TEXTURE2DARRAY,
    D3D12_UAV_DIMENSION_TEXTURE2DMS, D3D12_UAV_DIMENSION_TEXTURE2DMSARRAY,
    D3D12_UAV_DIMENSION_TEXTURE3D,
};
use crate::descriptor_heap::descriptor_heap_type::{CbvSrvUav, Dsv, Rtv, Sampler};
use crate::device::Device;
use crate::resources::Resource;
use crate::utility::{
    name_as_str, name_from_text, name_view, text_view, Error, Float, Name, RawHandle,
};
use vstd::prelude::*;

pub mod descriptor_heap_type;
pub mod dimension;

verus! {

/// The kind of a descriptor heap: which views it holds.
///
/// A kind is a marker type. Heaps and the handles derived from them carry it as a
/// type parameter, so that a handle of one kind cannot be used where another kind
/// is asked for.
pub trait Type {
    /// The value by which the native layer knows the kind.
    const VALUE: i32;
}

/// The place of one descriptor in the address space of the CPU.
#[derive(Debug)]
pub struct CpuDescriptorHandle<T> {
    pub heap: RawHandle,
    pub ptr: usize,
    pub _t: core::marker::PhantomData<T>,
}

impl<T> CpuDescriptorHandle<T> {
    /// The address of the descriptor.
    pub fn handle(&self) -> (r: usize)
        ensures
            r == self.ptr,
    {
        self.ptr
    }
}

impl<T> Clone for CpuDescriptorHandle<T> {
    fn clone(&self) -> (r: Self)
        ensures
            r == *self,
    {
        CpuDescriptorHandle { _t: core::marker::PhantomData, ..*self }
    }
}

impl<T> Copy for CpuDescriptorHandle<T> {

}

/// The place of one descriptor in the address space of the GPU.
#[derive(Debug)]
pub struct GpuDescriptorHandle<T> {
    pub heap: RawHandle,
    pub ptr: u64,
    pub _t: core::marker::PhantomData<T>,
}

impl<T> GpuDescriptorHandle<T> {
    /// The address of the descriptor.
    pub fn handle(&self) -> (r: u64)
        ensures
            r == self.ptr,
    {
        self.ptr
    }
}

impl<T> Clone for GpuDescriptorHandle<T> {
    fn clone(&self) -> (r: Self)
        ensures
            r == *self,
    {
        GpuDescriptorHandle { _t: core::marker::PhantomData, ..*self }
    }
}

impl<T> Copy for GpuDescriptorHandle<T> {

}

#[derive(Clone, Copy, PartialEq, Eq, Structural, Debug)]
pub struct ConstantBufferViewDesc {
    pub buffer_location: u64,
    pub size_in_bytes: u32,
}

impl ConstantBufferViewDesc {
    pub fn new() -> (r: Self)
        ensures
            r.buffer_location == 0,
            r.size_in_bytes == 0,
    {
        ConstantBufferViewDesc { buffer_location: 0, size_in_bytes: 0 }
    }
    pub fn buffer_location(self, loc: u64) -> (r: Self)
        ensures
            r == (ConstantBufferViewDesc { buffer_location: loc, ..self }),
    {
        ConstantBufferViewDesc { buffer_location: loc, ..self }
    }
    pub fn size_in_bytes(self, size: u32) -> (r: Self)
        ensures
            r == (ConstantBufferViewDesc { size_in_bytes: size, ..self }),
    {
        ConstantBufferViewDesc { size_in_bytes: size, ..self }
    }
}

/// The description of a shader resource view. `T` is the dimension of the view and
/// decides which of the fields can be set.
#[derive(Debug)]
pub struct ShaderResourceViewDesc<T = ()> {
    pub format: i32,
    pub view_dimension: i32,
    pub shader_4_component_mapping: u32,
    pub first_element: u64,
    pub num_elements: u32,
    pub structure_byte_stride: u32,
    pub flags: i32,
    pub most_detailed_mip: u32,
    pub mip_levels: u32,
    pub resource_min_lod_clamp: Float,
    pub plane_slice: u32,
    pub first_array_slice: u32,
    pub array_size: u32,
    pub first_2d_array_face: u32,
    pub num_cubes: u32,
    pub location: u64,
    pub _t: core::marker::PhantomData<T>,
}

impl<T> Clone for ShaderResourceViewDesc<T> {
    fn clone(&self) -> (r: Self)
        ensures
            r == *self,
    {
        ShaderResourceViewDesc { _t: core::marker::PhantomData, ..*self }
    }
}

impl<T> Copy for ShaderResourceViewDesc<T> {

}

impl ShaderResourceViewDesc<()> {
    pub fn buffer() -> (r: ShaderResourceViewDesc<dimension::Buffer>)
        ensures
            r.format == 0,
            r.view_dimension == D3D12_SRV_DIMENSION_BUFFER,
            r.shader_4_component_mapping == D3D12_DEFAULT_SHADER_4_COMPONENT_MAPPING,
            r.first_element == 0,
            r.num_elements == 0,
            r.structure_byte_stride == 0,
            r.flags == 0,
            r.most_detailed_mip == 0,
            r.mip_levels == 0,
            r.resource_min_lod_clamp == (Float { bits: 0 }),
            r.plane_slice == 0,
            r.first_array_slice == 0,
            r.array_size == 0,
            r.first_2d_array_face == 0,
            r.num_cubes == 0,
            r.location == 0,
    {
        ShaderResourceViewDesc {
            format: 0,
            view_dimension: D3D12_SRV_DIMENSION_BUFFER,
            shader_4_component_mapping: D3D12_DEFAULT_SHADER_4_COMPONENT_MAPPING,
            first_element: 0,
            num_elements: 0,
            structure_byte_stride: 0,
            flags: 0,
            most_detailed_mip: 0,
            mip_levels: 0,
            resource_min_lod_clamp: (Float { bits: 0 }),
            plane_slice: 0,
            first_array_slice: 0,
            array_size: 0,
            first_2d_array_face: 0,
            num_cubes: 0,
            location: 0,
            _t: core::marker::PhantomData,
        }
    }
    pub fn texture1d() -> (r: ShaderResourceViewDesc<dimension::Texture1D>)
        ensures
            r.format == 0,
            r.view_dimension == D3D12_SRV_DIMENSION_TEXTURE1D,
            r.shader_4_component_mapping == D3D12_DEFAULT_SHADER_4_COMPONENT_MAPPING,
            r.first_element == 0,
            r.num_elements == 0,
            r.structure_byte_stride == 0,
            r.flags == 0,
            r.most_detailed_mip == 0,
            r.mip_levels == 0,
            r.resource_min_lod_clamp == (Float { bits: 0 }),
            r.plane_slice == 0,
            r.first_array_slice == 0,
            r.array_size == 0,
            r.first_2d_array_face == 0,
            r.num_cubes == 0,
            r.location == 0,
    {
        ShaderResourceViewDesc {
            format: 0,
            view_dimension: D3D12_SRV_DIMENSION_TEXTURE1D,
            shader_4_component_mapping: D3D12_DEFAULT_SHADER_4_COMPONENT_MAPPING,
            first_element: 0,
            num_elements: 0,
            structure_byte_stride: 0,
            flags: 0,
            most_detailed_mip: 0,
            mip_levels: 0,
            resource_min_lod_clamp: (Float { bits: 0 }),
            plane_slice: 0,
            first_array_slice: 0,
            array_size: 0,
            first_2d_array_face: 0,
            num_cubes: 0,
            location: 0,
            _t: core::marker::PhantomData,
        }
    }
    pub fn texture1d_array() -> (r: ShaderResourceViewDesc<dimension::Texture1DArray>)
        ensures
            r.format == 0,
            r.view_dimension == D3D12_SRV_DIMENSION_TEXTURE1DARRAY,
            r.shader_4_component_mapping == D3D12_DEFAULT_SHADER_4_COMPONENT_MAPPING,
            r.first_element == 0,
            r.num_elements == 0,
            r.structure_byte_stride == 0,
            r.flags == 0,
            r.most_detailed_mip == 0,
            r.mip_levels == 0,
            r.resource_min_lod_clamp == (Float { bits: 0 }),
            r.plane_slice == 0,
            r.first_array_slice == 0,
            r.array_size == 0,
            r.first_2d_array_face == 0,
            r.num_cubes == 0,
            r.location == 0,
    {
        ShaderResourceViewDesc {
            format: 0,
            view_dimension: D3D12_SRV_DIMENSION_TEXTURE1DARRAY,
            shader_4_component_mapping: D3D12_DEFAULT_SHADER_4_COMPONENT_MAPPING,
            first_element: 0,
            num_elements: 0,
            structure_byte_stride: 0,
            flags: 0,
            most_detailed_mip: 0,
            mip_levels: 0,
            resource_min_lod_clamp: (Float { bits: 0 }),
            plane_slice: 0,
            first_array_slice: 0,
            array_size: 0,
            first_2d_array_face: 0,
            num_cubes: 0,
            location: 0,
            _t: core::marker::PhantomData,
        }
    }
    pub fn texture2d() -> (r: ShaderResourceViewDesc<dimension::Texture2D>)
        ensures
            r.format == 0,
            r.view_dimension == D3D12_SRV_DIMENSION_TEXTURE2D,
            r.shader_4_component_mapping == D3D12_DEFAULT_SHADER_4_COMPONENT_MAPPING,
            r.first_element == 0,
            r.num_elements == 0,
            r.structure_byte_stride == 0,
            r.flags == 0,
            r.most_detailed_mip == 0,
            r.mip_levels == 0,
            r.resource_min_lod_clamp == (Float { bits: 0 }),
            r.plane_slice == 0,
            r.first_array_slice == 0,
            r.array_size == 0,
            r.first_2d_array_face == 0,
            r.num_cubes == 0,
            r.location == 0,
    {
        ShaderResourceViewDesc {
            format: 0,
            view_dimension: D3D12_SRV_DIMENSION_TEXTURE2D,
            shader_4_component_mapping: D3D12_DEFAULT_SHADER_4_COMPONENT_MAPPING,
            first_element: 0,
            num_elements: 0,
            structure_byte_stride: 0,
            flags: 0,
            most_detailed_mip: 0,
            mip_levels: 0,
            resource_min_lod_clamp: (Float { bits: 0 }),
            plane_slice: 0,
            first_array_slice: 0,
            array_size: 0,
            first_2d_array_face: 0,
            num_cubes: 0,
            location: 0,
            _t: core::marker::PhantomData,
        }
    }
    pub fn texture2d_array() -> (r: ShaderResourceViewDesc<dimension::Texture2DArray>)
        ensures
            r.format == 0,
            r.view_dimension == D3D12_SRV_DIMENSION_TEXTURE2DARRAY,
            r.shader_4_component_mapping == D3D12_DEFAULT_SHADER_4_COMPONENT_MAPPING,
            r.first_element == 0,
            r.num_elements == 0,
            r.structure_byte_stride == 0,
            r.flags == 0,
            r.most_detailed_mip == 0,
            r.mip_levels == 0,
            r.resource_min_lod_clamp == (Float { bits: 0 }),
            r.plane_slice == 0,
            r.first_array_slice == 0,
            r.array_size == 0,
            r.first_2d_array_face == 0,
            r.num_cubes == 0,
            r.location == 0,
    {
        ShaderResourceViewDesc {
            format: 0,
            view_dimension: D3D12_SRV_DIMENSION_TEXTURE2DARRAY,
            shader_4_component_mapping: D3D12_DEFAULT_SHADER_4_COMPONENT_MAPPING,
            first_element: 0,
            num_elements: 0,
            structure_byte_stride: 0,
            flags: 0,
            most_detailed_mip: 0,
            mip_levels: 0,
            resource_min_lod_clamp: (Float { bits: 0 }),
            plane_slice: 0,
            first_array_slice: 0,
            array_size: 0,
            first_2d_array_face: 0,
            num_cubes: 0,
            location: 0,
            _t: core::marker::PhantomData,
        }
    }
    pub fn texture2d_ms() -> (r: ShaderResourceViewDesc<dimension::Texture2DMs>)
        ensures
            r.format == 0,
            r.view_dimension == D3D12_SRV_DIMENSION_TEXTURE2DMS,
            r.shader_4_component_mapping == D3D12_DEFAULT_SHADER_4_COMPONENT_MAPPING,
            r.first_element == 0,
            r.num_elements == 0,
            r.structure_byte_stride == 0,
            r.flags == 0,
            r.most_detailed_mip == 0,
            r.mip_levels == 0,
            r.resource_min_lod_clamp == (Float { bits: 0 }),
            r.plane_slice == 0,
            r.first_array_slice == 0,
            r.array_size == 0,
            r.first_2d_array_face == 0,
            r.num_cubes == 0,
            r.location == 0,
    {
        ShaderResourceViewDesc {
            format: 0,
            view_dimension: D3D12_SRV_DIMENSION_TEXTURE2DMS,
            shader_4_component_mapping: D3D12_DEFAULT_SHADER_4_COMPONENT_MAPPING,
            first_element: 0,
            num_elements: 0,
            structure_byte_stride: 0,
            flags: 0,
            most_detailed_mip: 0,
            mip_levels: 0,
            resource_min_lod_clamp: (Float { bits: 0 }),
            plane_slice: 0,
            first_array_slice: 0,
            array_size: 0,
            first_2d_array_face: 0,
            num_cubes: 0,
            location: 0,
            _t: core::marker::PhantomData,
        }
    }
    pub fn texture2d_ms_array() -> (r: ShaderResourceViewDesc<dimension::Texture2DMsArray>)
        ensures
            r.format == 0,
            r.view_dimension == D3D12_SRV_DIMENSION_TEXTURE2DMSARRAY,
            r.shader_4_component_mapping == D3D12_DEFAULT_SHADER_4_COMPONENT_MAPPING,
            r.first_element == 0,
            r.num_elements == 0,
            r.structure_byte_stride == 0,
            r.flags == 0,
            r.most_detailed_mip == 0,
            r.mip_levels == 0,
            r.resource_min_lod_clamp == (Float { bits: 0 }),
            r.plane_slice == 0,
            r.first_array_slice == 0,
            r.array_size == 0,
            r.first_2d_array_face == 0,
            r.num_cubes == 0,
            r.location == 0,
    {
        ShaderResourceViewDesc {
            format: 0,
            view_dimension: D3D12_SRV_DIMENSION_TEXTURE2DMSARRAY,
            shader_4_component_mapping: D3D12_DEFAULT_SHADER_4_COMPONENT_MAPPING,
            first_element: 0,
            num_elements: 0,
            structure_byte_stride: 0,
            flags: 0,
            most_detailed_mip: 0,
            mip_levels: 0,
            resource_min_lod_clamp: (Float { bits: 0 }),
            plane_slice: 0,
            first_array_slice: 0,
            array_size: 0,
            first_2d_array_face: 0,
            num_cubes: 0,
            location: 0,
            _t: core::marker::PhantomData,
        }
    }
    pub fn texture3d() -> (r: ShaderResourceViewDesc<dimension::Texture3D>)
        ensures
            r.format == 0,
            r.view_dimension == D3D12_SRV_DIMENSION_TEXTURE3D,
            r.shader_4_component_mapping == D3D12_DEFAULT_SHADER_4_COMPONENT_MAPPING,
            r.first_element == 0,
            r.num_elements == 0,
            r.structure_byte_stride == 0,
            r.flags == 0,
            r.most_detailed_mip == 0,
            r.mip_levels == 0,
            r.resource_min_lod_clamp == (Float { bits: 0 }),
            r.plane_slice == 0,
            r.first_array_slice == 0,
            r.array_size == 0,
            r.first_2d_array_face == 0,
            r.num_cubes == 0,
            r.location == 0,
    {
        ShaderResourceViewDesc {
            format: 0,
            view_dimension: D3D12_SRV_DIMENSION_TEXTURE3D,
            shader_4_component_mapping: D3D12_DEFAULT_SHADER_4_COMPONENT_MAPPING,
            first_element: 0,
            num_elements: 0,
            structure_byte_stride: 0,
            flags: 0,
            most_detailed_mip: 0,
            mip_levels: 0,
            resource_min_lod_clamp: (Float { bits: 0 }),
            plane_slice: 0,
            first_array_slice: 0,
            array_size: 0,
            first_2d_array_face: 0,
            num_cubes: 0,
            location: 0,
            _t: core::marker::PhantomData,
        }
    }
    pub fn texture_cube() -> (r: ShaderResourceViewDesc<dimension::TextureCube>)
        ensures
            r.format == 0,
            r.view_dimension == D3D12_SRV_DIMENSION_TEXTURECUBE,
            r.shader_4_component_mapping == D3D12_DEFAULT_SHADER_4_COMPONENT_MAPPING,
            r.first_element == 0,
            r.num_elements == 0,
            r.structure_byte_stride == 0,
            r.flags == 0,
            r.most_detailed_mip == 0,
            r.mip_levels == 0,
            r.resource_min_lod_clamp == (Float { bits: 0 }),
            r.plane_slice == 0,
            r.first_array_slice == 0,
            r.array_size == 0,
            r.first_2d_array_face == 0,
            r.num_cubes == 0,
            r.location == 0,
    {
        ShaderResourceViewDesc {
            format: 0,
            view_dimension: D3D12_SRV_DIMENSION_TEXTURECUBE,
            shader_4_component_mapping: D3D12_DEFAULT_SHADER_4_COMPONENT_MAPPING,
            first_element: 0,
            num_elements: 0,
            structure_byte_stride: 0,
            flags: 0,
            most_detailed_mip: 0,
            mip_levels: 0,
            resource_min_lod_clamp: (Float { bits: 0 }),
            plane_slice: 0,
            first_array_slice: 0,
            array_size: 0,
            first_2d_array_face: 0,
            num_cubes: 0,
            location: 0,
            _t: core::marker::PhantomData,
        }
    }
    pub fn texture_cube_array() -> (r: ShaderResourceViewDesc<dimension::TextureCubeArray>)
        ensures
            r.format == 0,
            r.view_dimension == D3D12_SRV_DIMENSION_TEXTURECUBEARRAY,
            r.shader_4_component_mapping == D3D12_DEFAULT_SHADER_4_COMPONENT_MAPPING,
            r.first_element == 0,
            r.num_elements == 0,
            r.structure_byte_stride == 0,
            r.flags == 0,
            r.most_detailed_mip == 0,
            r.mip_levels == 0,
            r.resource_min_lod_clamp == (Float { bits: 0 }),
            r.plane_slice == 0,
            r.first_array_slice == 0,
            r.array_size == 0,
            r.first_2d_array_face == 0,
            r.num_cubes == 0,
            r.location == 0,
    {
        ShaderResourceViewDesc {
            format: 0,
            view_dimension: D3D12_SRV_DIMENSION_TEXTURECUBEARRAY,
            shader_4_component_mapping: D3D12_DEFAULT_SHADER_4_COMPONENT_MAPPING,
            first_element: 0,
            num_elements: 0,
            structure_byte_stride: 0,
            flags: 0,
            most_detailed_mip: 0,
            mip_levels: 0,
            resource_min_lod_clamp: (Float { bits: 0 }),
            plane_slice: 0,
            first_array_slice: 0,
            array_size: 0,
            first_2d_array_face: 0,
            num_cubes: 0,
            location: 0,
            _t: core::marker::PhantomData,
        }
    }
    pub fn raytracing_acceleration_structure() -> (
        r: ShaderResourceViewDesc<dimension::RaytracingAccelerationStructure>
    )
        ensures
            r.format == 0,
            r.view_dimension == D3D12_SRV_DIMENSION_RAYTRACING_ACCELERATION_STRUCTURE,
            r.shader_4_component_mapping == D3D12_DEFAULT_SHADER_4_COMPONENT_MAPPING,
            r.first_element == 0,
            r.num_elements == 0,
            r.structure_byte_stride == 0,
            r.flags == 0,
            r.most_detailed_mip == 0,
            r.mip_levels == 0,
            r.resource_min_lod_clamp == (Float { bits: 0 }),
            r.plane_slice == 0,
            r.first_array_slice == 0,
            r.array_size == 0,
            r.first_2d_array_face == 0,
            r.num_cubes == 0,
            r.location == 0,
    {
        ShaderResourceViewDesc {
            format: 0,
            view_dimension: D3D12_SRV_DIMENSION_RAYTRACING_ACCELERATION_STRUCTURE,
            shader_4_component_mapping: D3D12_DEFAULT_SHADER_4_COMPONENT_MAPPING,
            first_element: 0,
            num_elements: 0,
            structure_byte_stride: 0,
            flags: 0,
            most_detailed_mip: 0,
            mip_levels: 0,
            resource_min_lod_clamp: (Float { bits: 0 }),
            plane_slice: 0,
            first_array_slice: 0,
            array_size: 0,
            first_2d_array_face: 0,
            num_cubes: 0,
            location: 0,
            _t: core::marker::PhantomData,
        }
    }
    /// No description: the view is then created with the defaults of the resource.
    pub fn none() -> (r: Option<Self>)
        ensures
            r.is_none(),
    {
        None
    }
}

impl<T> ShaderResourceViewDesc<T> {
    pub fn format(self, format: i32) -> (r: Self)
        ensures
            r == (ShaderResourceViewDesc { format, ..self }),
    {
        ShaderResourceViewDesc { format, ..self }
    }
    pub fn shader_4_component_mapping(self, mapping: u32) -> (r: Self)
        ensures
            r == (ShaderResourceViewDesc { shader_4_component_mapping: mapping, ..self }),
    {
        ShaderResourceViewDesc { shader_4_component_mapping: mapping, ..self }
    }
}

impl ShaderResourceViewDesc<dimension::Buffer> {
    pub fn first_element(self, element: u64) -> (r: Self)
        ensures
            r == (ShaderResourceViewDesc { first_element: element, ..self }),
    {
        ShaderResourceViewDesc { first_element: element, ..self }
    }
    pub fn num_elements(self, n: u32) -> (r: Self)
        ensures
            r == (ShaderResourceViewDesc { num_elements: n, ..self }),
    {
        ShaderResourceViewDesc { num_elements: n, ..self }
    }
    pub fn structure_byte_stride(self, stride: u32) -> (r: Self)
        ensures
            r == (ShaderResourceViewDesc { structure_byte_stride: stride, ..self }),
    {
        ShaderResourceViewDesc { structure_byte_stride: stride, ..self }
    }
    pub fn flags(self, flags: i32) -> (r: Self)
        ensures
            r == (ShaderResourceViewDesc { flags, ..self }),
    {
        ShaderResourceViewDesc { flags, ..self }
    }
}

impl ShaderResourceViewDesc<dimension::Texture1D> {
    pub fn most_detailed_mip(self, mip: u32) -> (r: Self)
        ensures
            r == (ShaderResourceViewDesc { most_detailed_mip: mip, ..self }),
    {
        ShaderResourceViewDesc { most_detailed_mip: mip, ..self }
    }
    pub fn mip_levels(self, levels: u32) -> (r: Self)
        ensures
            r == (ShaderResourceViewDesc { mip_levels: levels, ..self }),
    {
        ShaderResourceViewDesc { mip_levels: levels, ..self }
    }
    pub fn resource_min_lod_clamp(self, clamp: Float) -> (r: Self)
        ensures
            r == (ShaderResourceViewDesc { resource_min_lod_clamp: clamp, ..self }),
    {
        ShaderResourceViewDesc { resource_min_lod_clamp: clamp, ..self }
    }
}

impl ShaderResourceViewDesc<dimension::Texture1DArray> {
    pub fn most_detailed_mip(self, mip: u32) -> (r: Self)
        ensures
            r == (ShaderResourceViewDesc { most_detailed_mip: mip, ..self }),
    {
        ShaderResourceViewDesc { most_detailed_mip: mip, ..self }
    }
    pub fn mip_levels(self, levels: u32) -> (r: Self)
        ensures
            r == (ShaderResourceViewDesc { mip_levels: levels, ..self }),
    {
        ShaderResourceViewDesc { mip_levels: levels, ..self }
    }
    pub fn resource_min_lod_clamp(self, clamp: Float) -> (r: Self)
        ensures
            r == (ShaderResourceViewDesc { resource_min_lod_clamp: clamp, ..self }),
    {
        ShaderResourceViewDesc { resource_min_lod_clamp: clamp, ..self }
    }
    pub fn first_array_slice(self, slice: u32) -> (r: Self)
        ensures
            r == (ShaderResourceViewDesc { first_array_slice: slice, ..self }),
    {
        ShaderResourceViewDesc { first_array_slice: slice, ..self }
    }
    pub fn array_size(self, size: u32) -> (r: Self)
        ensures
            r == (ShaderResourceViewDesc { array_size: size, ..self }),
    {
        ShaderResourceViewDesc { array_size: size, ..self }
    }
}

impl ShaderResourceViewDesc<dimension::Texture2D> {
    pub fn most_detailed_mip(self, mip: u32) -> (r: Self)
        ensures
            r == (ShaderResourceViewDesc { most_detailed_mip: mip, ..self }),
    {
        ShaderResourceViewDesc { most_detailed_mip: mip, ..self }
    }
    pub fn mip_levels(self, levels: u32) -> (r: Self)
        ensures
            r == (ShaderResourceViewDesc { mip_levels: levels, ..self }),
    {
        ShaderResourceViewDesc { mip_levels: levels, ..self }
    }
    pub fn resource_min_lod_clamp(self, clamp: Float) -> (r: Self)
        ensures
            r == (ShaderResourceViewDesc { resource_min_lod_clamp: clamp, ..self }),
    {
        ShaderResourceViewDesc { resource_min_lod_clamp: clamp, ..self }
    }
    pub fn plane_slice(self, slice: u32) -> (r: Self)
        ensures
            r == (ShaderResourceViewDesc { plane_slice: slice, ..self }),
    {
        ShaderResourceViewDesc { plane_slice: slice, ..self }
    }
}

impl ShaderResourceViewDesc<dimension::Texture2DArray> {
    pub fn most_detailed_mip(self, mip: u32) -> (r: Self)
        ensures
            r == (ShaderResourceViewDesc { most_detailed_mip: mip, ..self }),
    {
        ShaderResourceViewDesc { most_detailed_mip: mip, ..self }
    }
    pub fn mip_levels(self, levels: u32) -> (r: Self)
        ensures
            r == (ShaderResourceViewDesc { mip_levels: levels, ..self }),
    {
        ShaderResourceViewDesc { mip_levels: levels, ..self }
    }
    pub fn resource_min_lod_clamp(self, clamp: Float) -> (r: Self)
        ensures
            r == (ShaderResourceViewDesc { resource_min_lod_clamp: clamp, ..self }),
    {
        ShaderResourceViewDesc { resource_min_lod_clamp: clamp, ..self }
    }
    pub fn plane_slice(self, slice: u32) -> (r: Self)
        ensures
            r == (ShaderResourceViewDesc { plane_slice: slice, ..self }),
    {
        ShaderResourceViewDesc { plane_slice: slice, ..self }
    }
    pub fn first_array_slice(self, slice: u32) -> (r: Self)
        ensures
            r == (ShaderResourceViewDesc { first_array_slice: slice, ..self }),
    {
        ShaderResourceViewDesc { first_array_slice: slice, ..self }
    }
    pub fn array_size(self, size: u32) -> (r: Self)
        ensures
            r == (ShaderResourceViewDesc { array_size: size, ..self }),
    {
        ShaderResourceViewDesc { array_size: size, ..self }
    }
}

impl ShaderResourceViewDesc<dimension::Texture2DMsArray> {
    pub fn first_array_slice(self, slice: u32) -> (r: Self)
        ensures
            r == (ShaderResourceViewDesc { first_array_slice: slice, ..self }),
    {
        ShaderResourceViewDesc { first_array_slice: slice, ..self }
    }
    pub fn array_size(self, size: u32) -> (r: Self)
        ensures
            r == (ShaderResourceViewDesc { array_size: size, ..self }),
    {
        ShaderResourceViewDesc { array_size: size, ..self }
    }
}

impl ShaderResourceViewDesc<dimension::Texture3D> {
    pub fn most_detailed_mip(self, mip: u32) -> (r: Self)
        ensures
            r == (ShaderResourceViewDesc { most_detailed_mip: mip, ..self }),
    {
        ShaderResourceViewDesc { most_detailed_mip: mip, ..self }
    }
    pub fn mip_levels(self, levels: u32) -> (r: Self)
        ensures
            r == (ShaderResourceViewDesc { mip_levels: levels, ..self }),
    {
        ShaderResourceViewDesc { mip_levels: levels, ..self }
    }
    pub fn resource_min_lod_clamp(self, clamp: Float) -> (r: Self)
        ensures
            r == (ShaderResourceViewDesc { resource_min_lod_clamp: clamp, ..self }),
    {
        ShaderResourceViewDesc { resource_min_lod_clamp: clamp, ..self }
    }
}

impl ShaderResourceViewDesc<dimension::TextureCube> {
    pub fn most_detailed_mip(self, mip: u32) -> (r: Self)
        ensures
            r == (ShaderResourceViewDesc { most_detailed_mip: mip, ..self }),
    {
        ShaderResourceViewDesc { most_detailed_mip: mip, ..self }
    }
    pub fn mip_levels(self, levels: u32) -> (r: Self)
        ensures
            r == (ShaderResourceViewDesc { mip_levels: levels, ..self }),
    {
        ShaderResourceViewDesc { mip_levels: levels, ..self }
    }
    pub fn resource_min_lod_clamp(self, clamp: Float) -> (r: Self)
        ensures
            r == (ShaderResourceViewDesc { resource_min_lod_clamp: clamp, ..self }),
    {
        ShaderResourceViewDesc { resource_min_lod_clamp: clamp, ..self }
    }
}

impl ShaderResourceViewDesc<dimension::TextureCubeArray> {
    pub fn most_detailed_mip(self, mip: u32) -> (r: Self)
        ensures
            r == (ShaderResourceViewDesc { most_detailed_mip: mip, ..self }),
    {
        ShaderResourceViewDesc { most_detailed_mip: mip, ..self }
    }
    pub fn mip_levels(self, levels: u32) -> (r: Self)
        ensures
            r == (ShaderResourceViewDesc { mip_levels: levels, ..self }),
    {
        ShaderResourceViewDesc { mip_levels: levels, ..self }
    }
    pub fn resource_min_lod_clamp(self, clamp: Float) -> (r: Self)
        ensures
            r == (ShaderResourceViewDesc { resource_min_lod_clamp: clamp, ..self }),
    {
        ShaderResourceViewDesc { resource_min_lod_clamp: clamp, ..self }
    }
    pub fn first_2d_array_face(self, face: u32) -> (r: Self)
        ensures
            r == (ShaderResourceViewDesc { first_2d_array_face: face, ..self }),
    {
        ShaderResourceViewDesc { first_2d_array_face: face, ..self }
    }
    pub fn num_cubes(self, n: u32) -> (r: Self)
        ensures
            r == (ShaderResourceViewDesc { num_cubes: n, ..self }),
    {
        ShaderResourceViewDesc { num_cubes: n, ..self }
    }
}

impl ShaderResourceViewDesc<dimension::RaytracingAccelerationStructure> {
    pub fn location(self, loc: u64) -> (r: Self)
        ensures
            r == (ShaderResourceViewDesc { location: loc, ..self }),
    {
        ShaderResourceViewDesc { location: loc, ..self }
    }
}

/// The description of an unordered access view. `T` is the dimension of the view
/// and decides which of the fields can be set.
#[derive(Debug)]
pub struct UnorderedAccessViewDesc<T = ()> {
    pub format: i32,
    pub view_dimension: i32,
    pub first_element: u64,
    pub num_elements: u32,
    pub structure_byte_stride: u32,
    pub counter_offset_in_bytes: u64,
    pub flags: i32,
    pub mip_slice: u32,
    pub plane_slice: u32,
    pub first_array_slice: u32,
    pub array_size: u32,
    pub first_w_slice: u32,
    pub w_size: u32,
    pub _t: core::marker::PhantomData<T>,
}

impl<T> Clone for UnorderedAccessViewDesc<T> {
    fn clone(&self) -> (r: Self)
        ensures
            r == *self,
    {
        UnorderedAccessViewDesc { _t: core::marker::PhantomData, ..*self }
    }
}

impl<T> Copy for UnorderedAccessViewDesc<T> {

}

impl UnorderedAccessViewDesc<()> {
    pub fn buffer() -> (r: UnorderedAccessViewDesc<dimension::Buffer>)
        ensures
            r.format == 0,
            r.view_dimension == D3D12_UAV_DIMENSION_BUFFER,
            r.first_element == 0,
            r.num_elements == 0,
            r.structure_byte_stride == 0,
            r.counter_offset_in_bytes == 0,
            r.flags == 0,
            r.mip_slice == 0,
            r.plane_slice == 0,
            r.first_array_slice == 0,
            r.array_size == 0,
            r.first_w_slice == 0,
            r.w_size == 0,
    {
        UnorderedAccessViewDesc {
            format: 0,
            view_dimension: D3D12_UAV_DIMENSION_BUFFER,
            first_element: 0,
            num_elements: 0,
            structure_byte_stride: 0,
            counter_offset_in_bytes: 0,
            flags: 0,
            mip_slice: 0,
            plane_slice: 0,
            first_array_slice: 0,
            array_size: 0,
            first_w_slice: 0,
            w_size: 0,
            _t: core::marker::PhantomData,
        }
    }
    pub fn texture1d() -> (r: UnorderedAccessViewDesc<dimension::Texture1D>)
        ensures
            r.format == 0,
            r.view_dimension == D3D12_UAV_DIMENSION_TEXTURE1D,
            r.first_element == 0,
            r.num_elements == 0,
            r.structure_byte_stride == 0,
            r.counter_offset_in_bytes == 0,
            r.flags == 0,
            r.mip_slice == 0,
            r.plane_slice == 0,
            r.first_array_slice == 0,
            r.array_size == 0,
            r.first_w_slice == 0,
            r.w_size == 0,
    {
        UnorderedAccessViewDesc {
            format: 0,
            view_dimension: D3D12_UAV_DIMENSION_TEXTURE1D,
            first_element: 0,
            num_elements: 0,
            structure_byte_stride: 0,
            counter_offset_in_bytes: 0,
            flags: 0,
            mip_slice: 0,
            plane_slice: 0,
            first_array_slice: 0,
            array_size: 0,
            first_w_slice: 0,
            w_size: 0,
            _t: core::marker::PhantomData,
        }
    }
    pub fn texture1d_array() -> (r: UnorderedAccessViewDesc<dimension::Texture1DArray>)
        ensures
            r.format == 0,
            r.view_dimension == D3D12_UAV_DIMENSION_TEXTURE1DARRAY,
            r.first_element == 0,
            r.num_elements == 0,
            r.structure_byte_stride == 0,
            r.counter_offset_in_bytes == 0,
            r.flags == 0,
            r.mip_slice == 0,
            r.plane_slice == 0,
            r.first_array_slice == 0,
            r.array_size == 0,
            r.first_w_slice == 0,
            r.w_size == 0,
    {
        UnorderedAccessViewDesc {
            format: 0,
            view_dimension: D3D12_UAV_DIMENSION_TEXTURE1DARRAY,
            first_element: 0,
            num_elements: 0,
            structure_byte_stride: 0,
            counter_offset_in_bytes: 0,
            flags: 0,
            mip_slice: 0,
            plane_slice: 0,
            first_array_slice: 0,
            array_size: 0,
            first_w_slice: 0,
            w_size: 0,
            _t: core::marker::PhantomData,
        }
    }
    pub fn texture2d() -> (r: UnorderedAccessViewDesc<dimension::Texture2D>)
        ensures
            r.format == 0,
            r.view_dimension == D3D12_UAV_DIMENSION_TEXTURE2D,
            r.first_element == 0,
            r.num_elements == 0,
            r.structure_byte_stride == 0,
            r.counter_offset_in_bytes == 0,
            r.flags == 0,
            r.mip_slice == 0,
            r.plane_slice == 0,
            r.first_array_slice == 0,
            r.array_size == 0,
            r.first_w_slice == 0,
            r.w_size == 0,
    {
        UnorderedAccessViewDesc {
            format: 0,
            view_dimension: D3D12_UAV_DIMENSION_TEXTURE2D,
            first_element: 0,
            num_elements: 0,
            structure_byte_stride: 0,
            counter_offset_in_bytes: 0,
            flags: 0,
            mip_slice: 0,
            plane_slice: 0,
            first_array_slice: 0,
            array_size: 0,
            first_w_slice: 0,
            w_size: 0,
            _t: core::marker::PhantomData,
        }
    }
    pub fn texture2d_array() -> (r: UnorderedAccessViewDesc<dimension::Texture2DArray>)
        ensures
            r.format == 0,
            r.view_dimension == D3D12_UAV_DIMENSION_TEXTURE2DARRAY,
            r.first_element == 0,
            r.num_elements == 0,
            r.structure_byte_stride == 0,
            r.counter_offset_in_bytes == 0,
            r.flags == 0,
            r.mip_slice == 0,
            r.plane_slice == 0,
            r.first_array_slice == 0,
            r.array_size == 0,
            r.first_w_slice == 0,
            r.w_size == 0,
    {
        UnorderedAccessViewDesc {
            format: 0,
            view_dimension: D3D12_UAV_DIMENSION_TEXTURE2DARRAY,
            first_element: 0,
            num_elements: 0,
            structure_byte_stride: 0,
            counter_offset_in_bytes: 0,
            flags: 0,
            mip_slice: 0,
            plane_slice: 0,
            first_array_slice: 0,
            array_size: 0,
            first_w_slice: 0,
            w_size: 0,
            _t: core::marker::PhantomData,
        }
    }
    pub fn texture2d_ms() -> (r: UnorderedAccessViewDesc<dimension::Texture2DMs>)
        ensures
            r.format == 0,
            r.view_dimension == D3D12_UAV_DIMENSION_TEXTURE2DMS,
            r.first_element == 0,
            r.num_elements == 0,
            r.structure_byte_stride == 0,
            r.counter_offset_in_bytes == 0,
            r.flags == 0,
            r.mip_slice == 0,
            r.plane_slice == 0,
            r.first_array_slice == 0,
            r.array_size == 0,
            r.first_w_slice == 0,
            r.w_size == 0,
    {
        UnorderedAccessViewDesc {
            format: 0,
            view_dimension: D3D12_UAV_DIMENSION_TEXTURE2DMS,
            first_element: 0,
            num_elements: 0,
            structure_byte_stride: 0,
            counter_offset_in_bytes: 0,
            flags: 0,
            mip_slice: 0,
            plane_slice: 0,
            first_array_slice: 0,
            array_size: 0,
            first_w_slice: 0,
            w_size: 0,
            _t: core::marker::PhantomData,
        }
    }
    pub fn texture2d_ms_array() -> (r: UnorderedAccessViewDesc<dimension::Texture2DMsArray>)
        ensures
            r.format == 0,
            r.view_dimension == D3D12_UAV_DIMENSION_TEXTURE2DMSARRAY,
            r.first_element == 0,
            r.num_elements == 0,
            r.structure_byte_stride == 0,
            r.counter_offset_in_bytes == 0,
            r.flags == 0,
            r.mip_slice == 0,
            r.plane_slice == 0,
            r.first_array_slice == 0,
            r.array_size == 0,
            r.first_w_slice == 0,
            r.w_size == 0,
    {
        UnorderedAccessViewDesc {
            format: 0,
            view_dimension: D3D12_UAV_DIMENSION_TEXTURE2DMSARRAY,
            first_element: 0,
            num_elements: 0,
            structure_byte_stride: 0,
            counter_offset_in_bytes: 0,
            flags: 0,
            mip_slice: 0,
            plane_slice: 0,
            first_array_slice: 0,
            array_size: 0,
            first_w_slice: 0,
            w_size: 0,
            _t: core::marker::PhantomData,
        }
    }
    pub fn texture3d() -> (r: UnorderedAccessViewDesc<dimension::Texture3D>)
        ensures
            r.format == 0,
            r.view_dimension == D3D12_UAV_DIMENSION_TEXTURE3D,
            r.first_element == 0,
            r.num_elements == 0,
            r.structure_byte_stride == 0,
            r.counter_offset_in_bytes == 0,
            r.flags == 0,
            r.mip_slice == 0,
            r.plane_slice == 0,
            r.first_array_slice == 0,
            r.array_size == 0,
            r.first_w_slice == 0,
            r.w_size == 0,
    {
        UnorderedAccessViewDesc {
            format: 0,
            view_dimension: D3D12_UAV_DIMENSION_TEXTURE3D,
            first_element: 0,
            num_elements: 0,
            structure_byte_stride: 0,
            counter_offset_in_bytes: 0,
            flags: 0,
            mip_slice: 0,
            plane_slice: 0,
            first_array_slice: 0,
            array_size: 0,
            first_w_slice: 0,
            w_size: 0,
            _t: core::marker::PhantomData,
        }
    }
    /// No description: the view is then created with the defaults of the resource.
    pub fn none() -> (r: Option<Self>)
        ensures
            r.is_none(),
    {
        None
    }
}

impl<T> UnorderedAccessViewDesc<T> {
    pub fn format(self, format: i32) -> (r: Self)
        ensures
            r == (UnorderedAccessViewDesc { format, ..self }),
    {
        UnorderedAccessViewDesc { format, ..self }
    }
}

impl UnorderedAccessViewDesc<dimension::Buffer> {
    pub fn first_element(self, element: u64) -> (r: Self)
        ensures
            r == (UnorderedAccessViewDesc { first_element: element, ..self }),
    {
        UnorderedAccessViewDesc { first_element: element, ..self }
    }
    pub fn num_elements(self, n: u32) -> (r: Self)
        ensures
            r == (UnorderedAccessViewDesc { num_elements: n, ..self }),
    {
        UnorderedAccessViewDesc { num_elements: n, ..self }
    }
    pub fn structure_byte_stride(self, stride: u32) -> (r: Self)
        ensures
            r == (UnorderedAccessViewDesc { structure_byte_stride: stride, ..self }),
    {
        UnorderedAccessViewDesc { structure_byte_stride: stride, ..self }
    }
    pub fn counter_offset_in_bytes(self, offset: u64) -> (r: Self)
        ensures
            r == (UnorderedAccessViewDesc { counter_offset_in_bytes: offset, ..self }),
    {
        UnorderedAccessViewDesc { counter_offset_in_bytes: offset, ..self }
    }
    pub fn flags(self, flags: i32) -> (r: Self)
        ensures
            r == (UnorderedAccessViewDesc { flags, ..self }),
    {
        UnorderedAccessViewDesc { flags, ..self }
    }
}

impl UnorderedAccessViewDesc<dimension::Texture1D> {
    pub fn mip_slice(self, slice: u32) -> (r: Self)
        ensures
            r == (UnorderedAccessViewDesc { mip_slice: slice, ..self }),
    {
        UnorderedAccessViewDesc { mip_slice: slice, ..self }
    }
}

impl UnorderedAccessViewDesc<dimension::Texture1DArray> {
    pub fn mip_slice(self, slice: u32) -> (r: Self)
        ensures
            r == (UnorderedAccessViewDesc { mip_slice: slice, ..self }),
    {
        UnorderedAccessViewDesc { mip_slice: slice, ..self }
    }
    pub fn first_array_slice(self, slice: u32) -> (r: Self)
        ensures
            r == (UnorderedAccessViewDesc { first_array_slice: slice, ..self }),
    {
        UnorderedAccessViewDesc { first_array_slice: slice, ..self }
    }
    pub fn array_size(self, size: u32) -> (r: Self)
        ensures
            r == (UnorderedAccessViewDesc { array_size: size, ..self }),
    {
        UnorderedAccessViewDesc { array_size: size, ..self }
    }
}

impl UnorderedAccessViewDesc<dimension::Texture2D> {
    pub fn mip_slice(self, slice: u32) -> (r: Self)
        ensures
            r == (UnorderedAccessViewDesc { mip_slice: slice, ..self }),
    {
        UnorderedAccessViewDesc { mip_slice: slice, ..self }
    }
    pub fn plane_slice(self, slice: u32) -> (r: Self)
        ensures
            r == (UnorderedAccessViewDesc { plane_slice: slice, ..self }),
    {
        UnorderedAccessViewDesc { plane_slice: slice, ..self }
    }
}

impl UnorderedAccessViewDesc<dimension::Texture2DArray> {
    pub fn mip_slice(self, slice: u32) -> (r: Self)
        ensures
            r == (UnorderedAccessViewDesc { mip_slice: slice, ..self }),
    {
        UnorderedAccessViewDesc { mip_slice: slice, ..self }
    }
    pub fn plane_slice(self, slice: u32) -> (r: Self)
        ensures
            r == (UnorderedAccessViewDesc { plane_slice: slice, ..self }),
    {
        UnorderedAccessViewDesc { plane_slice: slice, ..self }
    }
    pub fn first_array_slice(self, slice: u32) -> (r: Self)
        ensures
            r == (UnorderedAccessViewDesc { first_array_slice: slice, ..self }),
    {
        UnorderedAccessViewDesc { first_array_slice: slice, ..self }
    }
    pub fn array_size(self, size: u32) -> (r: Self)
        ensures
            r == (UnorderedAccessViewDesc { array_size: size, ..self }),
    {
        UnorderedAccessViewDesc { array_size: size, ..self }
    }
}

impl UnorderedAccessViewDesc<dimension::Texture2DMsArray> {
    pub fn first_array_slice(self, slice: u32) -> (r: Self)
        ensures
            r == (UnorderedAccessViewDesc { first_array_slice: slice, ..self }),
    {
        UnorderedAccessViewDesc { first_array_slice: slice, ..self }
    }
    pub fn array_size(self, size: u32) -> (r: Self)
        ensures
            r == (UnorderedAccessViewDesc { array_size: size, ..self }),
    {
        UnorderedAccessViewDesc { array_size: size, ..self }
    }
}

impl UnorderedAccessViewDesc<dimension::Texture3D> {
    pub fn mip_slice(self, slice: u32) -> (r: Self)
        ensures
            r == (UnorderedAccessViewDesc { mip_slice: slice, ..self }),
    {
        UnorderedAccessViewDesc { mip_slice: slice, ..self }
    }
    pub fn first_w_slice(self, slice: u32) -> (r: Self)
        ensures
            r == (UnorderedAccessViewDesc { first_w_slice: slice, ..self }),
    {
        UnorderedAccessViewDesc { first_w_slice: slice, ..self }
    }
    pub fn w_size(self, size: u32) -> (r: Self)
        ensures
            r == (UnorderedAccessViewDesc { w_size: size, ..self }),
    {
        UnorderedAccessViewDesc { w_size: size, ..self }
    }
}

/// The description of a render target view. `T` is the dimension of the view and
/// decides which of the fields can be set.
#[derive(Debug)]
pub struct RenderTargetViewDesc<T = ()> {
    pub format: i32,
    pub view_dimension: i32,
    pub first_element: u64,
    pub num_elements: u32,
    pub mip_slice: u32,
    pub plane_slice: u32,
    pub first_array_slice: u32,
    pub array_size: u32,
    pub first_w_slice: u32,
    pub w_size: u32,
    pub _t: core::marker::PhantomData<T>,
}

impl<T> Clone for RenderTargetViewDesc<T> {
    fn clone(&self) -> (r: Self)
        ensures
            r == *self,
    {
        RenderTargetViewDesc { _t: core::marker::PhantomData, ..*self }
    }
}

impl<T> Copy for RenderTargetViewDesc<T> {

}

impl RenderTargetViewDesc<()> {
    pub fn buffer() -> (r: RenderTargetViewDesc<dimension::Buffer>)
        ensures
            r.format == 0,
            r.view_dimension == D3D12_RTV_DIMENSION_BUFFER,
            r.first_element == 0,
            r.num_elements == 0,
            r.mip_slice == 0,
            r.plane_slice == 0,
            r.first_array_slice == 0,
            r.array_size == 0,
            r.first_w_slice == 0,
            r.w_size == 0,
    {
        RenderTargetViewDesc {
            format: 0,
            view_dimension: D3D12_RTV_DIMENSION_BUFFER,
            first_element: 0,
            num_elements: 0,
            mip_slice: 0,
            plane_slice: 0,
            first_array_slice: 0,
            array_size: 0,
            first_w_slice: 0,
            w_size: 0,
            _t: core::marker::PhantomData,
        }
    }
    pub fn texture1d() -> (r: RenderTargetViewDesc<dimension::Texture1D>)
        ensures
            r.format == 0,
            r.view_dimension == D3D12_RTV_DIMENSION_TEXTURE1D,
            r.first_element == 0,
            r.num_elements == 0,
            r.mip_slice == 0,
            r.plane_slice == 0,
            r.first_array_slice == 0,
            r.array_size == 0,
            r.first_w_slice == 0,
            r.w_size == 0,
    {
        RenderTargetViewDesc {
            format: 0,
            view_dimension: D3D12_RTV_DIMENSION_TEXTURE1D,
            first_element: 0,
            num_elements: 0,
            mip_slice: 0,
            plane_slice: 0,
            first_array_slice: 0,
            array_size: 0,
            first_w_slice: 0,
            w_size: 0,
            _t: core::marker::PhantomData,
        }
    }
    pub fn texture1d_array() -> (r: RenderTargetViewDesc<dimension::Texture1DArray>)
        ensures
            r.format == 0,
            r.view_dimension == D3D12_RTV_DIMENSION_TEXTURE1DARRAY,
            r.first_element == 0,
            r.num_elements == 0,
            r.mip_slice == 0,
            r.plane_slice == 0,
            r.first_array_slice == 0,
            r.array_size == 0,
            r.first_w_slice == 0,
            r.w_size == 0,
    {
        RenderTargetViewDesc {
            format: 0,
            view_dimension: D3D12_RTV_DIMENSION_TEXTURE1DARRAY,
            first_element: 0,
            num_elements: 0,
            mip_slice: 0,
            plane_slice: 0,
            first_array_slice: 0,
            array_size: 0,
            first_w_slice: 0,
            w_size: 0,
            _t: core::marker::PhantomData,
        }
    }
    pub fn texture2d() -> (r: RenderTargetViewDesc<dimension::Texture2D>)
        ensures
            r.format == 0,
            r.view_dimension == D3D12_RTV_DIMENSION_TEXTURE2D,
            r.first_element == 0,
            r.num_elements == 0,
            r.mip_slice == 0,
            r.plane_slice == 0,
            r.first_array_slice == 0,
            r.array_size == 0,
            r.first_w_slice == 0,
            r.w_size == 0,
    {
        RenderTargetViewDesc {
            format: 0,
            view_dimension: D3D12_RTV_DIMENSION_TEXTURE2D,
            first_element: 0,
            num_elements: 0,
            mip_slice: 0,
            plane_slice: 0,
            first_array_slice: 0,
            array_size: 0,
            first_w_slice: 0,
            w_size: 0,
            _t: core::marker::PhantomData,
        }
    }
    pub fn texture2d_array() -> (r: RenderTargetViewDesc<dimension::Texture2DArray>)
        ensures
            r.format == 0,
            r.view_dimension == D3D12_RTV_DIMENSION_TEXTURE2DARRAY,
            r.first_element == 0,
            r.num_elements == 0,
            r.mip_slice == 0,
            r.plane_slice == 0,
            r.first_array_slice == 0,
            r.array_size == 0,
            r.first_w_slice == 0,
            r.w_size == 0,
    {
        RenderTargetViewDesc {
            format: 0,
            view_dimension: D3D12_RTV_DIMENSION_TEXTURE2DARRAY,
            first_element: 0,
            num_elements: 0,
            mip_slice: 0,
            plane_slice: 0,
            first_array_slice: 0,
            array_size: 0,
            first_w_slice: 0,
            w_size: 0,
            _t: core::marker::PhantomData,
        }
    }
    pub fn texture2d_ms() -> (r: RenderTargetViewDesc<dimension::Texture2DMs>)
        ensures
            r.format == 0,
            r.view_dimension == D3D12_RTV_DIMENSION_TEXTURE2DMS,
            r.first_element == 0,
            r.num_elements == 0,
            r.mip_slice == 0,
            r.plane_slice == 0,
            r.first_array_slice == 0,
            r.array_size == 0,
            r.first_w_slice == 0,
            r.w_size == 0,
    {
        RenderTargetViewDesc {
            format: 0,
            view_dimension: D3D12_RTV_DIMENSION_TEXTURE2DMS,
            first_element: 0,
            num_elements: 0,
            mip_slice: 0,
            plane_slice: 0,
            first_array_slice: 0,
            array_size: 0,
            first_w_slice: 0,
            w_size: 0,
            _t: core::marker::PhantomData,
        }
    }
    pub fn texture2d_ms_array() -> (r: RenderTargetViewDesc<dimension::Texture2DMsArray>)
        ensures
            r.format == 0,
            r.view_dimension == D3D12_RTV_DIMENSION_TEXTURE2DMSARRAY,
            r.first_element == 0,
            r.num_elements == 0,
            r.mip_slice == 0,
            r.plane_slice == 0,
            r.first_array_slice == 0,
            r.array_size == 0,
            r.first_w_slice == 0,
            r.w_size == 0,
    {
        RenderTargetViewDesc {
            format: 0,
            view_dimension: D3D12_RTV_DIMENSION_TEXTURE2DMSARRAY,
            first_element: 0,
            num_elements: 0,
            mip_slice: 0,
            plane_slice: 0,
            first_array_slice: 0,
            array_size: 0,
            first_w_slice: 0,
            w_size: 0,
            _t: core::marker::PhantomData,
        }
    }
    pub fn texture3d() -> (r: RenderTargetViewDesc<dimension::Texture3D>)
        ensures
            r.format == 0,
            r.view_dimension == D3D12_RTV_DIMENSION_TEXTURE3D,
            r.first_element == 0,
            r.num_elements == 0,
            r.mip_slice == 0,
            r.plane_slice == 0,
            r.first_array_slice == 0,
            r.array_size == 0,
            r.first_w_slice == 0,
            r.w_size == 0,
    {
        RenderTargetViewDesc {
            format: 0,
            view_dimension: D3D12_RTV_DIMENSION_TEXTURE3D,
            first_element: 0,
            num_elements: 0,
            mip_slice: 0,
            plane_slice: 0,
            first_array_slice: 0,
            array_size: 0,
            first_w_slice: 0,
            w_size: 0,
            _t: core::marker::PhantomData,
        }
    }
    /// No description: the view is then created with the defaults of the resource.
    pub fn none() -> (r: Option<Self>)
        ensures
            r.is_none(),
    {
        None
    }
}

impl RenderTargetViewDesc<dimension::Buffer> {
    pub fn first_element(self, element: u64) -> (r: Self)
        ensures
            r == (RenderTargetViewDesc { first_element: element, ..self }),
    {
        RenderTargetViewDesc { first_element: element, ..self }
    }
    pub fn num_elements(self, n: u32) -> (r: Self)
        ensures
            r == (RenderTargetViewDesc { num_elements: n, ..self }),
    {
        RenderTargetViewDesc { num_elements: n, ..self }
    }
}

impl RenderTargetViewDesc<dimension::Texture1D> {
    pub fn mip_slice(self, slice: u32) -> (r: Self)
        ensures
            r == (RenderTargetViewDesc { mip_slice: slice, ..self }),
    {
        RenderTargetViewDesc { mip_slice: slice, ..self }
    }
}

impl RenderTargetViewDesc<dimension::Texture1DArray> {
    pub fn mip_slice(self, slice: u32) -> (r: Self)
        ensures
            r == (RenderTargetViewDesc { mip_slice: slice, ..self }),
    {
        RenderTargetViewDesc { mip_slice: slice, ..self }
    }
    pub fn first_array_slice(self, slice: u32) -> (r: Self)
        ensures
            r == (RenderTargetViewDesc { first_array_slice: slice, ..self }),
    {
        RenderTargetViewDesc { first_array_slice: slice, ..self }
    }
    pub fn array_size(self, size: u32) -> (r: Self)
        ensures
            r == (RenderTargetViewDesc { array_size: size, ..self }),
    {
        RenderTargetViewDesc { array_size: size, ..self }
    }
}

impl RenderTargetViewDesc<dimension::Texture2D> {
    pub fn mip_slice(self, slice: u32) -> (r: Self)
        ensures
            r == (RenderTargetViewDesc { mip_slice: slice, ..self }),
    {
        RenderTargetViewDesc { mip_slice: slice, ..self }
    }
    pub fn plane_slice(self, slice: u32) -> (r: Self)
        ensures
            r == (RenderTargetViewDesc { plane_slice: slice, ..self }),
    {
        RenderTargetViewDesc { plane_slice: slice, ..self }
    }
}

impl RenderTargetViewDesc<dimension::Texture2DArray> {
    pub fn mip_slice(self, slice: u32) -> (r: Self)
        ensures
            r == (RenderTargetViewDesc { mip_slice: slice, ..self }),
    {
        RenderTargetViewDesc { mip_slice: slice, ..self }
    }
    pub fn plane_slice(self, slice: u32) -> (r: Self)
        ensures
            r == (RenderTargetViewDesc { plane_slice: slice, ..self }),
    {
        RenderTargetViewDesc { plane_slice: slice, ..self }
    }
    pub fn first_array_slice(self, slice: u32) -> (r: Self)
        ensures
            r == (RenderTargetViewDesc { first_array_slice: slice, ..self }),
    {
        RenderTargetViewDesc { first_array_slice: slice, ..self }
    }
    pub fn array_size(self, size: u32) -> (r: Self)
        ensures
            r == (RenderTargetViewDesc { array_size: size, ..self }),
    {
        RenderTargetViewDesc { array_size: size, ..self }
    }
}

impl RenderTargetViewDesc<dimension::Texture2DMsArray> {
    pub fn first_array_slice(self, slice: u32) -> (r: Self)
        ensures
            r == (RenderTargetViewDesc { first_array_slice: slice, ..self }),
    {
        RenderTargetViewDesc { first_array_slice: slice, ..self }
    }
    pub fn array_size(self, size: u32) -> (r: Self)
        ensures
            r == (RenderTargetViewDesc { array_size: size, ..self }),
    {
        RenderTargetViewDesc { array_size: size, ..self }
    }
}

impl RenderTargetViewDesc<dimension::Texture3D> {
    pub fn mip_slice(self, slice: u32) -> (r: Self)
        ensures
            r == (RenderTargetViewDesc { mip_slice: slice, ..self }),
    {
        RenderTargetViewDesc { mip_slice: slice, ..self }
    }
    pub fn first_w_slice(self, slice: u32) -> (r: Self)
        ensures
            r == (RenderTargetViewDesc { first_w_slice: slice, ..self }),
    {
        RenderTargetViewDesc { first_w_slice: slice, ..self }
    }
    pub fn w_size(self, size: u32) -> (r: Self)
        ensures
            r == (RenderTargetViewDesc { w_size: size, ..self }),
    {
        RenderTargetViewDesc { w_size: size, ..self }
    }
}

/// The description of a depth stencil view. `T` is the dimension of the view and
/// decides which of the fields can be set.
#[derive(Debug)]
pub struct DepthStencilViewDesc<T = ()> {
    pub format: i32,
    pub view_dimension: i32,
    pub flags: i32,
    pub mip_slice: u32,
    pub first_array_slice: u32,
    pub array_size: u32,
    pub _t: core::marker::PhantomData<T>,
}

impl<T> Clone for DepthStencilViewDesc<T> {
    fn clone(&self) -> (r: Self)
        ensures
            r == *self,
    {
        DepthStencilViewDesc { _t: core::marker::PhantomData, ..*self }
    }
}

impl<T> Copy for DepthStencilViewDesc<T> {

}

impl DepthStencilViewDesc<()> {
    pub fn texture1d() -> (r: DepthStencilViewDesc<dimension::Texture1D>)
        ensures
            r.format == 0,
            r.view_dimension == D3D12_DSV_DIMENSION_TEXTURE1D,
            r.flags == 0,
            r.mip_slice == 0,
            r.first_array_slice == 0,
            r.array_size == 0,
    {
        DepthStencilViewDesc {
            format: 0,
            view_dimension: D3D12_DSV_DIMENSION_TEXTURE1D,
            flags: 0,
            mip_slice: 0,
            first_array_slice: 0,
            array_size: 0,
            _t: core::marker::PhantomData,
        }
    }
    pub fn texture1d_array() -> (r: DepthStencilViewDesc<dimension::Texture1DArray>)
        ensures
            r.format == 0,
            r.view_dimension == D3D12_DSV_DIMENSION_TEXTURE1DARRAY,
            r.flags == 0,
            r.mip_slice == 0,
            r.first_array_slice == 0,
            r.array_size == 0,
    {
        DepthStencilViewDesc {
            format: 0,
            view_dimension: D3D12_DSV_DIMENSION_TEXTURE1DARRAY,
            flags: 0,
            mip_slice: 0,
            first_array_slice: 0,
            array_size: 0,
            _t: core::marker::PhantomData,
        }
    }
    pub fn texture2d() -> (r: DepthStencilViewDesc<dimension::Texture2D>)
        ensures
            r.format == 0,
            r.view_dimension == D3D12_DSV_DIMENSION_TEXTURE2D,
            r.flags == 0,
            r.mip_slice == 0,
            r.first_array_slice == 0,
            r.array_size == 0,
    {
        DepthStencilViewDesc {
            format: 0,
            view_dimension: D3D12_DSV_DIMENSION_TEXTURE2D,
            flags: 0,
            mip_slice: 0,
            first_array_slice: 0,
            array_size: 0,
            _t: core::marker::PhantomData,
        }
    }
    pub fn texture2d_array() -> (r: DepthStencilViewDesc<dimension::Texture2DArray>)
        ensures
            r.format == 0,
            r.view_dimension == D3D12_DSV_DIMENSION_TEXTURE2DARRAY,
            r.flags == 0,
            r.mip_slice == 0,
            r.first_array_slice == 0,
            r.array_size == 0,
    {
        DepthStencilViewDesc {
            format: 0,
            view_dimension: D3D12_DSV_DIMENSION_TEXTURE2DARRAY,
            flags: 0,
            mip_slice: 0,
            first_array_slice: 0,
            array_size: 0,
            _t: core::marker::PhantomData,
        }
    }
    pub fn texture2d_ms() -> (r: DepthStencilViewDesc<dimension::Texture2DMs>)
        ensures
            r.format == 0,
            r.view_dimension == D3D12_DSV_DIMENSION_TEXTURE2DMS,
            r.flags == 0,
            r.mip_slice == 0,
            r.first_array_slice == 0,
            r.array_size == 0,
    {
        DepthStencilViewDesc {
            format: 0,
            view_dimension: D3D12_DSV_DIMENSION_TEXTURE2DMS,
            flags: 0,
            mip_slice: 0,
            first_array_slice: 0,
            array_size: 0,
            _t: core::marker::PhantomData,
        }
    }
    pub fn texture2d_ms_array() -> (r: DepthStencilViewDesc<dimension::Texture2DMsArray>)
        ensures
            r.format == 0,
            r.view_dimension == D3D12_DSV_DIMENSION_TEXTURE2DMSARRAY,
            r.flags == 0,
            r.mip_slice == 0,
            r.first_array_slice == 0,
            r.array_size == 0,
    {
        DepthStencilViewDesc {
            format: 0,
            view_dimension: D3D12_DSV_DIMENSION_TEXTURE2DMSARRAY,
            flags: 0,
            mip_slice: 0,
            first_array_slice: 0,
            array_size: 0,
            _t: core::marker::PhantomData,
        }
    }
    /// No description: the view is then created with the defaults of the resource.
    pub fn none() -> (r: Option<Self>)
        ensures
            r.is_none(),
    {
        None
    }
}

impl<T> DepthStencilViewDesc<T> {
    pub fn flags(self, flags: i32) -> (r: Self)
        ensures
            r == (DepthStencilViewDesc { flags, ..self }),
    {
        DepthStencilViewDesc { flags, ..self }
    }
}

impl DepthStencilViewDesc<dimension::Texture1D> {
    pub fn mip_slice(self, slice: u32) -> (r: Self)
        ensures
            r == (DepthStencilViewDesc { mip_slice: slice, ..self }),
    {
        DepthStencilViewDesc { mip_slice: slice, ..self }
    }
}

impl DepthStencilViewDesc<dimension::Texture1DArray> {
    pub fn mip_slice(self, slice: u32) -> (r: Self)
        ensures
            r == (DepthStencilViewDesc { mip_slice: slice, ..self }),
    {
        DepthStencilViewDesc { mip_slice: slice, ..self }
    }
    pub fn first_array_slice(self, slice: u32) -> (r: Self)
        ensures
            r == (DepthStencilViewDesc { first_array_slice: slice, ..self }),
    {
        DepthStencilViewDesc { first_array_slice: slice, ..self }
    }
    pub fn array_size(self, size: u32) -> (r: Self)
        ensures
            r == (DepthStencilViewDesc { array_size: size, ..self }),
    {
        DepthStencilViewDesc { array_size: size, ..self }
    }
}

impl DepthStencilViewDesc<dimension::Texture2D> {
    pub fn mip_slice(self, slice: u32) -> (r: Self)
        ensures
            r == (DepthStencilViewDesc { mip_slice: slice, ..self }),
    {
        DepthStencilViewDesc { mip_slice: slice, ..self }
    }
}

impl DepthStencilViewDesc<dimension::Texture2DArray> {
    pub fn mip_slice(self, slice: u32) -> (r: Self)
        ensures
            r == (DepthStencilViewDesc { mip_slice: slice, ..self }),
    {
        DepthStencilViewDesc { mip_slice: slice, ..self }
    }
    pub fn first_array_slice(self, slice: u32) -> (r: Self)
        ensures
            r == (DepthStencilViewDesc { first_array_slice: slice, ..self }),
    {
        DepthStencilViewDesc { first_array_slice: slice, ..self }
    }
    pub fn array_size(self, size: u32) -> (r: Self)
        ensures
            r == (DepthStencilViewDesc { array_size: size, ..self }),
    {
        DepthStencilViewDesc { array_size: size, ..self }
    }
}

impl DepthStencilViewDesc<dimension::Texture2DMsArray> {
    pub fn first_array_slice(self, slice: u32) -> (r: Self)
        ensures
            r == (DepthStencilViewDesc { first_array_slice: slice, ..self }),
    {
        DepthStencilViewDesc { first_array_slice: slice, ..self }
    }
    pub fn array_size(self, size: u32) -> (r: Self)
        ensures
            r == (DepthStencilViewDesc { array_size: size, ..self }),
    {
        DepthStencilViewDesc { array_size: size, ..self }
    }
}

#[derive(Clone, Copy, PartialEq, Eq, Debug)]
pub struct SamplerDesc {
    pub filter: i32,
    pub address_u: i32,
    pub address_v: i32,
    pub address_w: i32,
    pub mip_lod_bias: Float,
    pub max_anisotropy: u32,
    pub comparison_func: i32,
    pub border_color: [Float; 4],
    pub min_lod: Float,
    pub max_lod: Float,
}

impl SamplerDesc {
    pub fn new() -> (r: Self)
        ensures
            r.filter == 0,
            r.address_u == 0,
            r.address_v == 0,
            r.address_w == 0,
            r.mip_lod_bias == (Float { bits: 0 }),
            r.max_anisotropy == 0,
            r.comparison_func == 0,
            r.border_color@ == seq![
                Float { bits: 0 },
                Float { bits: 0 },
                Float { bits: 0 },
                Float { bits: 0 },
            ],
            r.min_lod == (Float { bits: 0 }),
            r.max_lod == (Float { bits: 0 }),
    {
        SamplerDesc {
            filter: 0,
            address_u: 0,
            address_v: 0,
            address_w: 0,
            mip_lod_bias: (Float { bits: 0 }),
            max_anisotropy: 0,
            comparison_func: 0,
            border_color: [
                Float { bits: 0 },
                Float { bits: 0 },
                Float { bits: 0 },
                Float { bits: 0 },
            ],
            min_lod: (Float { bits: 0 }),
            max_lod: (Float { bits: 0 }),
        }
    }
    pub fn filter(self, filter: i32) -> (r: Self)
        ensures
            r == (SamplerDesc { filter, ..self }),
    {
        SamplerDesc { filter, ..self }
    }
    pub fn address_u(self, mode: i32) -> (r: Self)
        ensures
            r == (SamplerDesc { address_u: mode, ..self }),
    {
        SamplerDesc { address_u: mode, ..self }
    }
    pub fn address_v(self, mode: i32) -> (r: Self)
        ensures
            r == (SamplerDesc { address_v: mode, ..self }),
    {
        SamplerDesc { address_v: mode, ..self }
    }
    pub fn address_w(self, mode: i32) -> (r: Self)
        ensures
            r == (SamplerDesc { address_w: mode, ..self }),
    {
        SamplerDesc { address_w: mode, ..self }
    }
    pub fn mip_lod_bias(self, bias: Float) -> (r: Self)
        ensures
            r == (SamplerDesc { mip_lod_bias: bias, ..self }),
    {
        SamplerDesc { mip_lod_bias: bias, ..self }
    }
    pub fn max_anisotropy(self, anisotropy: u32) -> (r: Self)
        ensures
            r == (SamplerDesc { max_anisotropy: anisotropy, ..self }),
    {
        SamplerDesc { max_anisotropy: anisotropy, ..self }
    }
    pub fn comparison_func(self, func: i32) -> (r: Self)
        ensures
            r == (SamplerDesc { comparison_func: func, ..self }),
    {
        SamplerDesc { comparison_func: func, ..self }
    }
    pub fn border_color(self, color: [Float; 4]) -> (r: Self)
        ensures
            r == (SamplerDesc { border_color: color, ..self }),
    {
        SamplerDesc { border_color: color, ..self }
    }
    pub fn min_lod(self, lod: Float) -> (r: Self)
        ensures
            r == (SamplerDesc { min_lod: lod, ..self }),
    {
        SamplerDesc { min_lod: lod, ..self }
    }
    pub fn max_lod(self, lod: Float) -> (r: Self)
        ensures
            r == (SamplerDesc { max_lod: lod, ..self }),
    {
        SamplerDesc { max_lod: lod, ..self }
    }
}

/// The description of a descriptor heap, as the native layer takes it.
#[derive(Clone, Copy, PartialEq, Eq, Structural, Debug)]
pub struct DescriptorHeapDesc {
    pub ty: i32,
    pub num_descriptors: u32,
    pub flags: i32,
    pub node_mask: u32,
}

/// The mark of a builder that has not been told a length yet.
#[derive(Clone, Copy, PartialEq, Eq, Debug)]
pub struct NoLen;

/// Collects what a descriptor heap is created from. The heap can be built once
/// its length is set.
pub struct Builder<T, Len = NoLen> {
    pub device: RawHandle,
    pub desc: DescriptorHeapDesc,
    pub name: Option<String>,
    pub _t: core::marker::PhantomData<T>,
    pub _len: core::marker::PhantomData<Len>,
}

impl<T: Type> Builder<T, NoLen> {
    pub(crate) fn new(device: RawHandle) -> (r: Self)
        ensures
            r.device == device,
            r.desc == (DescriptorHeapDesc {
                ty: T::VALUE,
                num_descriptors: 0,
                flags: D3D12_DESCRIPTOR_HEAP_FLAG_NONE,
                node_mask: 0,
            }),
            r.name.is_none(),
    {
        Builder {
            device,
            desc: DescriptorHeapDesc {
                ty: T::VALUE,
                num_descriptors: 0,
                flags: D3D12_DESCRIPTOR_HEAP_FLAG_NONE,
                node_mask: 0,
            },
            name: None,
            _t: core::marker::PhantomData,
            _len: core::marker::PhantomData,
        }
    }
}

impl<T, Len> Builder<T, Len> {
    /// Sets the number of descriptors, which has to fit in 32 bits.
    pub fn len(self, len: usize) -> (r: Builder<T, u32>)
        requires
            len <= u32::MAX,
        ensures
            r.device == self.device,
            r.desc == (DescriptorHeapDesc { num_descriptors: len as u32, ..self.desc }),
            r.name == self.name,
    {
        Builder {
            device: self.device,
            desc: DescriptorHeapDesc { num_descriptors: len as u32, ..self.desc },
            name: self.name,
            _t: core::marker::PhantomData,
            _len: core::marker::PhantomData,
        }
    }

    pub fn flags(self, flags: i32) -> (r: Self)
        ensures
            r.device == self.device,
            r.desc == (DescriptorHeapDesc { flags, ..self.desc }),
            r.name == self.name,
    {
        Builder { desc: DescriptorHeapDesc { flags, ..self.desc }, ..self }
    }

    pub fn node_mask(self, mask: u32) -> (r: Self)
        ensures
            r.device == self.device,
            r.desc == (DescriptorHeapDesc { node_mask: mask, ..self.desc }),
            r.name == self.name,
    {
        Builder { desc: DescriptorHeapDesc { node_mask: mask, ..self.desc }, ..self }
    }

    pub fn name(self, name: &str) -> (r: Self)
        ensures
            text_view(r.name) == Some(name@),
            r.device == self.device,
            r.desc == self.desc,
    {
        Builder { name: Some(name.to_owned()), ..self }
    }
}

/// What the native layer reports of a descriptor heap that it created: the heap,
/// the distance between two descriptors of its kind, which only the driver knows,
/// and where the heap starts for the CPU and for the GPU.
#[derive(Clone, Copy, PartialEq, Eq, Structural, Debug)]
pub struct RawDescriptorHeap {
    pub raw: RawHandle,
    pub increment: u32,
    pub cpu_start: usize,
    pub gpu_start: u64,
}

impl<T: Type> Builder<T, u32> {
    /// Takes the outcome of the native calls that create the heap from the
    /// description of this builder and query its increment and its start.
    pub fn build(self, created: Result<RawDescriptorHeap, Error>) -> (r: Result<
        DescriptorHeap<T>,
        Error,
    >)
        ensures
            match created {
                Ok(heap) => {
                    &&& r.is_ok()
                    &&& r.unwrap().device == self.device
                    &&& r.unwrap().raw == heap.raw
                    &&& r.unwrap().len == self.desc.num_descriptors
                    &&& r.unwrap().inc == heap.increment
                    &&& r.unwrap().cpu_start == heap.cpu_start
                    &&& r.unwrap().gpu_start == heap.gpu_start
                    &&& name_view(r.unwrap().name) == text_view(self.name)
                },
                Err(e) => r == Err::<DescriptorHeap<T>, Error>(e),
            },
    {
        match created {
            Ok(heap) => Ok(
                DescriptorHeap {
                    device: self.device,
                    raw: heap.raw,
                    len: self.desc.num_descriptors as usize,
                    inc: heap.increment as usize,
                    cpu_start: heap.cpu_start,
                    gpu_start: heap.gpu_start,
                    name: name_from_text(&self.name),
                    _t: core::marker::PhantomData,
                },
            ),
            Err(e) => Err(e),
        }
    }
}

/// One end of a range of indices.
#[derive(Clone, Copy, PartialEq, Eq, Structural, Debug)]
pub enum RangeBound {
    Unbounded,
    Included(usize),
    Excluded(usize),
}

/// The first index of a range that starts at `bound`.
pub open spec fn range_start(bound: RangeBound) -> int {
    match bound {
        RangeBound::Unbounded => 0,
        RangeBound::Included(v) => v as int,
        RangeBound::Excluded(v) => v + 1,
    }
}

/// The index after the last of a range that ends at `bound`, in a heap of `len`.
pub open spec fn range_end(bound: RangeBound, len: usize) -> int {
    match bound {
        RangeBound::Unbounded => len as int,
        RangeBound::Included(v) => v + 1,
        RangeBound::Excluded(v) => v as int,
    }
}

/// What a copy of descriptors hands to the native layer.
#[derive(Clone, Copy, PartialEq, Eq, Structural, Debug)]
pub struct DescriptorCopy {
    pub num_descriptors: u32,
    pub dest_start: usize,
    pub src_start: usize,
    pub ty: i32,
}

/// What the creation of a view hands to the native layer: the descriptor that is
/// written, the resources that the view is of, and the description.
#[derive(Clone, Copy, Debug)]
pub struct ViewWrite<D> {
    pub dest: usize,
    pub resource: Option<RawHandle>,
    pub counter_resource: Option<RawHandle>,
    pub desc: Option<D>,
}

/// A table of descriptors of one kind, of a fixed length.
#[derive(Debug)]
pub struct DescriptorHeap<T = ()> {
    pub device: RawHandle,
    pub raw: RawHandle,
    pub len: usize,
    pub inc: usize,
    pub cpu_start: usize,
    pub gpu_start: u64,
    pub name: Option<Name>,
    pub _t: core::marker::PhantomData<T>,
}

impl DescriptorHeap<()> {
    pub fn new_cbv_srv_uav(device: &Device) -> (r: Builder<CbvSrvUav>)
        ensures
            r.device == device.raw,
            r.desc.ty == CbvSrvUav::VALUE,
            r.name.is_none(),
    {
        Builder::new(device.raw)
    }

    pub fn new_rtv(device: &Device) -> (r: Builder<Rtv>)
        ensures
            r.device == device.raw,
            r.desc.ty == Rtv::VALUE,
            r.name.is_none(),
    {
        Builder::new(device.raw)
    }

    pub fn new_dsv(device: &Device) -> (r: Builder<Dsv>)
        ensures
            r.device == device.raw,
            r.desc.ty == Dsv::VALUE,
            r.name.is_none(),
    {
        Builder::new(device.raw)
    }

    pub fn new_sampler(device: &Device) -> (r: Builder<Sampler>)
        ensures
            r.device == device.raw,
            r.desc.ty == Sampler::VALUE,
            r.name.is_none(),
    {
        Builder::new(device.raw)
    }
}

impl<T> DescriptorHeap<T> {
    /// The address of the descriptor at `index` for the CPU.
    pub open spec fn cpu_ptr(&self, index: int) -> int {
        self.cpu_start + self.inc * index
    }

    /// The address of the descriptor at `index` for the GPU.
    pub open spec fn gpu_ptr(&self, index: int) -> int {
        self.gpu_start + self.inc * index
    }

    /// Whether the addresses of all descriptors of the heap fit the machine.
    pub open spec fn addressable(&self) -> bool {
        self.cpu_ptr(self.len as int) <= usize::MAX && self.gpu_ptr(self.len as int) <= u64::MAX
    }
}

impl<T: Type> DescriptorHeap<T> {
    pub fn len(&self) -> (r: usize)
        ensures
            r == self.len,
    {
        self.len
    }

    /// The handle of the descriptor at `index` for the CPU, which lies `index`
    /// increments behind the start of the heap.
    pub fn cpu_handle(&self, index: usize) -> (r: CpuDescriptorHandle<T>)
        requires
            index < self.len,
            self.cpu_ptr(index as int) <= usize::MAX,
        ensures
            r.heap == self.raw,
            r.ptr == self.cpu_ptr(index as int),
    {
        let step: usize = self.inc * index;
        CpuDescriptorHandle {
            heap: self.raw,
            ptr: self.cpu_start + step,
            _t: core::marker::PhantomData,
        }
    }

    /// The handle of the descriptor at `index` for the GPU, which lies `index`
    /// increments behind the start of the heap.
    pub fn gpu_handle(&self, index: usize) -> (r: GpuDescriptorHandle<T>)
        requires
            index < self.len,
            self.inc * index <= usize::MAX,
            self.gpu_ptr(index as int) <= u64::MAX,
        ensures
            r.heap == self.raw,
            r.ptr == self.gpu_ptr(index as int),
    {
        let step: usize = self.inc * index;
        GpuDescriptorHandle {
            heap: self.raw,
            ptr: self.gpu_start + (step as u64),
            _t: core::marker::PhantomData,
        }
    }

    /// Decides what a copy of descriptors hands to the native layer.
    ///
    /// The range runs from `src_start` to `src_end`, the latter read against
    /// the length of `src`. The copy is handed the number of indices in the
    /// range, the descriptor of this heap at the first index of the range, and the
    /// descriptor of `src` at `dest_start`, in this order.
    pub fn copy_range(
        &self,
        src: &DescriptorHeap<T>,
        src_start: RangeBound,
        src_end: RangeBound,
        dest_start: usize,
    ) -> (r: DescriptorCopy)
        requires
            range_start(src_start) <= range_end(src_end, src.len) <= usize::MAX,
            range_end(src_end, src.len) - range_start(src_start) <= u32::MAX,
            range_start(src_start) < self.len,
            dest_start < src.len,
            self.cpu_ptr(range_start(src_start)) <= usize::MAX,
            src.cpu_ptr(dest_start as int) <= usize::MAX,
        ensures
            r.num_descriptors == range_end(src_end, src.len) - range_start(src_start),
            r.dest_start == self.cpu_ptr(range_start(src_start)),
            r.src_start == src.cpu_ptr(dest_start as int),
            r.ty == T::VALUE,
    {
        let start: usize = match src_start {
            RangeBound::Unbounded => 0,
            RangeBound::Included(v) => v,
            RangeBound::Excluded(v) => v + 1,
        };
        let end: usize = match src_end {
            RangeBound::Unbounded => src.len(),
            RangeBound::Included(v) => v + 1,
            RangeBound::Excluded(v) => v,
        };
        let len: usize = end - start;
        DescriptorCopy {
            num_descriptors: len as u32,
            dest_start: self.cpu_handle(start).ptr,
            src_start: src.cpu_handle(dest_start).ptr,
            ty: T::VALUE,
        }
    }

    pub fn handle(&self) -> (r: RawHandle)
        ensures
            r == self.raw,
    {
        self.raw
    }

    pub fn name(&self) -> (r: Option<&str>)
        ensures
            r.is_some() == self.name.is_some(),
            r.is_some() ==> r.unwrap()@ == self.name.unwrap().text@,
    {
        name_as_str(&self.name)
    }

    /// Records the debug name that the native object is given.
    pub fn set_name(&mut self, name: &str)
        ensures
            final(self).raw == old(self).raw,
            final(self).device == old(self).device,
            final(self).len == old(self).len,
            final(self).inc == old(self).inc,
            final(self).cpu_start == old(self).cpu_start,
            final(self).gpu_start == old(self).gpu_start,
            name_view(final(self).name) == Some(name@),
    {
        self.name = Some(Name::new(name));
    }

    /// Whether two heaps are the same native object.
    pub fn same(&self, other: &DescriptorHeap<T>) -> (r: bool)
        ensures
            r == (self.raw == other.raw),
    {
        self.raw == other.raw
    }
}

/// Two neighbouring descriptors of a heap lie one increment apart, for the CPU
/// and for the GPU, and the first descriptor lies at the start of the heap.
pub proof fn lemma_handles_one_increment_apart<T>(heap: DescriptorHeap<T>, index: int)
    ensures
        heap.cpu_ptr(index + 1) - heap.cpu_ptr(index) == heap.inc,
        heap.gpu_ptr(index + 1) - heap.gpu_ptr(index) == heap.inc,
        heap.cpu_ptr(0) == heap.cpu_start,
        heap.gpu_ptr(0) == heap.gpu_start,
{
    assert(heap.inc * (index + 1) == heap.inc * index + heap.inc) by (nonlinear_arith);
}

/// In a heap whose descriptors all fit the machine, every index below the length
/// has a handle.
pub proof fn lemma_addressable_heap<T>(heap: DescriptorHeap<T>, index: int)
    requires
        heap.addressable(),
        0 <= index < heap.len,
    ensures
        heap.cpu_ptr(index) <= usize::MAX,
        heap.gpu_ptr(index) <= u64::MAX,
        heap.inc * index <= usize::MAX,
{
    assert(heap.inc * index <= heap.inc * heap.len) by (nonlinear_arith)
        requires
            0 <= index < heap.len,
            heap.inc >= 0,
    ;
}

impl DescriptorHeap<CbvSrvUav> {
    pub fn new(device: &Device) -> (r: Builder<CbvSrvUav>)
        ensures
            r.device == device.raw,
            r.desc.ty == CbvSrvUav::VALUE,
            r.name.is_none(),
    {
        Builder::new(device.raw)
    }

    /// Decides what the creation of a constant buffer view at `index` is handed.
    pub fn create_constant_buffer_view(
        &mut self,
        index: usize,
        desc: Option<&ConstantBufferViewDesc>,
    ) -> (r: ViewWrite<ConstantBufferViewDesc>)
        requires
            index < old(self).len,
            old(self).cpu_ptr(index as int) <= usize::MAX,
        ensures
            *final(self) == *old(self),
            r.dest == old(self).cpu_ptr(index as int),
            r.resource.is_none(),
            r.counter_resource.is_none(),
            r.desc == match desc {
                Some(d) => Some(*d),
                None => None,
            },
    {
        ViewWrite {
            dest: self.cpu_handle(index).handle(),
            resource: None,
            counter_resource: None,
            desc: match desc {
                Some(d) => Some(*d),
                None => None,
            },
        }
    }

    /// Decides what the creation of a shader resource view at `index` is handed.
    pub fn create_shader_resource_view<U>(
        &mut self,
        index: usize,
        resource: &Resource,
        desc: Option<&ShaderResourceViewDesc<U>>,
    ) -> (r: ViewWrite<ShaderResourceViewDesc<U>>)
        requires
            index < old(self).len,
            old(self).cpu_ptr(index as int) <= usize::MAX,
        ensures
            *final(self) == *old(self),
            r.dest == old(self).cpu_ptr(index as int),
            r.resource == Some(resource.raw),
            r.counter_resource.is_none(),
            r.desc == match desc {
                Some(d) => Some(*d),
                None => None,
            },
    {
        ViewWrite {
            dest: self.cpu_handle(index).handle(),
            resource: Some(resource.raw),
            counter_resource: None,
            desc: match desc {
                Some(d) => Some(d.clone()),
                None => None,
            },
        }
    }

    /// Decides what the creation of an unordered access view at `index` is handed.
    pub fn create_unordered_access_view<U>(
        &mut self,
        index: usize,
        resource: &Resource,
        counter_resource: Option<&Resource>,
        desc: Option<&UnorderedAccessViewDesc<U>>,
    ) -> (r: ViewWrite<UnorderedAccessViewDesc<U>>)
        requires
            index < old(self).len,
            old(self).cpu_ptr(index as int) <= usize::MAX,
        ensures
            *final(self) == *old(self),
            r.dest == old(self).cpu_ptr(index as int),
            r.resource == Some(resource.raw),
            r.counter_resource == match counter_resource {
                Some(c) => Some(c.raw),
                None => None,
            },
            r.desc == match desc {
                Some(d) => Some(*d),
                None => None,
            },
    {
        ViewWrite {
            dest: self.cpu_handle(index).handle(),
            resource: Some(resource.raw),
            counter_resource: match counter_resource {
                Some(c) => Some(c.raw),
                None => None,
            },
            desc: match desc {
                Some(d) => Some(d.clone()),
                None => None,
            },
        }
    }
}

impl DescriptorHeap<Rtv> {
    pub fn new(device: &Device) -> (r: Builder<Rtv>)
        ensures
            r.device == device.raw,
            r.desc.ty == Rtv::VALUE,
            r.name.is_none(),
    {
        Builder::new(device.raw)
    }

    /// Decides what the creation of a render target view at `index` is handed.
    pub fn create_render_target_view<U>(
        &mut self,
        index: usize,
        resource: &Resource,
        desc: Option<&RenderTargetViewDesc<U>>,
    ) -> (r: ViewWrite<RenderTargetViewDesc<U>>)
        requires
            index < old(self).len,
            old(self).cpu_ptr(index as int) <= usize::MAX,
        ensures
            *final(self) == *old(self),
            r.dest == old(self).cpu_ptr(index as int),
            r.resource == Some(resource.raw),
            r.counter_resource.is_none(),
            r.desc == match desc {
                Some(d) => Some(*d),
                None => None,
            },
    {
        ViewWrite {
            dest: self.cpu_handle(index).handle(),
            resource: Some(resource.raw),
            counter_resource: None,
            desc: match desc {
                Some(d) => Some(d.clone()),
                None => None,
            },
        }
    }
}

impl DescriptorHeap<Dsv> {
    pub fn new(device: &Device) -> (r: Builder<Dsv>)
        ensures
            r.device == device.raw,
            r.desc.ty == Dsv::VALUE,
            r.name.is_none(),
    {
        Builder::new(device.raw)
    }

    /// Decides what the creation of a depth stencil view at `index` is handed.
    pub fn create_depth_stencil_view<U>(
        &mut self,
        index: usize,
        resource: &Resource,
        desc: Option<&DepthStencilViewDesc<U>>,
    ) -> (r: ViewWrite<DepthStencilViewDesc<U>>)
        requires
            index < old(self).len,
            old(self).cpu_ptr(index as int) <= usize::MAX,
        ensures
            *final(self) == *old(self),
            r.dest == old(self).cpu_ptr(index as int),
            r.resource == Some(resource.raw),
            r.counter_resource.is_none(),
            r.desc == match desc {
                Some(d) => Some(*d),
                None => None,
            },
    {
        ViewWrite {
            dest: self.cpu_handle(index).handle(),
            resource: Some(resource.raw),
            counter_resource: None,
            desc: match desc {
                Some(d) => Some(d.clone()),
                None => None,
            },
        }
    }
}

impl DescriptorHeap<Sampler> {
    pub fn new(device: &Device) -> (r: Builder<Sampler>)
        ensures
            r.device == device.raw,
            r.desc.ty == Sampler::VALUE,
            r.name.is_none(),
    {
        Builder::new(device.raw)
    }

    /// Decides what the creation of a sampler at `index` is handed.
    pub fn create_sampler(&self, index: usize, desc: &SamplerDesc) -> (r: ViewWrite<SamplerDesc>)
        requires
            index < self.len,
            self.cpu_ptr(index as int) <= usize::MAX,
        ensures
            r.dest == self.cpu_ptr(index as int),
            r.resource.is_none(),
            r.counter_resource.is_none(),
            r.desc == Some(*desc),
    {
        ViewWrite {
            dest: self.cpu_handle(index).handle(),
            resource: None,
            counter_resource: None,
            desc: Some(*desc),
        }
    }
}

pub type RtvDescriptorHeap = DescriptorHeap<descriptor_heap_type::Rtv>;

pub type DsvDescriptorHeap = DescriptorHeap<descriptor_heap_type::Dsv>;

pub type CbvSrvUavDescriptorHeap = DescriptorHeap<descriptor_heap_type::CbvSrvUav>;

pub type SamplerDescriptorHeap = DescriptorHeap<descriptor_heap_type::Sampler>;

pub type RtvCpuDescriptorHandle = CpuDescriptorHandle<descriptor_heap_type::Rtv>;

pub type DsvCpuDescriptorHandle = CpuDescriptorHandle<descriptor_heap_type::Dsv>;

pub type CbvSrvUavCpuDescriptorHandle = CpuDescriptorHandle<descriptor_heap_type::CbvSrvUav>;

pub type SamplerCpuDescriptorHandle = CpuDescriptorHandle<descriptor_heap_type::Sampler>;

pub type RtvGpuDescriptorHandle = GpuDescriptorHandle<descriptor_heap_type::Rtv>;

pub type DsvGpuDescriptorHandle = GpuDescriptorHandle<descriptor_heap_type::Dsv>;

pub type CbvSrvUavGpuDescriptorHandle = GpuDescriptorHandle<descriptor_heap_type::CbvSrvUav>;

pub type SamplerGpuDescriptorHandle = GpuDescriptorHandle<descriptor_heap_type::Sampler>;

} // verus!
