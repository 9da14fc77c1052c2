use crate::d3d12::{
    D3D12_CPU_PAGE_PROPERTY_UNKNOWN, D3D12_HEAP_FLAG_NONE, D3D12_HEAP_TYPE_CUSTOM,
    D3D12_HEAP_TYPE_DEFAULT, D3D12_HEAP_TYPE_GPU_UPLOAD, D3D12_HEAP_TYPE_READBACK,
    D3D12_HEAP_TYPE_UPLOAD, D3D12_MEMORY_POOL_UNKNOWN, D3D12_RESOURCE_DIMENSION_BUFFER,
    D3D12_RESOURCE_DIMENSION_TEXTURE1D, D3D12_RESOURCE_DIMENSION_TEXTURE2D,
    D3D12_RESOURCE_FLAG_NONE, D3D12_RESOURCE_STATE_COMMON, D3D12_TEXTURE_LAYOUT_ROW_MAJOR,
    D3D12_TEXTURE_LAYOUT_UNKNOWN,
};
use crate::device::Device;
use crate::dxgi::{
    DXGI_FORMAT_D16_UNORM, DXGI_FORMAT_D24_UNORM_S8_UINT, DXGI_FORMAT_D32_FLOAT,
    DXGI_FORMAT_D32_FLOAT_S8X24_UINT, DXGI_FORMAT_UNKNOWN,
};
use crate::utility::{
    name_as_str, name_from_text, name_view, text_view, Error, Float, GpuVirtualAddress, Name,
    RawHandle, SampleDesc,
};
use vstd::prelude::*;

pub mod dimension;
pub mod heap;
pub mod placed_resource;

verus! {

/// Where a heap lives and who can reach it.
#[derive(Clone, Copy, PartialEq, Eq, Structural, Debug)]
pub struct HeapProperties {
    pub ty: i32,
    pub cpu_page_property: i32,
    pub memory_pool_preference: i32,
    pub creation_node_mask: u32,
    pub visible_node_mask: u32,
}

impl HeapProperties {
    pub fn default() -> (r: Self)
        ensures
            r.ty == D3D12_HEAP_TYPE_DEFAULT,
            r.cpu_page_property == D3D12_CPU_PAGE_PROPERTY_UNKNOWN,
            r.memory_pool_preference == D3D12_MEMORY_POOL_UNKNOWN,
            r.creation_node_mask == 1,
            r.visible_node_mask == 1,
    {
        HeapProperties {
            ty: D3D12_HEAP_TYPE_DEFAULT,
            cpu_page_property: D3D12_CPU_PAGE_PROPERTY_UNKNOWN,
            memory_pool_preference: D3D12_MEMORY_POOL_UNKNOWN,
            creation_node_mask: 1,
            visible_node_mask: 1,
        }
    }
    pub fn upload() -> (r: Self)
        ensures
            r.ty == D3D12_HEAP_TYPE_UPLOAD,
            r.cpu_page_property == D3D12_CPU_PAGE_PROPERTY_UNKNOWN,
            r.memory_pool_preference == D3D12_MEMORY_POOL_UNKNOWN,
            r.creation_node_mask == 1,
            r.visible_node_mask == 1,
    {
        HeapProperties {
            ty: D3D12_HEAP_TYPE_UPLOAD,
            cpu_page_property: D3D12_CPU_PAGE_PROPERTY_UNKNOWN,
            memory_pool_preference: D3D12_MEMORY_POOL_UNKNOWN,
            creation_node_mask: 1,
            visible_node_mask: 1,
        }
    }
    pub fn readback() -> (r: Self)
        ensures
            r.ty == D3D12_HEAP_TYPE_READBACK,
            r.cpu_page_property == D3D12_CPU_PAGE_PROPERTY_UNKNOWN,
            r.memory_pool_preference == D3D12_MEMORY_POOL_UNKNOWN,
            r.creation_node_mask == 1,
            r.visible_node_mask == 1,
    {
        HeapProperties {
            ty: D3D12_HEAP_TYPE_READBACK,
            cpu_page_property: D3D12_CPU_PAGE_PROPERTY_UNKNOWN,
            memory_pool_preference: D3D12_MEMORY_POOL_UNKNOWN,
            creation_node_mask: 1,
            visible_node_mask: 1,
        }
    }
    pub fn custom() -> (r: Self)
        ensures
            r.ty == D3D12_HEAP_TYPE_CUSTOM,
            r.cpu_page_property == D3D12_CPU_PAGE_PROPERTY_UNKNOWN,
            r.memory_pool_preference == D3D12_MEMORY_POOL_UNKNOWN,
            r.creation_node_mask == 1,
            r.visible_node_mask == 1,
    {
        HeapProperties {
            ty: D3D12_HEAP_TYPE_CUSTOM,
            cpu_page_property: D3D12_CPU_PAGE_PROPERTY_UNKNOWN,
            memory_pool_preference: D3D12_MEMORY_POOL_UNKNOWN,
            creation_node_mask: 1,
            visible_node_mask: 1,
        }
    }
    pub fn gpu_upload() -> (r: Self)
        ensures
            r.ty == D3D12_HEAP_TYPE_GPU_UPLOAD,
            r.cpu_page_property == D3D12_CPU_PAGE_PROPERTY_UNKNOWN,
            r.memory_pool_preference == D3D12_MEMORY_POOL_UNKNOWN,
            r.creation_node_mask == 1,
            r.visible_node_mask == 1,
    {
        HeapProperties {
            ty: D3D12_HEAP_TYPE_GPU_UPLOAD,
            cpu_page_property: D3D12_CPU_PAGE_PROPERTY_UNKNOWN,
            memory_pool_preference: D3D12_MEMORY_POOL_UNKNOWN,
            creation_node_mask: 1,
            visible_node_mask: 1,
        }
    }
    pub fn cpu_page_property(self, value: i32) -> (r: Self)
        ensures
            r == (HeapProperties { cpu_page_property: value, ..self }),
    {
        HeapProperties { cpu_page_property: value, ..self }
    }
    pub fn creation_node_mask(self, mask: u32) -> (r: Self)
        ensures
            r == (HeapProperties { creation_node_mask: mask, ..self }),
    {
        HeapProperties { creation_node_mask: mask, ..self }
    }
    pub fn visible_node_mask(self, mask: u32) -> (r: Self)
        ensures
            r == (HeapProperties { visible_node_mask: mask, ..self }),
    {
        HeapProperties { visible_node_mask: mask, ..self }
    }
}

/// The description of a resource. `T` is the dimension of the resource and decides
/// which of the fields can be set.
#[derive(Debug)]
pub struct ResourceDesc<T = ()> {
    pub dimension: i32,
    pub alignment: u64,
    pub width: u64,
    pub height: u32,
    pub depth_or_array_size: u16,
    pub mip_levels: u16,
    pub format: i32,
    pub sample_desc: SampleDesc,
    pub layout: i32,
    pub flags: i32,
    pub _t: core::marker::PhantomData<T>,
}

impl<T> Clone for ResourceDesc<T> {
    fn clone(&self) -> (r: Self)
        ensures
            r == *self,
    {
        ResourceDesc { _t: core::marker::PhantomData, ..*self }
    }
}

impl<T> Copy for ResourceDesc<T> {

}

impl ResourceDesc<()> {
    pub fn buffer() -> (r: ResourceDesc<dimension::Buffer>)
        ensures
            r.dimension == D3D12_RESOURCE_DIMENSION_BUFFER,
            r.alignment == 0,
            r.width == 0,
            r.height == 1,
            r.depth_or_array_size == 1,
            r.mip_levels == 1,
            r.format == DXGI_FORMAT_UNKNOWN,
            r.sample_desc == (SampleDesc { count: 1, quality: 0 }),
            r.layout == D3D12_TEXTURE_LAYOUT_ROW_MAJOR,
            r.flags == D3D12_RESOURCE_FLAG_NONE,
    {
        ResourceDesc {
            dimension: D3D12_RESOURCE_DIMENSION_BUFFER,
            alignment: 0,
            width: 0,
            height: 1,
            depth_or_array_size: 1,
            mip_levels: 1,
            format: DXGI_FORMAT_UNKNOWN,
            sample_desc: (SampleDesc { count: 1, quality: 0 }),
            layout: D3D12_TEXTURE_LAYOUT_ROW_MAJOR,
            flags: D3D12_RESOURCE_FLAG_NONE,
            _t: core::marker::PhantomData,
        }
    }
    pub fn texture1d() -> (r: ResourceDesc<dimension::Texture1D>)
        ensures
            r.dimension == D3D12_RESOURCE_DIMENSION_TEXTURE1D,
            r.alignment == 0,
            r.width == 0,
            r.height == 1,
            r.depth_or_array_size == 1,
            r.mip_levels == 0,
            r.format == DXGI_FORMAT_UNKNOWN,
            r.sample_desc == (SampleDesc { count: 1, quality: 0 }),
            r.layout == D3D12_TEXTURE_LAYOUT_UNKNOWN,
            r.flags == D3D12_RESOURCE_FLAG_NONE,
    {
        ResourceDesc {
            dimension: D3D12_RESOURCE_DIMENSION_TEXTURE1D,
            alignment: 0,
            width: 0,
            height: 1,
            depth_or_array_size: 1,
            mip_levels: 0,
            format: DXGI_FORMAT_UNKNOWN,
            sample_desc: (SampleDesc { count: 1, quality: 0 }),
            layout: D3D12_TEXTURE_LAYOUT_UNKNOWN,
            flags: D3D12_RESOURCE_FLAG_NONE,
            _t: core::marker::PhantomData,
        }
    }
    pub fn texture2d() -> (r: ResourceDesc<dimension::Texture2D>)
        ensures
            r.dimension == D3D12_RESOURCE_DIMENSION_TEXTURE2D,
            r.alignment == 0,
            r.width == 0,
            r.height == 0,
            r.depth_or_array_size == 1,
            r.mip_levels == 0,
            r.format == DXGI_FORMAT_UNKNOWN,
            r.sample_desc == (SampleDesc { count: 1, quality: 0 }),
            r.layout == D3D12_TEXTURE_LAYOUT_UNKNOWN,
            r.flags == D3D12_RESOURCE_FLAG_NONE,
    {
        ResourceDesc {
            dimension: D3D12_RESOURCE_DIMENSION_TEXTURE2D,
            alignment: 0,
            width: 0,
            height: 0,
            depth_or_array_size: 1,
            mip_levels: 0,
            format: DXGI_FORMAT_UNKNOWN,
            sample_desc: (SampleDesc { count: 1, quality: 0 }),
            layout: D3D12_TEXTURE_LAYOUT_UNKNOWN,
            flags: D3D12_RESOURCE_FLAG_NONE,
            _t: core::marker::PhantomData,
        }
    }
}

impl<T> ResourceDesc<T> {
    pub fn alignment(self, alignment: u64) -> (r: Self)
        ensures
            r == (ResourceDesc { alignment, ..self }),
    {
        ResourceDesc { alignment, ..self }
    }
    pub fn format(self, format: i32) -> (r: Self)
        ensures
            r == (ResourceDesc { format, ..self }),
    {
        ResourceDesc { format, ..self }
    }
    pub fn layout(self, layout: i32) -> (r: Self)
        ensures
            r == (ResourceDesc { layout, ..self }),
    {
        ResourceDesc { layout, ..self }
    }
    pub fn flags(self, flags: i32) -> (r: Self)
        ensures
            r == (ResourceDesc { flags, ..self }),
    {
        ResourceDesc { flags, ..self }
    }
    /// The description without its dimension tag, as a placed resource takes it.
    pub fn untyped(self) -> (r: ResourceDesc<()>)
        ensures
            r.dimension == self.dimension,
            r.alignment == self.alignment,
            r.width == self.width,
            r.height == self.height,
            r.depth_or_array_size == self.depth_or_array_size,
            r.mip_levels == self.mip_levels,
            r.format == self.format,
            r.sample_desc == self.sample_desc,
            r.layout == self.layout,
            r.flags == self.flags,
    {
        ResourceDesc {
            dimension: self.dimension,
            alignment: self.alignment,
            width: self.width,
            height: self.height,
            depth_or_array_size: self.depth_or_array_size,
            mip_levels: self.mip_levels,
            format: self.format,
            sample_desc: self.sample_desc,
            layout: self.layout,
            flags: self.flags,
            _t: core::marker::PhantomData,
        }
    }
}

impl ResourceDesc<dimension::Buffer> {
    pub fn width(self, width: u64) -> (r: Self)
        ensures
            r == (ResourceDesc { width, ..self }),
    {
        ResourceDesc { width, ..self }
    }
}

impl ResourceDesc<dimension::Texture1D> {
    pub fn width(self, width: u64) -> (r: Self)
        ensures
            r == (ResourceDesc { width, ..self }),
    {
        ResourceDesc { width, ..self }
    }
    pub fn array_size(self, size: u16) -> (r: Self)
        ensures
            r == (ResourceDesc { depth_or_array_size: size, ..self }),
    {
        ResourceDesc { depth_or_array_size: size, ..self }
    }
    pub fn mip_levels(self, levels: u16) -> (r: Self)
        ensures
            r == (ResourceDesc { mip_levels: levels, ..self }),
    {
        ResourceDesc { mip_levels: levels, ..self }
    }
    pub fn sample_desc(self, desc: SampleDesc) -> (r: Self)
        ensures
            r == (ResourceDesc { sample_desc: desc, ..self }),
    {
        ResourceDesc { sample_desc: desc, ..self }
    }
}

impl ResourceDesc<dimension::Texture2D> {
    pub fn width(self, width: u64) -> (r: Self)
        ensures
            r == (ResourceDesc { width, ..self }),
    {
        ResourceDesc { width, ..self }
    }
    pub fn height(self, height: u32) -> (r: Self)
        ensures
            r == (ResourceDesc { height, ..self }),
    {
        ResourceDesc { height, ..self }
    }
    pub fn array_size(self, size: u16) -> (r: Self)
        ensures
            r == (ResourceDesc { depth_or_array_size: size, ..self }),
    {
        ResourceDesc { depth_or_array_size: size, ..self }
    }
    pub fn mip_levels(self, levels: u16) -> (r: Self)
        ensures
            r == (ResourceDesc { mip_levels: levels, ..self }),
    {
        ResourceDesc { mip_levels: levels, ..self }
    }
    pub fn sample_desc(self, desc: SampleDesc) -> (r: Self)
        ensures
            r == (ResourceDesc { sample_desc: desc, ..self }),
    {
        ResourceDesc { sample_desc: desc, ..self }
    }
}

impl ResourceDesc<dimension::Texture3D> {
    pub fn width(self, width: u64) -> (r: Self)
        ensures
            r == (ResourceDesc { width, ..self }),
    {
        ResourceDesc { width, ..self }
    }
    pub fn height(self, height: u32) -> (r: Self)
        ensures
            r == (ResourceDesc { height, ..self }),
    {
        ResourceDesc { height, ..self }
    }
    pub fn depth(self, depth: u16) -> (r: Self)
        ensures
            r == (ResourceDesc { depth_or_array_size: depth, ..self }),
    {
        ResourceDesc { depth_or_array_size: depth, ..self }
    }
    pub fn mip_levels(self, levels: u16) -> (r: Self)
        ensures
            r == (ResourceDesc { mip_levels: levels, ..self }),
    {
        ResourceDesc { mip_levels: levels, ..self }
    }
    pub fn sample_desc(self, desc: SampleDesc) -> (r: Self)
        ensures
            r == (ResourceDesc { sample_desc: desc, ..self }),
    {
        ResourceDesc { sample_desc: desc, ..self }
    }
}

/// Whether `format` is one of the depth formats that a depth-stencil clear value can have.
pub open spec fn is_depth_stencil_format(format: i32) -> bool {
    format == DXGI_FORMAT_D16_UNORM || format == DXGI_FORMAT_D32_FLOAT || format
        == DXGI_FORMAT_D24_UNORM_S8_UINT || format == DXGI_FORMAT_D32_FLOAT_S8X24_UINT
}

/// The value that a resource is cleared to most cheaply.
#[derive(Clone, Copy, PartialEq, Eq, Debug)]
pub enum ClearValue {
    Color { format: i32, color: [Float; 4] },
    DepthStencil { format: i32, depth: Float, stencil: u8 },
}

impl ClearValue {
    pub fn color(format: i32, color: [Float; 4]) -> (r: Self)
        ensures
            r == (ClearValue::Color { format, color }),
    {
        ClearValue::Color { format, color }
    }

    pub fn depth_stencil(format: i32, depth: Float, stencil: u8) -> (r: Self)
        requires
            is_depth_stencil_format(format),
        ensures
            r == (ClearValue::DepthStencil { format, depth, stencil }),
    {
        ClearValue::DepthStencil { format, depth, stencil }
    }

    /// The format of the value.
    pub fn format(&self) -> (r: i32)
        ensures
            r == match *self {
                ClearValue::Color { format, .. } => format,
                ClearValue::DepthStencil { format, .. } => format,
            },
    {
        match *self {
            ClearValue::Color { format, .. } => format,
            ClearValue::DepthStencil { format, .. } => format,
        }
    }
}

/// The request to unmap one subresource of a resource.
#[derive(Clone, Copy, PartialEq, Eq, Structural, Debug)]
pub struct Unmap {
    pub resource: RawHandle,
    pub subresource: u32,
}

/// A mapping of one subresource into the address space of the CPU.
///
/// The mapping is not copyable and is given up by `release`, which consumes it:
/// an unmap can be asked for once per mapping, and for the subresource that was
/// mapped.
#[derive(Debug)]
pub struct MappedData {
    pub resource: RawHandle,
    pub subresource: u32,
    pub data: usize,
}

impl MappedData {
    pub(crate) fn new(resource: RawHandle, subresource: u32, mapped: Result<usize, Error>) -> (r:
        Result<Self, Error>)
        ensures
            r == match mapped {
                Ok(data) => Ok::<MappedData, Error>(MappedData { resource, subresource, data }),
                Err(e) => Err::<MappedData, Error>(e),
            },
    {
        match mapped {
            Ok(data) => Ok(MappedData { resource, subresource, data }),
            Err(e) => Err(e),
        }
    }

    /// The address that the subresource is mapped at.
    pub fn as_ptr(&self) -> (r: usize)
        ensures
            r == self.data,
    {
        self.data
    }

    /// The address that the subresource is mapped at, for writing.
    pub fn as_mut_ptr(&self) -> (r: usize)
        ensures
            r == self.data,
    {
        self.data
    }

    /// Ends the mapping: the unmap that is owed for it.
    pub fn release(self) -> (r: Unmap)
        ensures
            r == (Unmap { resource: self.resource, subresource: self.subresource }),
    {
        Unmap { resource: self.resource, subresource: self.subresource }
    }
}

/// Collects what a committed resource is created from. The resource can be built
/// once heap properties and a description are set.
pub struct Builder<HeapProps = (), Desc = ()> {
    pub device: RawHandle,
    pub heap_props: HeapProps,
    pub heap_flags: i32,
    pub desc: Desc,
    pub init_state: i32,
    pub clear_value: Option<ClearValue>,
    pub name: Option<String>,
}

impl Builder<(), ()> {
    pub(crate) fn new(device: RawHandle) -> (r: Self)
        ensures
            r.device == device,
            r.heap_flags == D3D12_HEAP_FLAG_NONE,
            r.init_state == D3D12_RESOURCE_STATE_COMMON,
            r.clear_value.is_none(),
            r.name.is_none(),
    {
        Builder {
            device,
            heap_props: (),
            heap_flags: D3D12_HEAP_FLAG_NONE,
            desc: (),
            init_state: D3D12_RESOURCE_STATE_COMMON,
            clear_value: None,
            name: None,
        }
    }
}

impl<HeapProps, Desc> Builder<HeapProps, Desc> {
    pub fn heap_properties(self, heap_props: &HeapProperties) -> (r: Builder<HeapProperties, Desc>)
        ensures
            r.heap_props == *heap_props,
            r.device == self.device,
            r.heap_flags == self.heap_flags,
            r.desc == self.desc,
            r.init_state == self.init_state,
            r.clear_value == self.clear_value,
            r.name == self.name,
    {
        Builder {
            device: self.device,
            heap_props: *heap_props,
            heap_flags: self.heap_flags,
            desc: self.desc,
            init_state: self.init_state,
            clear_value: self.clear_value,
            name: self.name,
        }
    }

    pub fn heap_flags(self, flags: i32) -> (r: Self)
        ensures
            r == (Builder { heap_flags: flags, ..self }),
    {
        Builder { heap_flags: flags, ..self }
    }

    pub fn resource_desc<T>(
        self,
        desc: &ResourceDesc<T>,
    ) -> (r: Builder<HeapProps, ResourceDesc<T>>)
        ensures
            r.desc == *desc,
            r.device == self.device,
            r.heap_props == self.heap_props,
            r.heap_flags == self.heap_flags,
            r.init_state == self.init_state,
            r.clear_value == self.clear_value,
            r.name == self.name,
    {
        Builder {
            device: self.device,
            heap_props: self.heap_props,
            heap_flags: self.heap_flags,
            desc: ResourceDesc { _t: core::marker::PhantomData, ..*desc },
            init_state: self.init_state,
            clear_value: self.clear_value,
            name: self.name,
        }
    }

    pub fn init_state(self, state: i32) -> (r: Self)
        ensures
            r == (Builder { init_state: state, ..self }),
    {
        Builder { init_state: state, ..self }
    }

    pub fn clear_value(self, value: ClearValue) -> (r: Self)
        ensures
            r == (Builder { clear_value: Some(value), ..self }),
    {
        Builder { clear_value: Some(value), ..self }
    }

    pub fn name(self, name: &str) -> (r: Self)
        ensures
            text_view(r.name) == Some(name@),
            r.device == self.device,
            r.heap_props == self.heap_props,
            r.heap_flags == self.heap_flags,
            r.desc == self.desc,
            r.init_state == self.init_state,
            r.clear_value == self.clear_value,
    {
        Builder { name: Some(name.to_owned()), ..self }
    }
}

impl<T> Builder<HeapProperties, ResourceDesc<T>> {
    /// Takes the outcome of the native call that creates the committed resource,
    /// which was given what this builder holds.
    pub fn build(self, created: Result<RawHandle, Error>) -> (r: Result<Resource, Error>)
        ensures
            match created {
                Ok(raw) => r.is_ok() && r.unwrap().raw == raw && name_view(r.unwrap().name)
                    == text_view(self.name),
                Err(e) => r == Err::<Resource, Error>(e),
            },
    {
        match created {
            Ok(raw) => Ok(Resource { raw, name: name_from_text(&self.name) }),
            Err(e) => Err(e),
        }
    }
}

/// A resource of the GPU: a buffer or a texture.
#[derive(Debug)]
pub struct Resource {
    pub raw: RawHandle,
    pub name: Option<Name>,
}

impl Resource {
    pub fn new(device: &Device) -> (r: Builder)
        ensures
            r.device == device.raw,
            r.heap_flags == D3D12_HEAP_FLAG_NONE,
            r.init_state == D3D12_RESOURCE_STATE_COMMON,
            r.clear_value.is_none(),
            r.name.is_none(),
    {
        Builder::new(device.raw)
    }

    pub fn from_heap(device: &Device) -> (r: placed_resource::Builder)
        ensures
            r.device == device.raw,
            r.offset == 0,
            r.init_state == D3D12_RESOURCE_STATE_COMMON,
            r.clear_value.is_none(),
            r.name.is_none(),
    {
        placed_resource::Builder::new(device)
    }

    /// Wraps a native resource that was created elsewhere. It has no name.
    pub fn from_raw(handle: RawHandle) -> (r: Self)
        ensures
            r.raw == handle,
            r.name.is_none(),
    {
        Resource { raw: handle, name: None }
    }

    /// Takes the outcome of the native call that maps `subresource`: the address
    /// of the mapping, or the error.
    pub fn map(&self, subresource: u32, mapped: Result<usize, Error>) -> (r: Result<
        MappedData,
        Error,
    >)
        ensures
            r == match mapped {
                Ok(data) => Ok::<MappedData, Error>(
                    MappedData { resource: self.raw, subresource, data },
                ),
                Err(e) => Err::<MappedData, Error>(e),
            },
    {
        MappedData::new(self.raw, subresource, mapped)
    }

    /// Wraps the address that the native layer reports for the resource.
    pub fn get_gpu_virtual_address(&self, address: u64) -> (r: GpuVirtualAddress)
        ensures
            r.0 == address,
    {
        GpuVirtualAddress(address)
    }

    pub fn handle(&self) -> (r: RawHandle)
        ensures
            r == self.raw,
    {
        self.raw
    }

    pub fn name(&self) -> (r: Option<&str>)
        ensures
            r.is_some() == self.name.is_some(),
            r.is_some() ==> r.unwrap()@ == self.name.unwrap().text@,
    {
        name_as_str(&self.name)
    }

    /// Records the debug name that the native object is given.
    pub fn set_name(&mut self, name: &str)
        ensures
            final(self).raw == old(self).raw,
            name_view(final(self).name) == Some(name@),
    {
        self.name = Some(Name::new(name));
    }

    /// Whether two resources are the same native object.
    pub fn same(&self, other: &Resource) -> (r: bool)
        ensures
            r == (self.raw == other.raw),
    {
        self.raw == other.raw
    }
}

/// A heap: the memory that placed resources live in.
#[derive(Debug)]
pub struct Heap {
    pub raw: RawHandle,
    pub name: Option<Name>,
}

impl Heap {
    pub fn new(device: &Device) -> (r: heap::Builder)
        ensures
            r.device == device.raw,
            r.flags == D3D12_HEAP_FLAG_NONE,
            r.name.is_none(),
    {
        heap::Builder::new(device)
    }

    pub fn handle(&self) -> (r: RawHandle)
        ensures
            r == self.raw,
    {
        self.raw
    }

    pub fn name(&self) -> (r: Option<&str>)
        ensures
            r.is_some() == self.name.is_some(),
            r.is_some() ==> r.unwrap()@ == self.name.unwrap().text@,
    {
        name_as_str(&self.name)
    }

}

} // verus!
