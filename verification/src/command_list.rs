use crate::command_allocator::CommandAllocator;
use crate::command_list_type;
use crate::command_list_type::{
    Bundle, CommandListType, Compute, Direct, VideoDecode, VideoEncode, VideoProcess,
};
use crate::d3d12::{
    D3D12_CLEAR_FLAG_DEPTH, D3D12_CLEAR_FLAG_STENCIL, D3D12_TEXTURE_COPY_TYPE_PLACED_FOOTPRINT,
    D3D12_TEXTURE_COPY_TYPE_SUBRESOURCE_INDEX,
};
use crate::descriptor_heap::descriptor_heap_type::{CbvSrvUav, Dsv, Rtv, Sampler};
use crate::descriptor_heap::{CpuDescriptorHandle, DescriptorHeap, GpuDescriptorHandle};
use crate::device::{Device, PlacedSubresourceFootprint};
use crate::pipeline_state::PipelineState;
use crate::raytracing::{inputs_view, BuildRaytracingAccelerationStructureDesc};
use crate::resource_barriers::{Barrier, ResourceBarrier};
use crate::resources::Resource;
use crate::root_signature::RootSignature;
use crate::state_object::StateObject;
use crate::utility::{
    name_as_str, name_from_text, name_view, text_view, Error, Float, GpuVirtualAddress,
    GpuVirtualAddressRange, GpuVirtualAddressRangeAndStride, Name, RawHandle, Rect,
};
use vstd::prelude::*;

verus! {

#[derive(Clone, Copy, PartialEq, Eq, Structural, Debug)]
pub struct VertexBufferView {
    pub buffer_location: u64,
    pub size_in_bytes: u32,
    pub stride_in_bytes: u32,
}

impl VertexBufferView {
    pub fn new() -> (r: Self)
        ensures
            r.buffer_location == 0,
            r.size_in_bytes == 0,
            r.stride_in_bytes == 0,
    {
        VertexBufferView { buffer_location: 0, size_in_bytes: 0, stride_in_bytes: 0 }
    }
    pub fn buffer_location(self, loc: GpuVirtualAddress) -> (r: Self)
        ensures
            r == (VertexBufferView { buffer_location: loc.0, ..self }),
    {
        VertexBufferView { buffer_location: loc.0, ..self }
    }
    pub fn size_in_bytes(self, size: u32) -> (r: Self)
        ensures
            r == (VertexBufferView { size_in_bytes: size, ..self }),
    {
        VertexBufferView { size_in_bytes: size, ..self }
    }
    pub fn stride_in_bytes(self, stride: u32) -> (r: Self)
        ensures
            r == (VertexBufferView { stride_in_bytes: stride, ..self }),
    {
        VertexBufferView { stride_in_bytes: stride, ..self }
    }
}

#[derive(Clone, Copy, PartialEq, Eq, Structural, Debug)]
pub struct IndexBufferView {
    pub buffer_location: u64,
    pub size_in_bytes: u32,
    pub format: i32,
}

impl IndexBufferView {
    pub fn new() -> (r: Self)
        ensures
            r.buffer_location == 0,
            r.size_in_bytes == 0,
            r.format == 0,
    {
        IndexBufferView { buffer_location: 0, size_in_bytes: 0, format: 0 }
    }
    pub fn buffer_location(self, loc: GpuVirtualAddress) -> (r: Self)
        ensures
            r == (IndexBufferView { buffer_location: loc.0, ..self }),
    {
        IndexBufferView { buffer_location: loc.0, ..self }
    }
    pub fn size_in_bytes(self, size: u32) -> (r: Self)
        ensures
            r == (IndexBufferView { size_in_bytes: size, ..self }),
    {
        IndexBufferView { size_in_bytes: size, ..self }
    }
    pub fn format(self, format: i32) -> (r: Self)
        ensures
            r == (IndexBufferView { format, ..self }),
    {
        IndexBufferView { format, ..self }
    }
}

/// The part of a resource that is discarded: rectangles, where there are any,
/// in a run of subresources.
#[derive(Clone, Copy, PartialEq, Eq, Debug)]
pub struct DiscardRegion<'a> {
    pub rects: Option<&'a [Rect]>,
    pub first_subresource: u32,
    pub num_subresources: u32,
}

impl<'a> DiscardRegion<'a> {
    pub fn new() -> (r: Self)
        ensures
            r.rects.is_none(),
            r.first_subresource == 0,
            r.num_subresources == 0,
    {
        DiscardRegion { rects: None, first_subresource: 0, num_subresources: 0 }
    }

    /// Sets the rectangles, whose number has to fit in 32 bits.
    pub fn rects<'b>(self, rects: &'b [Rect]) -> (r: DiscardRegion<'b>)
        requires
            rects@.len() <= u32::MAX,
        ensures
            r.rects == Some(rects),
            r.first_subresource == self.first_subresource,
            r.num_subresources == self.num_subresources,
    {
        DiscardRegion {
            rects: Some(rects),
            first_subresource: self.first_subresource,
            num_subresources: self.num_subresources,
        }
    }

    pub fn first_subresource(self, subresource: u32) -> (r: Self)
        ensures
            r == (DiscardRegion { first_subresource: subresource, ..self }),
    {
        DiscardRegion { first_subresource: subresource, ..self }
    }

    pub fn num_subresource(self, n: u32) -> (r: Self)
        ensures
            r == (DiscardRegion { num_subresources: n, ..self }),
    {
        DiscardRegion { num_subresources: n, ..self }
    }

    /// The number of rectangles that the native layer is told.
    pub fn num_rects(&self) -> (r: u32)
        requires
            self.rects.is_some() ==> self.rects.unwrap()@.len() <= u32::MAX,
        ensures
            r == match self.rects {
                Some(rects) => rects@.len(),
                None => 0,
            },
    {
        match self.rects {
            Some(rects) => rects.len() as u32,
            None => 0,
        }
    }
}

#[derive(Clone, Copy, PartialEq, Eq, Structural, Debug)]
pub struct DispatchRaysDesc {
    pub ray_generation_shader_record: GpuVirtualAddressRange,
    pub miss_shader_table: GpuVirtualAddressRangeAndStride,
    pub hit_group_table: GpuVirtualAddressRangeAndStride,
    pub callable_shader_table: GpuVirtualAddressRangeAndStride,
    pub width: u32,
    pub height: u32,
    pub depth: u32,
}

impl DispatchRaysDesc {
    pub fn new() -> (r: Self)
        ensures
            r.ray_generation_shader_record == (
                GpuVirtualAddressRange { start_address: 0, size_in_bytes: 0 }
            ),
            r.miss_shader_table == (
                GpuVirtualAddressRangeAndStride {
                    start_address: 0,
                    size_in_bytes: 0,
                    stride_in_bytes: 0,
                }
            ),
            r.hit_group_table == (
                GpuVirtualAddressRangeAndStride {
                    start_address: 0,
                    size_in_bytes: 0,
                    stride_in_bytes: 0,
                }
            ),
            r.callable_shader_table == (
                GpuVirtualAddressRangeAndStride {
                    start_address: 0,
                    size_in_bytes: 0,
                    stride_in_bytes: 0,
                }
            ),
            r.width == 0,
            r.height == 0,
            r.depth == 0,
    {
        DispatchRaysDesc {
            ray_generation_shader_record: (
                GpuVirtualAddressRange { start_address: 0, size_in_bytes: 0 }
            ),
            miss_shader_table: (
                GpuVirtualAddressRangeAndStride {
                    start_address: 0,
                    size_in_bytes: 0,
                    stride_in_bytes: 0,
                }
            ),
            hit_group_table: (
                GpuVirtualAddressRangeAndStride {
                    start_address: 0,
                    size_in_bytes: 0,
                    stride_in_bytes: 0,
                }
            ),
            callable_shader_table: (
                GpuVirtualAddressRangeAndStride {
                    start_address: 0,
                    size_in_bytes: 0,
                    stride_in_bytes: 0,
                }
            ),
            width: 0,
            height: 0,
            depth: 0,
        }
    }
    pub fn ray_generation_shader_record(self, range: GpuVirtualAddressRange) -> (r: Self)
        ensures
            r == (DispatchRaysDesc { ray_generation_shader_record: range, ..self }),
    {
        DispatchRaysDesc { ray_generation_shader_record: range, ..self }
    }
    pub fn miss_shader_table(self, value: GpuVirtualAddressRangeAndStride) -> (r: Self)
        ensures
            r == (DispatchRaysDesc { miss_shader_table: value, ..self }),
    {
        DispatchRaysDesc { miss_shader_table: value, ..self }
    }
    pub fn hit_group_table(self, value: GpuVirtualAddressRangeAndStride) -> (r: Self)
        ensures
            r == (DispatchRaysDesc { hit_group_table: value, ..self }),
    {
        DispatchRaysDesc { hit_group_table: value, ..self }
    }
    pub fn callable_shader_table(self, value: GpuVirtualAddressRangeAndStride) -> (r: Self)
        ensures
            r == (DispatchRaysDesc { callable_shader_table: value, ..self }),
    {
        DispatchRaysDesc { callable_shader_table: value, ..self }
    }
    pub fn width(self, width: u32) -> (r: Self)
        ensures
            r == (DispatchRaysDesc { width, ..self }),
    {
        DispatchRaysDesc { width, ..self }
    }
    pub fn height(self, height: u32) -> (r: Self)
        ensures
            r == (DispatchRaysDesc { height, ..self }),
    {
        DispatchRaysDesc { height, ..self }
    }
    pub fn depth(self, depth: u32) -> (r: Self)
        ensures
            r == (DispatchRaysDesc { depth, ..self }),
    {
        DispatchRaysDesc { depth, ..self }
    }
}

#[derive(Clone, Copy, PartialEq, Eq, Structural, Debug)]
pub struct StreamOutputBufferView {
    pub buffer_location: u64,
    pub size_in_bytes: u64,
    pub buffer_filled_size_location: u64,
}

impl StreamOutputBufferView {
    pub fn new() -> (r: Self)
        ensures
            r.buffer_location == 0,
            r.size_in_bytes == 0,
            r.buffer_filled_size_location == 0,
    {
        StreamOutputBufferView {
            buffer_location: 0,
            size_in_bytes: 0,
            buffer_filled_size_location: 0,
        }
    }
    pub fn buffer_location(self, loc: GpuVirtualAddress) -> (r: Self)
        ensures
            r == (StreamOutputBufferView { buffer_location: loc.0, ..self }),
    {
        StreamOutputBufferView { buffer_location: loc.0, ..self }
    }
    pub fn size_in_bytes(self, size: u64) -> (r: Self)
        ensures
            r == (StreamOutputBufferView { size_in_bytes: size, ..self }),
    {
        StreamOutputBufferView { size_in_bytes: size, ..self }
    }
    pub fn buffer_filled_size_location(self, v: u64) -> (r: Self)
        ensures
            r == (StreamOutputBufferView { buffer_filled_size_location: v, ..self }),
    {
        StreamOutputBufferView { buffer_filled_size_location: v, ..self }
    }
}

#[derive(Clone, Copy, PartialEq, Eq, Structural, Debug)]
pub struct Viewport {
    pub top_left_x: Float,
    pub top_left_y: Float,
    pub width: Float,
    pub height: Float,
    pub min_depth: Float,
    pub max_depth: Float,
}

/// A box in a texture: left, top and front are within, right, bottom and back are not.
#[derive(Clone, Copy, PartialEq, Eq, Structural, Debug)]
pub struct Box3 {
    pub left: u32,
    pub top: u32,
    pub front: u32,
    pub right: u32,
    pub bottom: u32,
    pub back: u32,
}

/// One end of a copy between textures: a subresource of a texture, or a
/// footprint placed in a buffer.
#[derive(Clone, Copy, PartialEq, Eq, Structural, Debug)]
pub enum TextureCopyLocation {
    PlacedFootprint { resource: RawHandle, placed_footprint: PlacedSubresourceFootprint },
    SubresourceIndex { resource: RawHandle, index: u32 },
}

impl TextureCopyLocation {
    pub fn placed_footprint(resource: &Resource, placed_footprint: PlacedSubresourceFootprint) -> (r:
        Self)
        ensures
            r == (
                TextureCopyLocation::PlacedFootprint { resource: resource.raw, placed_footprint }
            ),
    {
        TextureCopyLocation::PlacedFootprint { resource: resource.raw, placed_footprint }
    }

    pub fn subresource_index(resource: &Resource, index: u32) -> (r: Self)
        ensures
            r == (TextureCopyLocation::SubresourceIndex { resource: resource.raw, index }),
    {
        TextureCopyLocation::SubresourceIndex { resource: resource.raw, index }
    }

    /// The value by which the native layer knows the kind of the location.
    pub fn type_value(&self) -> (r: i32)
        ensures
            r == match *self {
                TextureCopyLocation::PlacedFootprint {
                    ..
                } => D3D12_TEXTURE_COPY_TYPE_PLACED_FOOTPRINT,
                TextureCopyLocation::SubresourceIndex {
                    ..
                } => D3D12_TEXTURE_COPY_TYPE_SUBRESOURCE_INDEX,
            },
    {
        match *self {
            TextureCopyLocation::PlacedFootprint { .. } => D3D12_TEXTURE_COPY_TYPE_PLACED_FOOTPRINT,
            TextureCopyLocation::SubresourceIndex {
                ..
            } => D3D12_TEXTURE_COPY_TYPE_SUBRESOURCE_INDEX,
        }
    }
}

/// A region to discard, with its rectangles copied.
#[derive(Debug)]
pub struct DiscardedRegion {
    pub rects: Option<Vec<Rect>>,
    pub first_subresource: u32,
    pub num_subresources: u32,
}

/// One command of a command list.
#[derive(Debug)]
pub enum Command {
    ClearDepthStencilView { dsv: usize, flags: i32, depth: Float, stencil: u8, rects: Vec<Rect> },
    ClearRenderTargetView { rtv: usize, color: [Float; 4], clip: Option<Vec<Rect>> },
    ClearUnorderedAccessViewFloat {
        view_gpu_handle: u64,
        view_cpu_handle: usize,
        resource: RawHandle,
        float_values: [Float; 4],
        rects: Vec<Rect>,
    },
    ClearUnorderedAccessViewUint {
        view_gpu_handle: u64,
        view_cpu_handle: usize,
        resource: RawHandle,
        uint_values: [u32; 4],
        rects: Vec<Rect>,
    },
    CopyBufferRegion {
        dest: RawHandle,
        dest_offset: u64,
        src: RawHandle,
        src_offset: u64,
        num_bytes: u64,
    },
    CopyResource { dest: RawHandle, src: RawHandle },
    CopyTextureRegion {
        dest_location: TextureCopyLocation,
        dest_x: u32,
        dest_y: u32,
        dest_z: u32,
        src_location: TextureCopyLocation,
        src_box: Option<Box3>,
    },
    Dispatch { x: u32, y: u32, z: u32 },
    DispatchMesh { x: u32, y: u32, z: u32 },
    DispatchRays { rays: DispatchRaysDesc },
    DrawIndexedInstanced {
        index_count_per_instance: u32,
        instance_count: u32,
        start_index_location: u32,
        base_vertex_location: i32,
        start_instance_location: u32,
    },
    DrawInstanced {
        vertex_count_per_instance: u32,
        instance_count: u32,
        start_vertex_location: u32,
        start_instance_location: u32,
    },
    ExecuteBundle { bundle: RawHandle },
    IaSetIndexBuffer { view: Option<IndexBufferView> },
    IaSetPrimitiveTopology { topology: i32 },
    IaSetVertexBuffers { start_slot: u32, vertex_buffers: Option<Vec<VertexBufferView>> },
    OmSetBlendFactor { factor: [Float; 4] },
    OmSetRenderTargets {
        rtvs: Option<Vec<usize>>,
        rts_single_handle_to_descriptor_range: bool,
        depth_stencil: Option<usize>,
    },
    OmSetStencilRef { stencil_ref: u32 },
    ResolveSubresource {
        dest: RawHandle,
        dest_subresource: u32,
        src: RawHandle,
        src_subresource: u32,
        format: i32,
    },
    ResourceBarrier { barriers: Vec<Barrier> },
    RsSetScissorRects { rects: Vec<Rect> },
    RsSetViewports { viewports: Vec<Viewport> },
    SetDescriptorHeaps { heaps: Vec<RawHandle> },
    ClearState { pipeline_state: Option<RawHandle> },
    SetPipelineState { state: RawHandle },
    SetPipelineState1 { state_object: RawHandle },
    SetGraphicsRootSignature { root_signature: RawHandle },
    SetGraphicsRoot32BitConstant { root_parameter_index: u32, value: u32, value_offset: u32 },
    SetGraphicsRoot32BitConstants { root_parameter_index: u32, values: Vec<u32>, value_offset: u32 },
    SetGraphicsRootDescriptorTable { root_parameter_index: u32, base_descriptor: u64 },
    SetGraphicsRootConstantBufferView { root_parameter_index: u32, location: u64 },
    SetGraphicsRootShaderResourceView { root_parameter_index: u32, location: u64 },
    SetGraphicsRootUnorderedAccessView { root_parameter_index: u32, location: u64 },
    SetComputeRootSignature { root_signature: RawHandle },
    SetComputeRoot32BitConstant { root_parameter_index: u32, value: u32, value_offset: u32 },
    SetComputeRoot32BitConstants { root_parameter_index: u32, values: Vec<u32>, value_offset: u32 },
    SetComputeRootDescriptorTable { root_parameter_index: u32, base_descriptor: u64 },
    SetComputeRootConstantBufferView { root_parameter_index: u32, location: u64 },
    SetComputeRootShaderResourceView { root_parameter_index: u32, location: u64 },
    SetComputeRootUnorderedAccessView { root_parameter_index: u32, location: u64 },
    SoSetTargets { start_slot: u32, targets: Option<Vec<StreamOutputBufferView>> },
    BuildRaytracingAccelerationStructure { desc: BuildRaytracingAccelerationStructureDesc },
    DiscardResource { resource: RawHandle, region: Option<DiscardedRegion> },
}

/// Whether `after` is `before` with one command behind it.
pub open spec fn appended(before: Seq<Command>, after: Seq<Command>) -> bool {
    after.len() == before.len() + 1 && forall|i: int|
        0 <= i < before.len() ==> #[trigger] after[i] == before[i]
}

/// The items of an optional vector.
pub open spec fn opt_view<T>(v: Option<Vec<T>>) -> Option<Seq<T>> {
    match v {
        Some(x) => Some(x@),
        None => None,
    }
}

/// The items of an optional slice.
pub open spec fn opt_slice_view<T>(v: Option<&[T]>) -> Option<Seq<T>> {
    match v {
        Some(x) => Some(x@),
        None => None,
    }
}

/// The flags of a clear of a depth stencil view: which of depth and stencil is cleared.
pub open spec fn clear_flags(depth: bool, stencil: bool) -> i32 {
    (if depth {
        D3D12_CLEAR_FLAG_DEPTH
    } else {
        0i32
    }) | (if stencil {
        D3D12_CLEAR_FLAG_STENCIL
    } else {
        0i32
    })
}

/// The heaps that are set: the heap of resource views first, then the heap of
/// samplers, each where it is there.
pub open spec fn heaps_set(
    cbv_srv_uav: Option<&DescriptorHeap<CbvSrvUav>>,
    sampler: Option<&DescriptorHeap<Sampler>>,
) -> Seq<RawHandle> {
    (match cbv_srv_uav {
        Some(h) => seq![h.raw],
        None => seq![],
    }) + (match sampler {
        Some(h) => seq![h.raw],
        None => seq![],
    })
}

/// Copies the items of a slice.
pub fn copy_slice<T: core::marker::Copy>(items: &[T]) -> (r: Vec<T>)
    ensures
        r@ == items@,
{
    let mut out: Vec<T> = Vec::new();
    let mut i: usize = 0;
    while i < items.len()
        invariant
            i <= items.len(),
            out@ == items@.take(i as int),
        decreases items.len() - i,
    {
        out.push(items[i]);
        assert(out@ =~= items@.take(i + 1));
        i += 1;
    }
    assert(items@.take(items@.len() as int) =~= items@);
    out
}

/// Copies the items of a slice, where there is one.
pub fn copy_opt_slice<T: core::marker::Copy>(items: Option<&[T]>) -> (r: Option<Vec<T>>)
    ensures
        opt_view(r) == opt_slice_view(items),
{
    match items {
        Some(x) => Some(copy_slice(x)),
        None => None,
    }
}

/// A type of value that an unordered access view can be cleared to.
pub trait ClearUnorderedAccessView: Sized {
    /// Whether `command` clears the view to `values` within `rects`.
    spec fn clears(
        view_gpu_handle: u64,
        view_cpu_handle: usize,
        resource: RawHandle,
        values: [Self; 4],
        rects: Seq<Rect>,
        command: Command,
    ) -> bool;

    fn call(
        view_gpu_handle: u64,
        view_cpu_handle: usize,
        resource: RawHandle,
        values: &[Self; 4],
        rects: &[Rect],
    ) -> (c: Command)
        ensures
            Self::clears(view_gpu_handle, view_cpu_handle, resource, *values, rects@, c),
    ;
}

impl ClearUnorderedAccessView for Float {
    open spec fn clears(
        view_gpu_handle: u64,
        view_cpu_handle: usize,
        resource: RawHandle,
        values: [Float; 4],
        rects: Seq<Rect>,
        command: Command,
    ) -> bool {
        command matches Command::ClearUnorderedAccessViewFloat {
            view_gpu_handle: g,
            view_cpu_handle: c,
            resource: r,
            float_values: v,
            rects: x,
        } && g == view_gpu_handle && c == view_cpu_handle && r == resource && v == values && x@
            == rects
    }

    fn call(
        view_gpu_handle: u64,
        view_cpu_handle: usize,
        resource: RawHandle,
        values: &[Float; 4],
        rects: &[Rect],
    ) -> (c: Command) {
        Command::ClearUnorderedAccessViewFloat {
            view_gpu_handle,
            view_cpu_handle,
            resource,
            float_values: *values,
            rects: copy_slice(rects),
        }
    }
}

impl ClearUnorderedAccessView for u32 {
    open spec fn clears(
        view_gpu_handle: u64,
        view_cpu_handle: usize,
        resource: RawHandle,
        values: [u32; 4],
        rects: Seq<Rect>,
        command: Command,
    ) -> bool {
        command matches Command::ClearUnorderedAccessViewUint {
            view_gpu_handle: g,
            view_cpu_handle: c,
            resource: r,
            uint_values: v,
            rects: x,
        } && g == view_gpu_handle && c == view_cpu_handle && r == resource && v == values && x@
            == rects
    }

    fn call(
        view_gpu_handle: u64,
        view_cpu_handle: usize,
        resource: RawHandle,
        values: &[u32; 4],
        rects: &[Rect],
    ) -> (c: Command) {
        Command::ClearUnorderedAccessViewUint {
            view_gpu_handle,
            view_cpu_handle,
            resource,
            uint_values: *values,
            rects: copy_slice(rects),
        }
    }
}

/// A value that the root constants of the compute pipeline can be set from: one
/// constant, or a slice of them.
pub trait SetComputeRoot32BitConstants: Sized {
    /// Whether the number of constants fits in 32 bits.
    spec fn fits(&self) -> bool;

    /// Whether `command` sets the constants from the value.
    spec fn sets(self, root_parameter_index: u32, dest_offset: u32, command: Command) -> bool;

    fn call(self, root_parameter_index: u32, dest_offset_in_32bit_values: u32) -> (c: Command)
        requires
            self.fits(),
        ensures
            self.sets(root_parameter_index, dest_offset_in_32bit_values, c),
    ;
}

impl SetComputeRoot32BitConstants for u32 {
    open spec fn fits(&self) -> bool {
        true
    }

    open spec fn sets(self, root_parameter_index: u32, dest_offset: u32, command: Command) -> bool {
        command == (Command::SetComputeRoot32BitConstant {
            root_parameter_index,
            value: self,
            value_offset: dest_offset,
        })
    }

    fn call(self, root_parameter_index: u32, dest_offset_in_32bit_values: u32) -> (c: Command) {
        Command::SetComputeRoot32BitConstant {
            root_parameter_index,
            value: self,
            value_offset: dest_offset_in_32bit_values,
        }
    }
}

impl<'a> SetComputeRoot32BitConstants for &'a [u32] {
    open spec fn fits(&self) -> bool {
        self@.len() <= u32::MAX
    }

    open spec fn sets(self, root_parameter_index: u32, dest_offset: u32, command: Command) -> bool {
        command matches Command::SetComputeRoot32BitConstants {
            root_parameter_index: i,
            values: v,
            value_offset: o,
        } && i == root_parameter_index && v@ == self@ && o == dest_offset
    }

    fn call(self, root_parameter_index: u32, dest_offset_in_32bit_values: u32) -> (c: Command) {
        Command::SetComputeRoot32BitConstants {
            root_parameter_index,
            values: copy_slice(self),
            value_offset: dest_offset_in_32bit_values,
        }
    }
}

/// A value that the root constants of the graphics pipeline can be set from: one
/// constant, or a slice of them.
pub trait SetGraphicsRoot32BitConstants: Sized {
    /// Whether the number of constants fits in 32 bits.
    spec fn fits(&self) -> bool;

    /// Whether `command` sets the constants from the value.
    spec fn sets(self, root_parameter_index: u32, dest_offset: u32, command: Command) -> bool;

    fn call(self, root_parameter_index: u32, dest_offset_in_32bit_values: u32) -> (c: Command)
        requires
            self.fits(),
        ensures
            self.sets(root_parameter_index, dest_offset_in_32bit_values, c),
    ;
}

impl SetGraphicsRoot32BitConstants for u32 {
    open spec fn fits(&self) -> bool {
        true
    }

    open spec fn sets(self, root_parameter_index: u32, dest_offset: u32, command: Command) -> bool {
        command == (Command::SetGraphicsRoot32BitConstant {
            root_parameter_index,
            value: self,
            value_offset: dest_offset,
        })
    }

    fn call(self, root_parameter_index: u32, dest_offset_in_32bit_values: u32) -> (c: Command) {
        Command::SetGraphicsRoot32BitConstant {
            root_parameter_index,
            value: self,
            value_offset: dest_offset_in_32bit_values,
        }
    }
}

impl<'a> SetGraphicsRoot32BitConstants for &'a [u32] {
    open spec fn fits(&self) -> bool {
        self@.len() <= u32::MAX
    }

    open spec fn sets(self, root_parameter_index: u32, dest_offset: u32, command: Command) -> bool {
        command matches Command::SetGraphicsRoot32BitConstants {
            root_parameter_index: i,
            values: v,
            value_offset: o,
        } && i == root_parameter_index && v@ == self@ && o == dest_offset
    }

    fn call(self, root_parameter_index: u32, dest_offset_in_32bit_values: u32) -> (c: Command) {
        Command::SetGraphicsRoot32BitConstants {
            root_parameter_index,
            values: copy_slice(self),
            value_offset: dest_offset_in_32bit_values,
        }
    }
}

/// A state that a command list can be set to: a pipeline state or a state object.
pub trait PipelineStateType {
    /// The command that sets the state.
    spec fn sets(&self) -> Command;

    fn call(&self) -> (c: Command)
        ensures
            c == self.sets(),
    ;
}

impl PipelineStateType for PipelineState {
    open spec fn sets(&self) -> Command {
        Command::SetPipelineState { state: self.raw }
    }

    fn call(&self) -> (c: Command) {
        Command::SetPipelineState { state: self.raw }
    }
}

impl PipelineStateType for StateObject {
    open spec fn sets(&self) -> Command {
        Command::SetPipelineState1 { state_object: self.raw }
    }

    fn call(&self) -> (c: Command) {
        Command::SetPipelineState1 { state_object: self.raw }
    }
}

/// The commands that a recording has emitted so far, in their order. `T` is the
/// category of the list that records, and decides which commands there are.
#[derive(Debug)]
pub struct Commands<T> {
    pub commands: Vec<Command>,
    pub _t: core::marker::PhantomData<T>,
}

impl<T> Commands<T> {
    /// Clears a depth stencil view: the depth where `depth` is there, the stencil
    /// where `stencil` is there, within `rects` or everywhere.
    pub fn clear_depth_stencil_view(
        &mut self,
        dsv: &CpuDescriptorHandle<Dsv>,
        depth: Option<Float>,
        stencil: Option<u8>,
        rects: Option<&[Rect]>,
    )
        ensures
            appended(old(self).commands@, final(self).commands@),
            final(self).commands@.last() matches Command::ClearDepthStencilView {
                dsv: d,
                flags,
                depth: z,
                stencil: s,
                rects: v,
            } && d == dsv.ptr && flags == clear_flags(depth.is_some(), stencil.is_some()) && z
                == match depth {
                Some(x) => x,
                None => Float { bits: 0 },
            } && s == match stencil {
                Some(x) => x,
                None => 0u8,
            } && v@ == match rects {
                Some(x) => x@,
                None => Seq::<Rect>::empty(),
            },
    {
        let depth_flag: i32 = if depth.is_some() {
            D3D12_CLEAR_FLAG_DEPTH
        } else {
            0
        };
        let stencil_flag: i32 = if stencil.is_some() {
            D3D12_CLEAR_FLAG_STENCIL
        } else {
            0
        };
        let v = match rects {
            Some(x) => copy_slice(x),
            None => Vec::new(),
        };
        self.commands.push(
            Command::ClearDepthStencilView {
                dsv: dsv.ptr,
                flags: depth_flag | stencil_flag,
                depth: match depth {
                    Some(x) => x,
                    None => Float { bits: 0 },
                },
                stencil: match stencil {
                    Some(x) => x,
                    None => 0,
                },
                rects: v,
            },
        );
    }

    pub fn clear_render_target_view(
        &mut self,
        rtv: &CpuDescriptorHandle<Rtv>,
        color: &[Float; 4],
        rects: Option<&[Rect]>,
    )
        ensures
            appended(old(self).commands@, final(self).commands@),
            final(self).commands@.last() matches Command::ClearRenderTargetView {
                rtv: d,
                color: c,
                clip: v,
            } && d == rtv.ptr && c == *color && opt_view(v) == opt_slice_view(rects),
    {
        self.commands.push(
            Command::ClearRenderTargetView {
                rtv: rtv.ptr,
                color: *color,
                clip: copy_opt_slice(rects),
            },
        );
    }

    /// Clears an unordered access view to four values, of floats or of integers.
    pub fn clear_unordered_access_view<U>(
        &mut self,
        view_gpu_handle_in_current_heap: &GpuDescriptorHandle<CbvSrvUav>,
        view_cpu_handle: &CpuDescriptorHandle<CbvSrvUav>,
        resource: &Resource,
        values: &[U; 4],
        rects: &[Rect],
    ) where U: ClearUnorderedAccessView
        ensures
            appended(old(self).commands@, final(self).commands@),
            U::clears(
                view_gpu_handle_in_current_heap.ptr,
                view_cpu_handle.ptr,
                resource.raw,
                *values,
                rects@,
                final(self).commands@.last(),
            ),
    {
        self.commands.push(
            U::call(
                view_gpu_handle_in_current_heap.ptr,
                view_cpu_handle.ptr,
                resource.raw,
                values,
                rects,
            ),
        );
    }

    pub fn copy_buffer_region(
        &mut self,
        src: &Resource,
        src_offset: u64,
        dest: &Resource,
        dest_offset: u64,
        num_bytes: u64,
    )
        ensures
            final(self).commands@ == old(self).commands@.push(
                Command::CopyBufferRegion {
                    dest: dest.raw,
                    dest_offset,
                    src: src.raw,
                    src_offset,
                    num_bytes,
                },
            ),
    {
        self.commands.push(
            Command::CopyBufferRegion {
                dest: dest.raw,
                dest_offset,
                src: src.raw,
                src_offset,
                num_bytes,
            },
        );
    }

    pub fn copy_resource(&mut self, src: &Resource, dest: &Resource)
        ensures
            final(self).commands@ == old(self).commands@.push(
                Command::CopyResource { dest: dest.raw, src: src.raw },
            ),
    {
        self.commands.push(Command::CopyResource { dest: dest.raw, src: src.raw });
    }

    pub fn copy_texture_region(
        &mut self,
        src: &TextureCopyLocation,
        src_box: Option<&Box3>,
        dest: &TextureCopyLocation,
        dest_x: u32,
        dest_y: u32,
        dest_z: u32,
    )
        ensures
            final(self).commands@ == old(self).commands@.push(Command::CopyTextureRegion {
                    dest_location: *dest,
                    dest_x,
                    dest_y,
                    dest_z,
                    src_location: *src,
                    src_box: match src_box {
                        Some(x) => Some(*x),
                        None => None,
                    },
                }),
    {
        self.commands.push(Command::CopyTextureRegion {
                    dest_location: *dest,
                    dest_x,
                    dest_y,
                    dest_z,
                    src_location: *src,
                    src_box: match src_box {
                        Some(x) => Some(*x),
                        None => None,
                    },
                });
    }

    pub fn dispatch(
        &mut self,
        thread_group_count_x: u32,
        thread_group_count_y: u32,
        thread_group_count_z: u32,
    )
        ensures
            final(self).commands@ == old(self).commands@.push(
                Command::Dispatch {
                    x: thread_group_count_x,
                    y: thread_group_count_y,
                    z: thread_group_count_z,
                },
            ),
    {
        self.commands.push(
            Command::Dispatch {
                x: thread_group_count_x,
                y: thread_group_count_y,
                z: thread_group_count_z,
            },
        );
    }

    pub fn dispatch_mesh(
        &mut self,
        thread_group_count_x: u32,
        thread_group_count_y: u32,
        thread_group_count_z: u32,
    )
        ensures
            final(self).commands@ == old(self).commands@.push(
                Command::DispatchMesh {
                    x: thread_group_count_x,
                    y: thread_group_count_y,
                    z: thread_group_count_z,
                },
            ),
    {
        self.commands.push(
            Command::DispatchMesh {
                x: thread_group_count_x,
                y: thread_group_count_y,
                z: thread_group_count_z,
            },
        );
    }

    pub fn dispatch_rays(&mut self, desc: &DispatchRaysDesc)
        ensures
            final(self).commands@ == old(self).commands@.push(Command::DispatchRays { rays: *desc }),
    {
        self.commands.push(Command::DispatchRays { rays: *desc });
    }

    pub fn draw_indexed_instanced(
        &mut self,
        index_count_per_instance: u32,
        instance_count: u32,
        start_index_location: u32,
        base_vertex_location: i32,
        start_instance_location: u32,
    )
        ensures
            final(self).commands@ == old(self).commands@.push(Command::DrawIndexedInstanced {
                    index_count_per_instance,
                    instance_count,
                    start_index_location,
                    base_vertex_location,
                    start_instance_location,
                }),
    {
        self.commands.push(Command::DrawIndexedInstanced {
                    index_count_per_instance,
                    instance_count,
                    start_index_location,
                    base_vertex_location,
                    start_instance_location,
                });
    }

    pub fn draw_instanced(
        &mut self,
        vertex_count_per_instance: u32,
        instance_count: u32,
        start_verte_location: u32,
        start_instance_location: u32,
    )
        ensures
            final(self).commands@ == old(self).commands@.push(Command::DrawInstanced {
                    vertex_count_per_instance,
                    instance_count,
                    start_vertex_location: start_verte_location,
                    start_instance_location,
                }),
    {
        self.commands.push(Command::DrawInstanced {
                    vertex_count_per_instance,
                    instance_count,
                    start_vertex_location: start_verte_location,
                    start_instance_location,
                });
    }

    pub fn execute_bundle(&mut self, cmd_list: &GraphicsCommandList<Bundle>)
        ensures
            final(self).commands@ == old(self).commands@.push(
                Command::ExecuteBundle { bundle: cmd_list.raw },
            ),
    {
        self.commands.push(Command::ExecuteBundle { bundle: cmd_list.raw });
    }

    pub fn ia_set_index_buffer(&mut self, view: Option<&IndexBufferView>)
        ensures
            final(self).commands@ == old(self).commands@.push(Command::IaSetIndexBuffer {
                    view: match view {
                        Some(v) => Some(*v),
                        None => None,
                    },
                }),
    {
        self.commands.push(Command::IaSetIndexBuffer {
                    view: match view {
                        Some(v) => Some(*v),
                        None => None,
                    },
                });
    }

    pub fn ia_set_primitive_topology(&mut self, topology: i32)
        ensures
            final(self).commands@ == old(self).commands@.push(
                Command::IaSetPrimitiveTopology { topology },
            ),
    {
        self.commands.push(Command::IaSetPrimitiveTopology { topology });
    }

    pub fn ia_set_vertex_buffers(&mut self, start_slot: u32, views: Option<&[VertexBufferView]>)
        ensures
            appended(old(self).commands@, final(self).commands@),
            final(self).commands@.last() matches Command::IaSetVertexBuffers {
                start_slot: s,
                vertex_buffers: v,
            }
                && s == start_slot && opt_view(v) == opt_slice_view(views),
    {
        self.commands.push(
            Command::IaSetVertexBuffers { start_slot, vertex_buffers: copy_opt_slice(views) },
        );
    }

    pub fn om_set_blend_factor(&mut self, factor: &[Float; 4])
        ensures
            final(self).commands@ == old(self).commands@.push(
                Command::OmSetBlendFactor { factor: *factor },
            ),
    {
        self.commands.push(Command::OmSetBlendFactor { factor: *factor });
    }

    /// Sets the render targets and the depth stencil by their descriptors.
    pub fn om_set_render_targets(
        &mut self,
        rtvs: Option<&[&CpuDescriptorHandle<Rtv>]>,
        rts_single_handle_to_descriptor_range: bool,
        depth_stencil: Option<&CpuDescriptorHandle<Dsv>>,
    )
        ensures
            appended(old(self).commands@, final(self).commands@),
            final(self).commands@.last() matches Command::OmSetRenderTargets {
                rtvs: v,
                rts_single_handle_to_descriptor_range: single,
                depth_stencil: ds,
            } && single == rts_single_handle_to_descriptor_range && ds == match depth_stencil {
                Some(d) => Some(d.ptr),
                None => None,
            } && match rtvs {
                Some(handles) => v.is_some() && v.unwrap()@.len() == handles@.len() && forall|
                    i: int,
                |
                    0 <= i < handles@.len() ==> #[trigger] v.unwrap()@[i] == handles@[i].ptr,
                None => v.is_none(),
            },
    {
        let v = match rtvs {
            Some(handles) => {
                let mut out: Vec<usize> = Vec::new();
                let mut i: usize = 0;
                while i < handles.len()
                    invariant
                        i <= handles.len(),
                        out@.len() == i,
                        forall|j: int| 0 <= j < i ==> #[trigger] out@[j] == handles@[j].ptr,
                    decreases handles.len() - i,
                {
                    out.push(handles[i].ptr);
                    i += 1;
                }
                Some(out)
            },
            None => None,
        };
        self.commands.push(
            Command::OmSetRenderTargets {
                rtvs: v,
                rts_single_handle_to_descriptor_range,
                depth_stencil: match depth_stencil {
                    Some(d) => Some(d.ptr),
                    None => None,
                },
            },
        );
    }

    pub fn om_set_stencil_ref(&mut self, stencil_ref: u32)
        ensures
            final(self).commands@ == old(self).commands@.push(
                Command::OmSetStencilRef { stencil_ref },
            ),
    {
        self.commands.push(Command::OmSetStencilRef { stencil_ref });
    }

    pub fn resolve_subresource(
        &mut self,
        src: &Resource,
        src_subresource: u32,
        dest: &Resource,
        dest_resource: u32,
        format: i32,
    )
        ensures
            final(self).commands@ == old(self).commands@.push(Command::ResolveSubresource {
                    dest: dest.raw,
                    dest_subresource: dest_resource,
                    src: src.raw,
                    src_subresource,
                    format,
                }),
    {
        self.commands.push(Command::ResolveSubresource {
                    dest: dest.raw,
                    dest_subresource: dest_resource,
                    src: src.raw,
                    src_subresource,
                    format,
                });
    }

    /// Records barriers, in their order.
    pub fn resource_barrier<B>(&mut self, barriers: &[B]) where B: ResourceBarrier
        ensures
            appended(old(self).commands@, final(self).commands@),
            final(self).commands@.last() matches Command::ResourceBarrier { barriers: v } && v@.len()
                == barriers@.len() && forall|i: int|
                0 <= i < barriers@.len() ==> #[trigger] v@[i] == barriers@[i].barrier(),
    {
        let mut out: Vec<Barrier> = Vec::new();
        let mut i: usize = 0;
        while i < barriers.len()
            invariant
                i <= barriers.len(),
                out@.len() == i,
                forall|j: int| 0 <= j < i ==> #[trigger] out@[j] == barriers@[j].barrier(),
            decreases barriers.len() - i,
        {
            out.push(barriers[i].as_raw());
            i += 1;
        }
        self.commands.push(Command::ResourceBarrier { barriers: out });
    }

    pub fn rs_set_scissor_rects(&mut self, rects: &[Rect])
        ensures
            appended(old(self).commands@, final(self).commands@),
            final(self).commands@.last() matches Command::RsSetScissorRects { rects: v } && v@
                == rects@,
    {
        self.commands.push(Command::RsSetScissorRects { rects: copy_slice(rects) });
    }

    pub fn rs_set_viewports(&mut self, viewports: &[Viewport])
        ensures
            appended(old(self).commands@, final(self).commands@),
            final(self).commands@.last() matches Command::RsSetViewports { viewports: v } && v@
                == viewports@,
    {
        self.commands.push(Command::RsSetViewports { viewports: copy_slice(viewports) });
    }

    /// Sets the descriptor heaps that shaders see: the heap of resource views
    /// first, then the heap of samplers, each where it is there. Where neither is
    /// there nothing is recorded.
    pub fn set_descriptor_heaps(
        &mut self,
        cbv_srv_uav: Option<&DescriptorHeap<CbvSrvUav>>,
        sampler: Option<&DescriptorHeap<Sampler>>,
    )
        ensures
            cbv_srv_uav.is_none() && sampler.is_none() ==> final(self).commands@ == old(
                self,
            ).commands@,
            cbv_srv_uav.is_some() || sampler.is_some() ==> appended(
                old(self).commands@,
                final(self).commands@,
            ) && (final(self).commands@.last() matches Command::SetDescriptorHeaps { heaps: v }
                && v@ == heaps_set(cbv_srv_uav, sampler)),
    {
        let mut heaps: Vec<RawHandle> = Vec::new();
        match cbv_srv_uav {
            Some(h) => heaps.push(h.raw),
            None => {},
        }
        match sampler {
            Some(h) => heaps.push(h.raw),
            None => {},
        }
        if heaps.len() > 0 {
            assert(heaps@ =~= heaps_set(cbv_srv_uav, sampler));
            self.commands.push(Command::SetDescriptorHeaps { heaps });
        }
    }

    pub fn clear_state(&mut self, state: Option<&PipelineState>)
        ensures
            final(self).commands@ == old(self).commands@.push(Command::ClearState {
                    pipeline_state: match state {
                        Some(s) => Some(s.raw),
                        None => None,
                    },
                }),
    {
        self.commands.push(Command::ClearState {
                    pipeline_state: match state {
                        Some(s) => Some(s.raw),
                        None => None,
                    },
                });
    }

    /// Sets the pipeline state, by the command of its kind.
    pub fn set_pipeline_state<P>(&mut self, state: &P) where P: PipelineStateType
        ensures
            final(self).commands@ == old(self).commands@.push(state.sets()),
    {
        self.commands.push(state.call());
    }

    pub fn set_graphics_root_signature(&mut self, root_sig: &RootSignature)
        ensures
            final(self).commands@ == old(self).commands@.push(
                Command::SetGraphicsRootSignature { root_signature: root_sig.raw },
            ),
    {
        self.commands.push(Command::SetGraphicsRootSignature { root_signature: root_sig.raw });
    }

    /// Sets root constants, one or several.
    pub fn set_graphics_root_32bit_constants<U>(
        &mut self,
        root_parameter_index: u32,
        src_data: U,
        dest_offset_in_32bit_values: u32,
    ) where U: SetGraphicsRoot32BitConstants
        requires
            src_data.fits(),
        ensures
            appended(old(self).commands@, final(self).commands@),
            src_data.sets(
                root_parameter_index,
                dest_offset_in_32bit_values,
                final(self).commands@.last(),
            ),
    {
        self.commands.push(src_data.call(root_parameter_index, dest_offset_in_32bit_values));
    }

    pub fn set_graphics_root_descriptor_table<D>(
        &mut self,
        root_parameter_index: u32,
        base_descriptor: &GpuDescriptorHandle<D>,
    )
        ensures
            final(self).commands@ == old(self).commands@.push(
                Command::SetGraphicsRootDescriptorTable {
                    root_parameter_index,
                    base_descriptor: base_descriptor.ptr,
                },
            ),
    {
        self.commands.push(
            Command::SetGraphicsRootDescriptorTable {
                root_parameter_index,
                base_descriptor: base_descriptor.ptr,
            },
        );
    }

    pub fn set_graphics_root_constant_buffer_view(
        &mut self,
        root_parameter_index: u32,
        location: GpuVirtualAddress,
    )
        ensures
            final(self).commands@ == old(self).commands@.push(
                Command::SetGraphicsRootConstantBufferView {
                    root_parameter_index,
                    location: location.0,
                },
            ),
    {
        self.commands.push(
            Command::SetGraphicsRootConstantBufferView {
                root_parameter_index,
                location: location.0,
            },
        );
    }

    pub fn set_graphics_root_shader_resource_view(
        &mut self,
        root_parameter_index: u32,
        location: GpuVirtualAddress,
    )
        ensures
            final(self).commands@ == old(self).commands@.push(
                Command::SetGraphicsRootShaderResourceView {
                    root_parameter_index,
                    location: location.0,
                },
            ),
    {
        self.commands.push(
            Command::SetGraphicsRootShaderResourceView {
                root_parameter_index,
                location: location.0,
            },
        );
    }

    pub fn set_graphics_root_unordered_access_view(
        &mut self,
        root_parameter_index: u32,
        location: GpuVirtualAddress,
    )
        ensures
            final(self).commands@ == old(self).commands@.push(
                Command::SetGraphicsRootUnorderedAccessView {
                    root_parameter_index,
                    location: location.0,
                },
            ),
    {
        self.commands.push(
            Command::SetGraphicsRootUnorderedAccessView {
                root_parameter_index,
                location: location.0,
            },
        );
    }

    pub fn set_compute_root_signature(&mut self, root_sig: &RootSignature)
        ensures
            final(self).commands@ == old(self).commands@.push(
                Command::SetComputeRootSignature { root_signature: root_sig.raw },
            ),
    {
        self.commands.push(Command::SetComputeRootSignature { root_signature: root_sig.raw });
    }

    /// Sets root constants, one or several.
    pub fn set_compute_root_32bit_constants<U>(
        &mut self,
        root_parameter_index: u32,
        src_data: U,
        dest_offset_in_32bit_values: u32,
    ) where U: SetComputeRoot32BitConstants
        requires
            src_data.fits(),
        ensures
            appended(old(self).commands@, final(self).commands@),
            src_data.sets(
                root_parameter_index,
                dest_offset_in_32bit_values,
                final(self).commands@.last(),
            ),
    {
        self.commands.push(src_data.call(root_parameter_index, dest_offset_in_32bit_values));
    }

    pub fn set_compute_root_descriptor_table<D>(
        &mut self,
        root_parameter_index: u32,
        base_descriptor: &GpuDescriptorHandle<D>,
    )
        ensures
            final(self).commands@ == old(self).commands@.push(
                Command::SetComputeRootDescriptorTable {
                    root_parameter_index,
                    base_descriptor: base_descriptor.ptr,
                },
            ),
    {
        self.commands.push(
            Command::SetComputeRootDescriptorTable {
                root_parameter_index,
                base_descriptor: base_descriptor.ptr,
            },
        );
    }

    pub fn set_compute_root_constant_buffer_view(
        &mut self,
        root_parameter_index: u32,
        location: GpuVirtualAddress,
    )
        ensures
            final(self).commands@ == old(self).commands@.push(
                Command::SetComputeRootConstantBufferView {
                    root_parameter_index,
                    location: location.0,
                },
            ),
    {
        self.commands.push(
            Command::SetComputeRootConstantBufferView {
                root_parameter_index,
                location: location.0,
            },
        );
    }

    pub fn set_compute_root_shader_resource_view(
        &mut self,
        root_parameter_index: u32,
        location: GpuVirtualAddress,
    )
        ensures
            final(self).commands@ == old(self).commands@.push(
                Command::SetComputeRootShaderResourceView {
                    root_parameter_index,
                    location: location.0,
                },
            ),
    {
        self.commands.push(
            Command::SetComputeRootShaderResourceView {
                root_parameter_index,
                location: location.0,
            },
        );
    }

    pub fn set_compute_root_unordered_access_view(
        &mut self,
        root_parameter_index: u32,
        location: GpuVirtualAddress,
    )
        ensures
            final(self).commands@ == old(self).commands@.push(
                Command::SetComputeRootUnorderedAccessView {
                    root_parameter_index,
                    location: location.0,
                },
            ),
    {
        self.commands.push(
            Command::SetComputeRootUnorderedAccessView {
                root_parameter_index,
                location: location.0,
            },
        );
    }

    pub fn so_set_targets(&mut self, start_slot: u32, views: Option<&[StreamOutputBufferView]>)
        ensures
            appended(old(self).commands@, final(self).commands@),
            final(self).commands@.last() matches Command::SoSetTargets { start_slot: s, targets: v }
                && s == start_slot && opt_view(v) == opt_slice_view(views),
    {
        self.commands.push(Command::SoSetTargets { start_slot, targets: copy_opt_slice(views) });
    }

    pub fn build_raytracing_acceleration_structure(
        &mut self,
        desc: &BuildRaytracingAccelerationStructureDesc,
    )
        ensures
            appended(old(self).commands@, final(self).commands@),
            final(self).commands@.last() matches Command::BuildRaytracingAccelerationStructure {
                desc: d,
            } && d.dest_acceleration_structure_data == desc.dest_acceleration_structure_data
                && inputs_view(d.inputs) == inputs_view(desc.inputs)
                && d.source_acceleration_structure_data == desc.source_acceleration_structure_data
                && d.scratch_acceleration_structure_data
                == desc.scratch_acceleration_structure_data,
    {
        self.commands.push(
            Command::BuildRaytracingAccelerationStructure { desc: desc.duplicate() },
        );
    }
}

impl Commands<Direct> {
    /// Discards a resource, or the region of it that `region` names.
    pub fn discard_resource(&mut self, resource: &Resource, region: Option<&DiscardRegion>)
        ensures
            appended(old(self).commands@, final(self).commands@),
            final(self).commands@.last() matches Command::DiscardResource { resource: r, region: g }
                && r == resource.raw && match region {
                Some(x) => g.is_some() && opt_view(g.unwrap().rects) == opt_slice_view(x.rects)
                    && g.unwrap().first_subresource == x.first_subresource
                    && g.unwrap().num_subresources == x.num_subresources,
                None => g.is_none(),
            },
    {
        discard(self, resource, region);
    }
}

impl Commands<Compute> {
    /// Discards a resource, or the region of it that `region` names.
    pub fn discard_resource(&mut self, resource: &Resource, region: Option<&DiscardRegion>)
        ensures
            appended(old(self).commands@, final(self).commands@),
            final(self).commands@.last() matches Command::DiscardResource { resource: r, region: g }
                && r == resource.raw && match region {
                Some(x) => g.is_some() && opt_view(g.unwrap().rects) == opt_slice_view(x.rects)
                    && g.unwrap().first_subresource == x.first_subresource
                    && g.unwrap().num_subresources == x.num_subresources,
                None => g.is_none(),
            },
    {
        discard(self, resource, region);
    }
}

/// Records the discard of a resource.
fn discard<T>(cmds: &mut Commands<T>, resource: &Resource, region: Option<&DiscardRegion>)
    ensures
        appended(old(cmds).commands@, final(cmds).commands@),
        final(cmds).commands@.last() matches Command::DiscardResource { resource: r, region: g }
            && r == resource.raw && match region {
            Some(x) => g.is_some() && opt_view(g.unwrap().rects) == opt_slice_view(x.rects)
                && g.unwrap().first_subresource == x.first_subresource
                && g.unwrap().num_subresources == x.num_subresources,
            None => g.is_none(),
        },
{
    let g = match region {
        Some(x) => Some(
            DiscardedRegion {
                rects: copy_opt_slice(x.rects),
                first_subresource: x.first_subresource,
                num_subresources: x.num_subresources,
            },
        ),
        None => None,
    };
    cmds.commands.push(Command::DiscardResource { resource: resource.raw, region: g });
}

/// Collects what a command list of the category `T` is created from.
pub struct Builder<T> {
    pub device: RawHandle,
    pub node_mask: u32,
    pub name: Option<String>,
    pub _t: core::marker::PhantomData<T>,
}

/// What building a command list gives once the list is created: the list,
/// closed and empty, where closing it succeeds, else the error.
pub open spec fn built<T>(
    raw: RawHandle,
    closed: Result<(), Error>,
    name: Option<String>,
    r: Result<GraphicsCommandList<T>, Error>,
) -> bool {
    match closed {
        Ok(_) => {
            &&& r.is_ok()
            &&& r.unwrap().raw == raw
            &&& r.unwrap().is_closed()
            &&& r.unwrap().commands@.len() == 0
            &&& name_view(r.unwrap().name) == text_view(name)
        },
        Err(e) => r == Err::<GraphicsCommandList<T>, Error>(e),
    }
}

impl<T> Builder<T> where T: CommandListType {
    pub(crate) fn new(device: RawHandle) -> (r: Self)
        ensures
            r.device == device,
            r.node_mask == 0,
            r.name.is_none(),
    {
        Builder { device, node_mask: 0, name: None, _t: core::marker::PhantomData }
    }

    pub fn node_mask(self, mask: u32) -> (r: Self)
        ensures
            r.device == self.device,
            r.node_mask == mask,
            r.name == self.name,
    {
        Builder { node_mask: mask, ..self }
    }

    pub fn name(self, name: &str) -> (r: Self)
        ensures
            text_view(r.name) == Some(name@),
            r.device == self.device,
            r.node_mask == self.node_mask,
    {
        Builder { name: Some(name.to_owned()), ..self }
    }

    /// Creates the command list, closed.
    ///
    /// An allocator of the category is created for the occasion, then the list
    /// against it, which the native layer hands out open; the list is closed
    /// before it is handed on. The first of the three native calls that fails
    /// ends the creation with its error.
    pub fn build<A, L, C>(self, create_allocator: A, create_list: L, close: C) -> (r: Result<
        GraphicsCommandList<T>,
        Error,
    >)
        where
            A: FnOnce(i32) -> Result<RawHandle, Error>,
            L: FnOnce(u32, i32, RawHandle) -> Result<RawHandle, Error>,
            C: FnOnce(RawHandle) -> Result<(), Error>,
        requires
            create_allocator.requires((T::VALUE,)),
            forall|allocator: RawHandle| #[trigger]
                create_list.requires((self.node_mask, T::VALUE, allocator)),
            forall|list: RawHandle| #[trigger] close.requires((list,)),
        ensures
            exists|allocated: Result<RawHandle, Error>| #[trigger]
                create_allocator.ensures((T::VALUE,), allocated) && match allocated {
                    Err(e) => r == Err::<GraphicsCommandList<T>, Error>(e),
                    Ok(allocator) => exists|created: Result<RawHandle, Error>| #[trigger]
                        create_list.ensures((self.node_mask, T::VALUE, allocator), created)
                            && match created {
                            Err(e) => r == Err::<GraphicsCommandList<T>, Error>(e),
                            Ok(raw) => exists|closed: Result<(), Error>| #[trigger]
                                close.ensures((raw,), closed) && built(raw, closed, self.name, r),
                        },
                },
    {
        let allocated = create_allocator(T::VALUE);
        match allocated {
            Err(e) => Err(e),
            Ok(allocator) => {
                let created = create_list(self.node_mask, T::VALUE, allocator);
                match created {
                    Err(e) => {
                        assert(create_list.ensures(
                            (self.node_mask, T::VALUE, allocator),
                            created,
                        ));
                        Err(e)
                    },
                    Ok(raw) => {
                        let name = name_from_text(&self.name);
                        let closed = close(raw);
                        let r = match closed {
                            Ok(_) => Ok(
                                GraphicsCommandList {
                                    raw,
                                    name,
                                    state: ListState::Closed,
                                    commands: Vec::new(),
                                    _t: core::marker::PhantomData,
                                },
                            ),
                            Err(e) => Err(e),
                        };
                        assert(close.ensures((raw,), closed) && built(raw, closed, self.name, r));
                        assert(create_list.ensures(
                            (self.node_mask, T::VALUE, allocator),
                            created,
                        ));
                        r
                    },
                }
            },
        }
    }
}

/// Where a command list stands in its life.
#[derive(Clone, Copy, PartialEq, Eq, Structural, Debug)]
pub enum ListState {
    /// The recording has ended: the list can be submitted, and recorded anew.
    Closed,
    /// Commands are being recorded. A list is open only within `record`.
    Open,
}

/// A command list of the category `T`, with the commands of its last recording.
#[derive(Debug)]
pub struct GraphicsCommandList<T = ()> {
    pub raw: RawHandle,
    pub name: Option<Name>,
    pub state: ListState,
    pub commands: Vec<Command>,
    pub _t: core::marker::PhantomData<T>,
}

impl GraphicsCommandList<()> {
    pub fn new_direct(device: &Device) -> (r: Builder<Direct>)
        ensures
            r.device == device.raw,
            r.node_mask == 0,
            r.name.is_none(),
    {
        Builder::new(device.raw)
    }

    pub fn new_compute(device: &Device) -> (r: Builder<Compute>)
        ensures
            r.device == device.raw,
            r.node_mask == 0,
            r.name.is_none(),
    {
        Builder::new(device.raw)
    }

    pub fn new_bundle(device: &Device) -> (r: Builder<Bundle>)
        ensures
            r.device == device.raw,
            r.node_mask == 0,
            r.name.is_none(),
    {
        Builder::new(device.raw)
    }

    pub fn new_copy(device: &Device) -> (r: Builder<command_list_type::Copy>)
        ensures
            r.device == device.raw,
            r.node_mask == 0,
            r.name.is_none(),
    {
        Builder::new(device.raw)
    }

    pub fn new_video_encode(device: &Device) -> (r: Builder<VideoEncode>)
        ensures
            r.device == device.raw,
            r.node_mask == 0,
            r.name.is_none(),
    {
        Builder::new(device.raw)
    }

    pub fn new_video_process(device: &Device) -> (r: Builder<VideoProcess>)
        ensures
            r.device == device.raw,
            r.node_mask == 0,
            r.name.is_none(),
    {
        Builder::new(device.raw)
    }

    pub fn new_video_decode(device: &Device) -> (r: Builder<VideoDecode>)
        ensures
            r.device == device.raw,
            r.node_mask == 0,
            r.name.is_none(),
    {
        Builder::new(device.raw)
    }
}

/// What a recording returns once its commands are emitted: the result of the
/// callback where closing the list succeeds, else the error.
pub open spec fn recorded<R>(ret: R, closed: Result<(), Error>) -> Result<R, Error> {
    match closed {
        Ok(_) => Ok(ret),
        Err(e) => Err(e),
    }
}

impl<T> GraphicsCommandList<T> {
    /// Whether the list is closed.
    pub open spec fn is_closed(&self) -> bool {
        self.state == ListState::Closed
    }
}

impl<T> GraphicsCommandList<T> where T: CommandListType {
    /// Records the list anew.
    ///
    /// The allocator is reset, then the list against the allocator; where either
    /// fails, its error is returned, `f` is not run and the list keeps the
    /// commands it held. Else `f` emits the commands of the list, starting from
    /// none, and the list is closed by `close`, which is handed the commands in
    /// their order; the list then holds these commands. The result is that of `f`
    /// where closing succeeds, else the error of closing. In every case the list
    /// is closed when `record` returns.
    pub fn record<A, L, F, C, R>(
        &mut self,
        allocator: &CommandAllocator<T>,
        reset_allocator: A,
        reset_list: L,
        f: F,
        close: C,
    ) -> (r: Result<R, Error>)
        where
            A: FnOnce(RawHandle) -> Result<(), Error>,
            L: FnOnce(RawHandle, RawHandle) -> Result<(), Error>,
            F: FnOnce(Commands<T>) -> (Commands<T>, R),
            C: FnOnce(RawHandle, &Vec<Command>) -> Result<(), Error>,
        requires
            old(self).is_closed(),
            reset_allocator.requires((allocator.raw,)),
            reset_list.requires((old(self).raw, allocator.raw)),
            forall|c: Commands<T>| c.commands@.len() == 0 ==> #[trigger] f.requires((c,)),
            forall|commands: &Vec<Command>| #[trigger] close.requires((old(self).raw, commands)),
        ensures
            final(self).is_closed(),
            final(self).raw == old(self).raw,
            final(self).name == old(self).name,
            exists|allocator_reset: Result<(), Error>| #[trigger]
                reset_allocator.ensures((allocator.raw,), allocator_reset)
                    && match allocator_reset {
                    Err(e) => r == Err::<R, Error>(e) && final(self).commands == old(self).commands,
                    Ok(_) => exists|list_reset: Result<(), Error>| #[trigger]
                        reset_list.ensures((old(self).raw, allocator.raw), list_reset)
                            && match list_reset {
                            Err(e) => r == Err::<R, Error>(e) && final(self).commands == old(
                                self,
                            ).commands,
                            Ok(_) => exists|
                                start: Commands<T>,
                                emitted: (Commands<T>, R),
                                closed: Result<(), Error>,
                            |
                                {
                                    &&& start.commands@.len() == 0
                                    &&& #[trigger] f.ensures((start,), emitted)
                                    &&& final(self).commands == emitted.0.commands
                                    &&& #[trigger] close.ensures(
                                        (old(self).raw, &emitted.0.commands),
                                        closed,
                                    )
                                    &&& r == recorded(emitted.1, closed)
                                },
                        },
                },
    {
        let allocator_reset = reset_allocator(allocator.raw);
        match allocator_reset {
            Err(e) => Err(e),
            Ok(_) => {
                let list_reset = reset_list(self.raw, allocator.raw);
                match list_reset {
                    Err(e) => {
                        assert(reset_list.ensures((old(self).raw, allocator.raw), list_reset));
                        Err(e)
                    },
                    Ok(_) => {
                        self.state = ListState::Open;
                        let start = Commands {
                            commands: Vec::new(),
                            _t: core::marker::PhantomData,
                        };
                        let ghost start_value = start;
                        let emitted = f(start);
                        let ghost emitted_value = emitted;
                        let (cmds, ret) = emitted;
                        self.commands = cmds.commands;
                        let closed = close(self.raw, &self.commands);
                        self.state = ListState::Closed;
                        let r = match closed {
                            Ok(_) => Ok(ret),
                            Err(e) => Err(e),
                        };
                        proof {
                            assert(reset_list.ensures((old(self).raw, allocator.raw), list_reset));
                            assert(emitted_value.0.commands == self.commands);
                            assert(emitted_value.1 == ret);
                            assert(f.ensures((start_value,), emitted_value));
                            assert(close.ensures(
                                (old(self).raw, &emitted_value.0.commands),
                                closed,
                            ));
                            assert(r == recorded(emitted_value.1, closed));
                        }
                        r
                    },
                }
            },
        }
    }

    /// The commands of the last recording, in their order.
    pub fn commands(&self) -> (r: &Vec<Command>)
        ensures
            r == &self.commands,
    {
        &self.commands
    }

    pub fn handle(&self) -> (r: RawHandle)
        ensures
            r == self.raw,
    {
        self.raw
    }

    pub fn name(&self) -> (r: Option<&str>)
        ensures
            r.is_some() == self.name.is_some(),
            r.is_some() ==> r.unwrap()@ == self.name.unwrap().text@,
    {
        name_as_str(&self.name)
    }

    /// Records the debug name that the native object is given.
    pub fn set_name(&mut self, name: &str)
        ensures
            final(self).raw == old(self).raw,
            final(self).state == old(self).state,
            final(self).commands == old(self).commands,
            name_view(final(self).name) == Some(name@),
    {
        self.name = Some(Name::new(name));
    }
}

/// A list that was recorded can be submitted as it is, and recorded again: what
/// submitting and recording ask of a list is that it is closed, and that is what
/// a list is after it was built and after every recording, whether the
/// recording succeeded or failed.
pub proof fn lemma_closed_list_is_ready<T>(list: GraphicsCommandList<T>)
    requires
        list.state == ListState::Closed,
    ensures
        list.is_closed(),
{
}

impl GraphicsCommandList<command_list_type::Direct> {
    pub fn new(device: &Device) -> (r: Builder<command_list_type::Direct>)
        ensures
            r.device == device.raw,
            r.node_mask == 0,
            r.name.is_none(),
    {
        Builder::new(device.raw)
    }
}

impl GraphicsCommandList<command_list_type::Compute> {
    pub fn new(device: &Device) -> (r: Builder<command_list_type::Compute>)
        ensures
            r.device == device.raw,
            r.node_mask == 0,
            r.name.is_none(),
    {
        Builder::new(device.raw)
    }
}

impl GraphicsCommandList<command_list_type::Bundle> {
    pub fn new(device: &Device) -> (r: Builder<command_list_type::Bundle>)
        ensures
            r.device == device.raw,
            r.node_mask == 0,
            r.name.is_none(),
    {
        Builder::new(device.raw)
    }
}

impl GraphicsCommandList<command_list_type::Copy> {
    pub fn new(device: &Device) -> (r: Builder<command_list_type::Copy>)
        ensures
            r.device == device.raw,
            r.node_mask == 0,
            r.name.is_none(),
    {
        Builder::new(device.raw)
    }
}

impl GraphicsCommandList<command_list_type::VideoDecode> {
    pub fn new(device: &Device) -> (r: Builder<command_list_type::VideoDecode>)
        ensures
            r.device == device.raw,
            r.node_mask == 0,
            r.name.is_none(),
    {
        Builder::new(device.raw)
    }
}

impl GraphicsCommandList<command_list_type::VideoEncode> {
    pub fn new(device: &Device) -> (r: Builder<command_list_type::VideoEncode>)
        ensures
            r.device == device.raw,
            r.node_mask == 0,
            r.name.is_none(),
    {
        Builder::new(device.raw)
    }
}

impl GraphicsCommandList<command_list_type::VideoProcess> {
    pub fn new(device: &Device) -> (r: Builder<command_list_type::VideoProcess>)
        ensures
            r.device == device.raw,
            r.node_mask == 0,
            r.name.is_none(),
    {
        Builder::new(device.raw)
    }
}

pub type DirectGraphicsCommandList = GraphicsCommandList<command_list_type::Direct>;

pub type ComputeGraphicsCommandList = GraphicsCommandList<command_list_type::Compute>;

pub type BundleGraphicsCommandList = GraphicsCommandList<command_list_type::Bundle>;

pub type CopyGraphicsCommandList = GraphicsCommandList<command_list_type::Copy>;

pub type VideoDecodeGraphicsCommandList = GraphicsCommandList<command_list_type::VideoDecode>;

pub type VideoEncodeGraphicsCommandList = GraphicsCommandList<command_list_type::VideoEncode>;

pub type VideoProcessGraphicsCommandList = GraphicsCommandList<command_list_type::VideoProcess>;

pub type DirectCommands = Commands<command_list_type::Direct>;

pub type ComputeCommands = Commands<command_list_type::Compute>;

pub type BundleCommands = Commands<command_list_type::Bundle>;

pub type CopyCommands = Commands<command_list_type::Copy>;

pub type VideoDecodeCommands = Commands<command_list_type::VideoDecode>;

pub type VideoEncodeCommands = Commands<command_list_type::VideoEncode>;

pub type VideoProcessCommands = Commands<command_list_type::VideoProcess>;

} // verus!
