//! A typed object model over a Direct3D 12 style graphics API.
//!
//! The library holds what the object model decides: which category a command
//! list, its allocator and its queue agree on, which kind of heap a descriptor
//! handle belongs to, which fields a description of some dimension has, which
//! value the next signal of a fence gets, and in which order the native calls
//! of an operation are made and which of their errors is returned.
//!
//! The native calls themselves are not made here. A native object is known by
//! its [`RawHandle`]. An operation that makes one native call at its edge takes
//! the outcome of that call as a value; an operation that makes native calls
//! in between its decisions takes them as closures, and calls them itself.
//! Commands are recorded as values of [`Command`] and handed to the native
//! command list when the recording is closed.

pub mod adapter;
pub mod command_allocator;
pub mod command_list;
pub mod command_list_type;
pub mod command_queue;
pub mod d3d;
pub mod d3d12;
pub mod debug;
pub mod descriptor_heap;
pub mod device;
pub mod dxc;
pub mod dxgi;
pub mod features;
pub mod fence;
pub mod foundation;
pub mod pipeline_state;
pub mod raytracing;
pub mod reflection;
pub mod resource_barriers;
pub mod resources;
pub mod root_signature;
pub mod state_object;
pub mod swap_chain;
pub mod utility;

pub use adapter::{enum_adapters, enum_warp_adapter, Adapter, AdapterId, AdapterMemoryInfo};
pub use command_allocator::{
    BundleCommandAllocator, CommandAllocator, ComputeCommandAllocator, CopyCommandAllocator,
    DirectCommandAllocator, VideoDecodeCommandAllocator, VideoEncodeCommandAllocator,
    VideoProcessCommandAllocator,
};
pub use command_list::{
    BundleCommands, BundleGraphicsCommandList, Command, Commands, ComputeCommands,
    ComputeGraphicsCommandList, CopyCommands, CopyGraphicsCommandList, DirectCommands,
    DirectGraphicsCommandList, DiscardRegion, DispatchRaysDesc, GraphicsCommandList,
    IndexBufferView, TextureCopyLocation, VertexBufferView, Viewport,
};
pub use command_queue::{
    CommandQueue, ComputeCommandQueue, CopyCommandQueue, DirectCommandQueue,
    VideoDecodeCommandQueue, VideoEncodeCommandQueue, VideoProcessCommandQueue,
};
pub use debug::{
    enable_debug_layer, exception_handler_proc, DeviceRemovedExtendedDataSettings, DredEnablement,
};
pub use descriptor_heap::{
    descriptor_heap_type, CbvSrvUavCpuDescriptorHandle, CbvSrvUavDescriptorHeap,
    CbvSrvUavGpuDescriptorHandle, ConstantBufferViewDesc, CpuDescriptorHandle,
    DepthStencilViewDesc, DescriptorHeap, DsvCpuDescriptorHandle, DsvDescriptorHeap,
    DsvGpuDescriptorHandle, GpuDescriptorHandle, RenderTargetViewDesc, RtvCpuDescriptorHandle,
    RtvDescriptorHeap, RtvGpuDescriptorHandle, SamplerCpuDescriptorHandle, SamplerDesc,
    SamplerDescriptorHeap, SamplerGpuDescriptorHandle, ShaderResourceViewDesc,
    UnorderedAccessViewDesc,
};
pub use device::{Device, PlacedSubresourceFootprint, SubresourceFootprint};
pub use dxc::{Blob, BlobType, RefBlob};
pub use features::{Feature, RequestFeature};
pub use fence::{Fence, Signal};
pub use pipeline_state::{
    As, BlendDesc, ComputePipelineStateDesc, DepthStencilDesc, DepthStencilFormat,
    DepthStencilOpDesc, Ds, GraphicsPipelineStateDesc, Gs, Hs, IbStripCutValue, InputElementDesc,
    InputLayout, Ms, PipelineFlags, PipelineState, PipelineStateStreamDesc, PrimitiveTopologyType,
    Ps, RasterizerDesc, RenderTargetBlendDesc, RenderTargetFormats, SampleMask, ShaderBytecode,
    SoDeclarationEntry, StreamOutputDesc, StreamSubobject, Subobject, ViewInstanceLocation,
    ViewInstancingDesc, Vs,
};
pub use raytracing::{
    BuildRaytracingAccelerationStructureDesc, BuildRaytracingAccelerationStructureInputs,
    BuildRaytracingAccelerationStructureInputsType, RaytracingAccelerationStructurePrebuildInfo,
    RaytracingGeometryDesc, RaytracingInstanceDesc,
};
pub use reflection::{LibraryReflection, ReflectionType, ShaderReflection};
pub use resource_barriers::{AliasingBarrier, ResourceBarrier, TransitionBarrier, UavBarrier};
pub use resources::{ClearValue, Heap, HeapProperties, Resource, ResourceDesc};
pub use root_signature::{
    root_parameter_type, DescriptorRange, RootParameter, RootSignature, RootSignatureDesc,
    StaticSamplerDesc,
};
pub use state_object::{
    DxilLibraryDesc, DxilSubobjectToExportsAssociation, ExistingCollectionDesc, ExportDesc,
    GlobalRootSignature, HitGroupDesc, LocalRootSignature, NodeMask, RaytracingPipelineConfig,
    RaytracingShaderConfig, StateObject, StateObjectConfig, StateObjectProperties,
    SubobjectToExportsAssociation,
};
pub use swap_chain::{ResizeBuffers, SwapChain};
pub use utility::{
    align_size, align_size_for_constant_buffer, Error, EventHandle, Float, GpuVirtualAddress,
    GpuVirtualAddressAndStride, GpuVirtualAddressRange, GpuVirtualAddressRangeAndStride, Handle,
    Name, RawHandle, Rect, SampleDesc,
};
