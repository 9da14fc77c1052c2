use dxwr::d3d12::{
    D3D12_DEFAULT_SHADER_4_COMPONENT_MAPPING, D3D12_DESCRIPTOR_HEAP_FLAG_SHADER_VISIBLE,
    D3D12_DESCRIPTOR_HEAP_TYPE_CBV_SRV_UAV, D3D12_DESCRIPTOR_HEAP_TYPE_DSV,
    D3D12_DESCRIPTOR_HEAP_TYPE_RTV, D3D12_DESCRIPTOR_HEAP_TYPE_SAMPLER,
    D3D12_RTV_DIMENSION_TEXTURE2D, D3D12_SRV_DIMENSION_BUFFER, D3D12_SRV_DIMENSION_TEXTURECUBEARRAY,
    D3D12_UAV_DIMENSION_TEXTURE3D, D3D12_DSV_DIMENSION_TEXTURE2DARRAY,
};
use dxwr::descriptor_heap::descriptor_heap_type::{CbvSrvUav, Dsv, Rtv, Sampler};
use dxwr::descriptor_heap::{DescriptorCopy, RangeBound, RawDescriptorHeap, Type};
use dxwr::{
    ConstantBufferViewDesc, DepthStencilViewDesc, DescriptorHeap, Device, Error, Float, RawHandle,
    RenderTargetViewDesc, Resource, SamplerDesc, ShaderResourceViewDesc, UnorderedAccessViewDesc,
};

fn device() -> Device {
    Device::new().min_feature_level(dxwr::d3d::D3D_FEATURE_LEVEL_12_1).build(Ok(RawHandle::new(1))).unwrap()
}

fn raw_heap(increment: u32) -> RawDescriptorHeap {
    RawDescriptorHeap { raw: RawHandle::new(0x30), increment, cpu_start: 0x1000, gpu_start: 0x8000_0000 }
}

#[test]
fn heap_kinds_have_the_native_values() {
    assert_eq!(CbvSrvUav::VALUE, D3D12_DESCRIPTOR_HEAP_TYPE_CBV_SRV_UAV);
    assert_eq!(Sampler::VALUE, D3D12_DESCRIPTOR_HEAP_TYPE_SAMPLER);
    assert_eq!(Rtv::VALUE, D3D12_DESCRIPTOR_HEAP_TYPE_RTV);
    assert_eq!(Dsv::VALUE, D3D12_DESCRIPTOR_HEAP_TYPE_DSV);
    assert_eq!((CbvSrvUav::VALUE, Sampler::VALUE, Rtv::VALUE, Dsv::VALUE), (0, 1, 2, 3));
}

#[test]
fn heap_builder_collects_the_description() {
    let b = DescriptorHeap::new_rtv(&device())
        .len(2)
        .flags(D3D12_DESCRIPTOR_HEAP_FLAG_SHADER_VISIBLE)
        .node_mask(1)
        .name("rtv");
    assert_eq!(b.desc.ty, D3D12_DESCRIPTOR_HEAP_TYPE_RTV);
    assert_eq!(b.desc.num_descriptors, 2);
    assert_eq!(b.desc.flags, D3D12_DESCRIPTOR_HEAP_FLAG_SHADER_VISIBLE);
    assert_eq!(b.desc.node_mask, 1);
    let heap = b.build(Ok(raw_heap(32))).unwrap();
    assert_eq!(heap.len(), 2);
    assert_eq!(heap.handle(), RawHandle::new(0x30));
    assert_eq!(heap.name(), Some("rtv"));
    assert_eq!(heap.inc, 32);
    let failed = DescriptorHeap::new_dsv(&device()).len(1).build(Err(Error::new(-4)));
    assert_eq!(failed.unwrap_err(), Error::new(-4));
}

#[test]
fn handles_lie_one_increment_apart() {
    let heap = DescriptorHeap::<CbvSrvUav>::new(&device()).len(16).build(Ok(raw_heap(48))).unwrap();
    assert_eq!(heap.cpu_handle(0).handle(), 0x1000);
    assert_eq!(heap.gpu_handle(0).handle(), 0x8000_0000);
    for i in 0..15 {
        assert_eq!(heap.cpu_handle(i + 1).handle() - heap.cpu_handle(i).handle(), 48);
        assert_eq!(heap.gpu_handle(i + 1).handle() - heap.gpu_handle(i).handle(), 48);
    }
    assert_eq!(heap.cpu_handle(15).handle(), 0x1000 + 15 * 48);
    assert_eq!(heap.cpu_handle(3).heap, heap.handle());
    assert_eq!(heap.gpu_handle(3).clone().ptr, 0x8000_0000 + 3 * 48);
}

#[test]
fn copy_range_reads_its_bounds() {
    let dest = DescriptorHeap::<CbvSrvUav>::new(&device()).len(8).build(Ok(raw_heap(32))).unwrap();
    let src = DescriptorHeap::<CbvSrvUav>::new(&device())
        .len(8)
        .build(
            Ok(
                RawDescriptorHeap { raw: RawHandle::new(0x31), increment: 32, cpu_start: 0x5000, gpu_start: 0 },
            ),
        )
        .unwrap();
    let all = dest.copy_range(&src, RangeBound::Unbounded, RangeBound::Unbounded, 0);
    assert_eq!(
        all,
        DescriptorCopy {
            num_descriptors: 8,
            dest_start: 0x1000,
            src_start: 0x5000,
            ty: D3D12_DESCRIPTOR_HEAP_TYPE_CBV_SRV_UAV,
        }
    );
    let some = dest.copy_range(&src, RangeBound::Included(2), RangeBound::Excluded(5), 1);
    assert_eq!(some.num_descriptors, 3);
    assert_eq!(some.dest_start, 0x1000 + 2 * 32);
    assert_eq!(some.src_start, 0x5000 + 32);
    let inclusive = dest.copy_range(&src, RangeBound::Excluded(1), RangeBound::Included(4), 7);
    assert_eq!(inclusive.num_descriptors, 3);
    assert_eq!(inclusive.dest_start, 0x1000 + 2 * 32);
    assert_eq!(inclusive.src_start, 0x5000 + 7 * 32);
}

#[test]
fn views_are_written_at_the_handle_of_their_index() {
    let resource = Resource::from_raw(RawHandle::new(0x40));
    let counter = Resource::from_raw(RawHandle::new(0x41));
    let mut rtv = DescriptorHeap::<Rtv>::new(&device()).len(2).build(Ok(raw_heap(32))).unwrap();
    let w = rtv.create_render_target_view(1, &resource, RenderTargetViewDesc::none().as_ref());
    assert_eq!(w.dest, 0x1000 + 32);
    assert_eq!(w.resource, Some(RawHandle::new(0x40)));
    assert!(w.desc.is_none());
    let desc = RenderTargetViewDesc::texture2d().mip_slice(1).plane_slice(2);
    let w = rtv.create_render_target_view(0, &resource, Some(&desc));
    assert_eq!(w.dest, 0x1000);
    assert_eq!(w.desc.unwrap().view_dimension, D3D12_RTV_DIMENSION_TEXTURE2D);
    assert_eq!(w.desc.unwrap().mip_slice, 1);
    assert_eq!(w.desc.unwrap().plane_slice, 2);

    let mut heap = DescriptorHeap::<CbvSrvUav>::new(&device()).len(4).build(Ok(raw_heap(64))).unwrap();
    let cbv = ConstantBufferViewDesc::new().buffer_location(0x100).size_in_bytes(256);
    let w = heap.create_constant_buffer_view(2, Some(&cbv));
    assert_eq!((w.dest, w.resource, w.desc), (0x1000 + 128, None, Some(cbv)));
    let srv = ShaderResourceViewDesc::buffer().first_element(4).num_elements(8).structure_byte_stride(16);
    let w = heap.create_shader_resource_view(3, &resource, Some(&srv));
    assert_eq!(w.dest, 0x1000 + 192);
    assert_eq!(w.desc.unwrap().num_elements, 8);
    let uav = UnorderedAccessViewDesc::texture3d().mip_slice(1).first_w_slice(2).w_size(3);
    let w = heap.create_unordered_access_view(0, &resource, Some(&counter), Some(&uav));
    assert_eq!(w.counter_resource, Some(RawHandle::new(0x41)));
    assert_eq!(w.desc.unwrap().view_dimension, D3D12_UAV_DIMENSION_TEXTURE3D);
    assert_eq!(w.desc.unwrap().w_size, 3);

    let mut dsv = DescriptorHeap::<Dsv>::new(&device()).len(1).build(Ok(raw_heap(8))).unwrap();
    let d = DepthStencilViewDesc::texture2d_array().mip_slice(1).first_array_slice(2).array_size(3).flags(1);
    let w = dsv.create_depth_stencil_view(0, &resource, Some(&d));
    assert_eq!(w.desc.unwrap().view_dimension, D3D12_DSV_DIMENSION_TEXTURE2DARRAY);
    assert_eq!((w.desc.unwrap().array_size, w.desc.unwrap().flags), (3, 1));

    let sampler = DescriptorHeap::<Sampler>::new(&device()).len(1).build(Ok(raw_heap(8))).unwrap();
    let s = SamplerDesc::new().filter(0x55).max_anisotropy(16).min_lod(Float::one());
    let w = sampler.create_sampler(0, &s);
    assert_eq!(w.dest, 0x1000);
    assert_eq!(w.desc, Some(s));
}

#[test]
fn view_descriptions_start_from_their_dimension() {
    let srv = ShaderResourceViewDesc::buffer();
    assert_eq!(srv.view_dimension, D3D12_SRV_DIMENSION_BUFFER);
    assert_eq!(srv.shader_4_component_mapping, D3D12_DEFAULT_SHADER_4_COMPONENT_MAPPING);
    assert_eq!(srv.shader_4_component_mapping, 5768);
    let cube = ShaderResourceViewDesc::texture_cube_array()
        .format(28)
        .most_detailed_mip(1)
        .mip_levels(2)
        .first_2d_array_face(6)
        .num_cubes(3)
        .resource_min_lod_clamp(Float::from_bits(0.5f32.to_bits()));
    assert_eq!(cube.view_dimension, D3D12_SRV_DIMENSION_TEXTURECUBEARRAY);
    assert_eq!((cube.format, cube.most_detailed_mip, cube.mip_levels), (28, 1, 2));
    assert_eq!((cube.first_2d_array_face, cube.num_cubes), (6, 3));
    assert_eq!(f32::from_bits(cube.resource_min_lod_clamp.bits), 0.5);
    let rt = ShaderResourceViewDesc::raytracing_acceleration_structure().location(0xabc);
    assert_eq!(rt.location, 0xabc);
    assert!(ShaderResourceViewDesc::none().is_none());
    assert!(UnorderedAccessViewDesc::none().is_none());
    assert!(DepthStencilViewDesc::none().is_none());
}

#[test]
fn heap_can_be_renamed() {
    let mut heap = DescriptorHeap::<Rtv>::new(&device()).len(2).build(Ok(raw_heap(32))).unwrap();
    assert_eq!(heap.name(), None);
    heap.set_name("targets");
    assert_eq!(heap.name(), Some("targets"));
    assert_eq!(heap.len(), 2);
    assert!(heap.same(&heap));
}
