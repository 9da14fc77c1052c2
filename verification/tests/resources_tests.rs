use dxwr::d3d12::{
    D3D12_HEAP_FLAG_NONE, D3D12_HEAP_TYPE_CUSTOM, D3D12_HEAP_TYPE_DEFAULT,
    D3D12_HEAP_TYPE_GPU_UPLOAD,
    D3D12_HEAP_TYPE_READBACK, D3D12_HEAP_TYPE_UPLOAD, D3D12_RESOURCE_DIMENSION_BUFFER,
    D3D12_RESOURCE_DIMENSION_TEXTURE1D, D3D12_RESOURCE_DIMENSION_TEXTURE2D,
    D3D12_RESOURCE_STATE_COMMON, D3D12_RESOURCE_STATE_GENERIC_READ, D3D12_TEXTURE_LAYOUT_ROW_MAJOR,
    D3D12_TEXTURE_LAYOUT_UNKNOWN,
};
use dxwr::dxgi::{DXGI_FORMAT_D32_FLOAT, DXGI_FORMAT_R8G8B8A8_UNORM};
use dxwr::resource_barriers::Barrier;
use dxwr::resources::heap::HeapDesc;
use dxwr::resources::Unmap;
use dxwr::{
    AliasingBarrier, ClearValue, Device, Error, Float, Heap, HeapProperties, RawHandle, Resource,
    ResourceBarrier, ResourceDesc, SampleDesc, TransitionBarrier, UavBarrier,
};

fn device() -> Device {
    Device::new().min_feature_level(dxwr::d3d::D3D_FEATURE_LEVEL_12_1).build(Ok(RawHandle::new(1))).unwrap()
}

#[test]
fn heap_properties_start_from_their_type() {
    for (props, ty) in [
        (HeapProperties::default(), D3D12_HEAP_TYPE_DEFAULT),
        (HeapProperties::upload(), D3D12_HEAP_TYPE_UPLOAD),
        (HeapProperties::readback(), D3D12_HEAP_TYPE_READBACK),
        (HeapProperties::custom(), D3D12_HEAP_TYPE_CUSTOM),
        (HeapProperties::gpu_upload(), D3D12_HEAP_TYPE_GPU_UPLOAD),
    ] {
        assert_eq!(props.ty, ty);
        assert_eq!((props.creation_node_mask, props.visible_node_mask), (1, 1));
        assert_eq!((props.cpu_page_property, props.memory_pool_preference), (0, 0));
    }
    let p = HeapProperties::custom().cpu_page_property(2).creation_node_mask(4).visible_node_mask(8);
    assert_eq!((p.cpu_page_property, p.creation_node_mask, p.visible_node_mask), (2, 4, 8));
}

#[test]
fn resource_descriptions_start_from_their_dimension() {
    let b = ResourceDesc::buffer();
    assert_eq!(b.dimension, D3D12_RESOURCE_DIMENSION_BUFFER);
    assert_eq!((b.height, b.depth_or_array_size, b.mip_levels), (1, 1, 1));
    assert_eq!(b.layout, D3D12_TEXTURE_LAYOUT_ROW_MAJOR);
    assert_eq!(b.sample_desc, SampleDesc { count: 1, quality: 0 });
    let b = b.width(4096).alignment(65536).flags(4);
    assert_eq!((b.width, b.alignment, b.flags), (4096, 65536, 4));
    let t1 = ResourceDesc::texture1d().width(256).array_size(2).mip_levels(3);
    assert_eq!(t1.dimension, D3D12_RESOURCE_DIMENSION_TEXTURE1D);
    assert_eq!((t1.width, t1.height, t1.depth_or_array_size, t1.mip_levels), (256, 1, 2, 3));
    let t2 = ResourceDesc::texture2d()
        .width(1024)
        .height(768)
        .format(DXGI_FORMAT_R8G8B8A8_UNORM)
        .array_size(6)
        .mip_levels(1)
        .sample_desc(SampleDesc::new(4, 0))
        .layout(1);
    assert_eq!(t2.dimension, D3D12_RESOURCE_DIMENSION_TEXTURE2D);
    assert_eq!((t2.width, t2.height, t2.depth_or_array_size), (1024, 768, 6));
    assert_eq!((t2.format, t2.sample_desc.count, t2.layout), (DXGI_FORMAT_R8G8B8A8_UNORM, 4, 1));
    assert_eq!(ResourceDesc::texture2d().layout, D3D12_TEXTURE_LAYOUT_UNKNOWN);
    assert_eq!(ResourceDesc::texture2d().height, 0);
    assert_eq!(t2.untyped().width, 1024);
}

#[test]
fn clear_values_keep_their_format() {
    let color = [Float::zero(), Float::one(), Float::zero(), Float::one()];
    let c = ClearValue::color(DXGI_FORMAT_R8G8B8A8_UNORM, color);
    assert_eq!(c, ClearValue::Color { format: DXGI_FORMAT_R8G8B8A8_UNORM, color });
    assert_eq!(c.format(), DXGI_FORMAT_R8G8B8A8_UNORM);
    let d = ClearValue::depth_stencil(DXGI_FORMAT_D32_FLOAT, Float::one(), 0);
    assert_eq!(
        d,
        ClearValue::DepthStencil { format: DXGI_FORMAT_D32_FLOAT, depth: Float::one(), stencil: 0 },
    );
    assert_eq!(d.format(), DXGI_FORMAT_D32_FLOAT);
}

#[test]
fn committed_resource_builder_collects_what_it_is_given() {
    let props = HeapProperties::upload();
    let desc = ResourceDesc::buffer().width(256);
    let b = Resource::new(&device());
    assert_eq!(b.heap_flags, D3D12_HEAP_FLAG_NONE);
    assert_eq!(b.init_state, D3D12_RESOURCE_STATE_COMMON);
    let b = b
        .heap_properties(&props)
        .resource_desc(&desc)
        .heap_flags(2)
        .init_state(D3D12_RESOURCE_STATE_GENERIC_READ)
        .clear_value(ClearValue::color(28, [Float::zero(); 4]))
        .name("vertex_buffer");
    assert_eq!(b.heap_props, props);
    assert_eq!(b.desc.width, 256);
    assert_eq!((b.heap_flags, b.init_state), (2, D3D12_RESOURCE_STATE_GENERIC_READ));
    assert!(b.clear_value.is_some());
    let mut r = b.build(Ok(RawHandle::new(0x70))).unwrap();
    assert_eq!(r.handle(), RawHandle::new(0x70));
    assert_eq!(r.name(), Some("vertex_buffer"));
    r.set_name("vb");
    assert_eq!(r.name(), Some("vb"));
    assert_eq!(r.get_gpu_virtual_address(0x1234).0, 0x1234);
    let failed = Resource::new(&device()).heap_properties(&props).resource_desc(&desc).build(Err(Error::new(-5)));
    assert_eq!(failed.unwrap_err(), Error::new(-5));
}

#[test]
fn placed_resource_is_built_in_a_heap() {
    let props = HeapProperties::default();
    let hb = Heap::new(&device()).size(1 << 20).heap_properties(&props).alignment(65536).flags(1).name("heap");
    assert_eq!(
        hb.desc(),
        HeapDesc { size_in_bytes: 1 << 20, properties: props, alignment: 65536, flags: 1 },
    );
    let heap = hb.build(Ok(RawHandle::new(0x80))).unwrap();
    assert_eq!((heap.handle(), heap.name()), (RawHandle::new(0x80), Some("heap")));
    let desc = ResourceDesc::buffer().width(512).untyped();
    let b = Resource::from_heap(&device()).heap(&heap).offset(4096).resource_desc(&desc).init_state(4).name("placed");
    assert_eq!(
        (b.heap, b.offset, b.resource_desc.width, b.init_state),
        (RawHandle::new(0x80), 4096, 512, 4),
    );
    let r = b.build(Ok(RawHandle::new(0x81))).unwrap();
    assert_eq!((r.handle(), r.name()), (RawHandle::new(0x81), Some("placed")));
}

#[test]
fn mapping_owes_one_unmap_of_the_subresource_mapped() {
    let r = Resource::from_raw(RawHandle::new(0x90));
    assert_eq!(r.name(), None);
    let mapped = r.map(3, Ok(0xdead_0000)).unwrap();
    assert_eq!(mapped.as_ptr(), 0xdead_0000);
    assert_eq!(mapped.as_mut_ptr(), 0xdead_0000);
    assert_eq!(mapped.release(), Unmap { resource: RawHandle::new(0x90), subresource: 3 });
    assert_eq!(r.map(0, Err(Error::new(-2))).unwrap_err(), Error::new(-2));
    assert!(r.same(&Resource::from_raw(RawHandle::new(0x90))));
    assert!(!r.same(&Resource::from_raw(RawHandle::new(0x91))));
}

#[test]
fn barriers_are_built_field_by_field() {
    let a = Resource::from_raw(RawHandle::new(1));
    let b = Resource::from_raw(RawHandle::new(2));
    let t = TransitionBarrier::new().resource(&a).subresource(2).state_before(4).state_after(8).flags(1);
    assert_eq!(
        t.as_raw(),
        Barrier::Transition { resource: Some(RawHandle::new(1)), subresource: 2, state_before: 4, state_after: 8, flags: 1 }
    );
    assert_eq!(t.as_raw().type_value(), 0);
    assert_eq!(
        TransitionBarrier::new().as_raw(),
        Barrier::Transition { resource: None, subresource: 0, state_before: 0, state_after: 0, flags: 0 }
    );
    let al = AliasingBarrier::new().resource_before(&a).resource_after(&b).flags(2);
    assert_eq!(
        al.as_raw(),
        Barrier::Aliasing { resource_before: Some(RawHandle::new(1)), resource_after: Some(RawHandle::new(2)), flags: 2 }
    );
    assert_eq!(al.as_raw().type_value(), 1);
    let u = UavBarrier::new().resource(&b);
    assert_eq!(u.as_raw(), Barrier::Uav { resource: Some(RawHandle::new(2)), flags: 0 });
    assert_eq!(u.as_raw().type_value(), 2);
}
