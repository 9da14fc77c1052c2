use dxwr::command_list::{Box3, ListState};
use dxwr::command_list_type::{Bundle, CommandListType, Compute, Direct, VideoDecode, VideoEncode, VideoProcess};
use dxwr::d3d12::{
    D3D12_CLEAR_FLAG_DEPTH, D3D12_CLEAR_FLAG_STENCIL, D3D12_COMMAND_LIST_TYPE_BUNDLE,
    D3D12_COMMAND_LIST_TYPE_COMPUTE, D3D12_COMMAND_LIST_TYPE_COPY, D3D12_COMMAND_LIST_TYPE_DIRECT,
    D3D12_COMMAND_LIST_TYPE_VIDEO_DECODE, D3D12_COMMAND_LIST_TYPE_VIDEO_ENCODE,
    D3D12_COMMAND_LIST_TYPE_VIDEO_PROCESS, D3D12_RESOURCE_STATE_PRESENT,
    D3D12_RESOURCE_STATE_RENDER_TARGET, D3D12_TEXTURE_COPY_TYPE_PLACED_FOOTPRINT,
    D3D12_TEXTURE_COPY_TYPE_SUBRESOURCE_INDEX,
};
use dxwr::descriptor_heap::descriptor_heap_type::{CbvSrvUav, Dsv, Rtv, Sampler};
use dxwr::descriptor_heap::RawDescriptorHeap;
use dxwr::resource_barriers::Barrier;
use dxwr::{
    Command, CommandAllocator, Commands, DescriptorHeap, Device, DirectCommandAllocator,
    DirectGraphicsCommandList, DiscardRegion, DispatchRaysDesc, Error, Float, GpuVirtualAddress,
    GraphicsCommandList, IndexBufferView, PlacedSubresourceFootprint, RawHandle, Rect, Resource,
    TextureCopyLocation, TransitionBarrier, UavBarrier, VertexBufferView, Viewport,
};
use std::cell::Cell;

fn device() -> Device {
    Device::new().min_feature_level(dxwr::d3d::D3D_FEATURE_LEVEL_12_1).build(Ok(RawHandle::new(1))).unwrap()
}

fn allocator() -> DirectCommandAllocator {
    DirectCommandAllocator::new(&device()).name("alloc").build(Ok(RawHandle::new(0x50))).unwrap()
}

fn list() -> DirectGraphicsCommandList {
    DirectGraphicsCommandList::new(&device())
        .name("list")
        .build(|_| Ok(RawHandle::new(0x51)), |_, _, _| Ok(RawHandle::new(0x52)), |_| Ok(()))
        .unwrap()
}

fn heap<T: dxwr::descriptor_heap::Type>(raw: usize) -> DescriptorHeap<T> {
    dxwr::descriptor_heap::Builder::<T>::len(
        // a builder of the kind `T`, made from the kind-agnostic entry points
        builder_of::<T>(),
        4,
    )
    .build(
        Ok(
            RawDescriptorHeap { raw: RawHandle::new(raw), increment: 16, cpu_start: 0x1000, gpu_start: 0x2000 },
        ),
    )
    .unwrap()
}

fn builder_of<T: dxwr::descriptor_heap::Type>() -> dxwr::descriptor_heap::Builder<T> {
    dxwr::descriptor_heap::Builder {
        device: RawHandle::new(1),
        desc: dxwr::descriptor_heap::DescriptorHeapDesc { ty: T::VALUE, num_descriptors: 0, flags: 0, node_mask: 0 },
        name: None,
        _t: std::marker::PhantomData,
        _len: std::marker::PhantomData,
    }
}

fn record_ok<T: CommandListType, R>(
    list: &mut GraphicsCommandList<T>,
    allocator: &CommandAllocator<T>,
    f: impl FnOnce(Commands<T>) -> (Commands<T>, R),
) -> Result<R, Error> {
    list.record(allocator, |_| Ok(()), |_, _| Ok(()), f, |_, _| Ok(()))
}

#[test]
fn categories_have_the_native_values() {
    assert_eq!(Direct::VALUE, D3D12_COMMAND_LIST_TYPE_DIRECT);
    assert_eq!(Bundle::VALUE, D3D12_COMMAND_LIST_TYPE_BUNDLE);
    assert_eq!(Compute::VALUE, D3D12_COMMAND_LIST_TYPE_COMPUTE);
    assert_eq!(dxwr::command_list_type::Copy::VALUE, D3D12_COMMAND_LIST_TYPE_COPY);
    assert_eq!(VideoDecode::VALUE, D3D12_COMMAND_LIST_TYPE_VIDEO_DECODE);
    assert_eq!(VideoProcess::VALUE, D3D12_COMMAND_LIST_TYPE_VIDEO_PROCESS);
    assert_eq!(VideoEncode::VALUE, D3D12_COMMAND_LIST_TYPE_VIDEO_ENCODE);
    assert_eq!(
        [Direct::VALUE, Bundle::VALUE, Compute::VALUE, dxwr::command_list_type::Copy::VALUE],
        [0, 1, 2, 3]
    );
    assert_eq!([VideoDecode::VALUE, VideoProcess::VALUE, VideoEncode::VALUE], [4, 5, 6]);
}

#[test]
fn allocator_is_built_for_its_category() {
    let b = CommandAllocator::new_compute(&device()).name("c");
    assert_eq!(b.list_type(), D3D12_COMMAND_LIST_TYPE_COMPUTE);
    let a = b.build(Ok(RawHandle::new(7))).unwrap();
    assert_eq!(a.handle(), RawHandle::new(7));
    assert_eq!(a.name(), Some("c"));
    assert_eq!(a.reset(|raw| { assert_eq!(raw, RawHandle::new(7)); Ok(()) }), Ok(()));
    assert_eq!(a.reset(|_| Err(Error::new(-1))), Err(Error::new(-1)));
    let failed = CommandAllocator::new_copy(&device()).build(Err(Error::new(-2)));
    assert_eq!(failed.unwrap_err(), Error::new(-2));
}

#[test]
fn list_is_built_closed_and_empty() {
    let order = Cell::new(0);
    let l = GraphicsCommandList::new_direct(&device())
        .node_mask(3)
        .name("l")
        .build(
            |ty| {
                assert_eq!(ty, D3D12_COMMAND_LIST_TYPE_DIRECT);
                assert_eq!(order.replace(1), 0);
                Ok(RawHandle::new(0x60))
            },
            |mask, ty, alloc| {
                assert_eq!(
                    (mask, ty, alloc),
                    (3, D3D12_COMMAND_LIST_TYPE_DIRECT, RawHandle::new(0x60)),
                );
                assert_eq!(order.replace(2), 1);
                Ok(RawHandle::new(0x61))
            },
            |raw| {
                assert_eq!(raw, RawHandle::new(0x61));
                assert_eq!(order.replace(3), 2);
                Ok(())
            },
        )
        .unwrap();
    assert_eq!(order.get(), 3);
    assert_eq!(l.handle(), RawHandle::new(0x61));
    assert_eq!(l.state, ListState::Closed);
    assert!(l.commands().is_empty());
    assert_eq!(l.name(), Some("l"));
}

#[test]
fn list_builder_stops_at_the_first_error() {
    let r = GraphicsCommandList::new_bundle(&device()).build(
        |_| Err(Error::new(-1)),
        |_, _, _| unreachable!(),
        |_| unreachable!(),
    );
    assert_eq!(r.unwrap_err(), Error::new(-1));
    let r = GraphicsCommandList::new_bundle(&device()).build(
        |_| Ok(RawHandle::new(1)),
        |_, _, _| Err(Error::new(-2)),
        |_| unreachable!(),
    );
    assert_eq!(r.unwrap_err(), Error::new(-2));
    let r = GraphicsCommandList::new_bundle(&device()).build(
        |_| Ok(RawHandle::new(1)),
        |_, _, _| Ok(RawHandle::new(2)),
        |_| Err(Error::new(-3)),
    );
    assert_eq!(r.unwrap_err(), Error::new(-3));
}

#[test]
fn record_resets_emits_and_closes_in_order() {
    let mut l = list();
    let a = allocator();
    let step = Cell::new(0);
    let r = l.record(
        &a,
        |alloc| {
            assert_eq!(alloc, RawHandle::new(0x50));
            assert_eq!(step.replace(1), 0);
            Ok(())
        },
        |raw, alloc| {
            assert_eq!((raw, alloc), (RawHandle::new(0x52), RawHandle::new(0x50)));
            assert_eq!(step.replace(2), 1);
            Ok(())
        },
        |mut cmd| {
            assert_eq!(step.replace(3), 2);
            assert!(cmd.commands.is_empty());
            cmd.draw_instanced(3, 1, 0, 0);
            (cmd, 42)
        },
        |raw, commands| {
            assert_eq!(raw, RawHandle::new(0x52));
            assert_eq!(commands.len(), 1);
            assert_eq!(step.replace(4), 3);
            Ok(())
        },
    );
    assert_eq!(r, Ok(42));
    assert_eq!(step.get(), 4);
    assert_eq!(l.state, ListState::Closed);
    assert!(matches!(
        l.commands()[0],
        Command::DrawInstanced {
            vertex_count_per_instance: 3,
            instance_count: 1,
            start_vertex_location: 0,
            start_instance_location: 0
        }
    ));
}

#[test]
fn record_can_be_repeated_right_away() {
    let mut l = list();
    let a = allocator();
    assert_eq!(
        record_ok(&mut l, &a, |mut c| { c.dispatch(1, 2, 3); c.dispatch(4, 5, 6); (c, ()) }),
        Ok(()),
    );
    assert_eq!(l.commands().len(), 2);
    assert_eq!(l.state, ListState::Closed);
    assert_eq!(record_ok(&mut l, &a, |mut c| { c.om_set_stencil_ref(9); (c, 'x') }), Ok('x'));
    assert_eq!(l.commands().len(), 1);
    assert!(matches!(l.commands()[0], Command::OmSetStencilRef { stencil_ref: 9 }));
    assert_eq!(l.state, ListState::Closed);
}

#[test]
fn record_does_not_run_the_callback_when_a_reset_fails() {
    let mut l = list();
    let a = allocator();
    record_ok(&mut l, &a, |mut c| { c.dispatch(1, 1, 1); (c, ()) }).unwrap();
    let ran = Cell::new(false);
    let r: Result<(), Error> = l.record(
        &a,
        |_| Err(Error::new(-10)),
        |_, _| unreachable!(),
        |c| { ran.set(true); (c, ()) },
        |_, _| unreachable!(),
    );
    assert_eq!(r, Err(Error::new(-10)));
    let r: Result<(), Error> = l.record(
        &a,
        |_| Ok(()),
        |_, _| Err(Error::new(-11)),
        |c| { ran.set(true); (c, ()) },
        |_, _| unreachable!(),
    );
    assert_eq!(r, Err(Error::new(-11)));
    assert!(!ran.get());
    assert_eq!(l.commands().len(), 1);
    assert_eq!(l.state, ListState::Closed);
}

#[test]
fn record_returns_the_error_of_closing() {
    let mut l = list();
    let a = allocator();
    let r = l.record(
        &a,
        |_| Ok(()),
        |_,
        _| Ok(()),
        |mut c| { c.dispatch(1, 1, 1); (c, 5) },
        |_,
        _| Err(Error::new(-12)),
    );
    assert_eq!(r, Err(Error::new(-12)));
    assert_eq!(l.state, ListState::Closed);
    assert_eq!(l.commands().len(), 1);
    assert_eq!(record_ok(&mut l, &a, |c| (c, 1)), Ok(1));
    assert!(l.commands().is_empty());
}

#[test]
fn clear_depth_stencil_view_flags_follow_what_is_cleared() {
    let mut l = list();
    let a = allocator();
    let dsv = heap::<Dsv>(0x70).cpu_handle(1);
    let rects = [Rect::new().right(4).bottom(4)];
    record_ok(&mut l, &a, |mut c| {
        c.clear_depth_stencil_view(&dsv, Some(Float::one()), None, None);
        c.clear_depth_stencil_view(&dsv, None, Some(7), Some(&rects));
        c.clear_depth_stencil_view(&dsv, Some(Float::zero()), Some(1), None);
        c.clear_depth_stencil_view(&dsv, None, None, None);
        (c, ())
    })
    .unwrap();
    let flags: Vec<i32> = l
        .commands()
        .iter()
        .map(|c| match c {
            Command::ClearDepthStencilView { flags, .. } => *flags,
            _ => unreachable!(),
        })
        .collect();
    assert_eq!(flags, vec![D3D12_CLEAR_FLAG_DEPTH, D3D12_CLEAR_FLAG_STENCIL, 3, 0]);
    assert_eq!((D3D12_CLEAR_FLAG_DEPTH, D3D12_CLEAR_FLAG_STENCIL), (1, 2));
    match &l.commands()[1] {
        Command::ClearDepthStencilView { dsv, depth, stencil, rects, .. } => {
            assert_eq!(*dsv, 0x1000 + 16);
            assert_eq!(*depth, Float::zero());
            assert_eq!(*stencil, 7);
            assert_eq!(rects, &vec![Rect { left: 0, top: 0, right: 4, bottom: 4 }]);
        }
        _ => unreachable!(),
    }
    match &l.commands()[0] {
        Command::ClearDepthStencilView { depth, stencil, rects, .. } => {
            assert_eq!((*depth, *stencil, rects.len()), (Float::one(), 0, 0));
        }
        _ => unreachable!(),
    }
}

#[test]
fn set_descriptor_heaps_records_the_heaps_that_are_there() {
    let mut l = list();
    let a = allocator();
    let views = heap::<CbvSrvUav>(0x80);
    let samplers = heap::<Sampler>(0x81);
    record_ok(&mut l, &a, |mut c| {
        c.set_descriptor_heaps(Some(&views), Some(&samplers));
        c.set_descriptor_heaps(Some(&views), None);
        c.set_descriptor_heaps(None, Some(&samplers));
        c.set_descriptor_heaps(None, None);
        (c, ())
    })
    .unwrap();
    let heaps: Vec<Vec<usize>> = l
        .commands()
        .iter()
        .map(|c| match c {
            Command::SetDescriptorHeaps { heaps } => heaps.iter().map(|h| h.addr()).collect(),
            _ => unreachable!(),
        })
        .collect();
    assert_eq!(heaps, vec![vec![0x80, 0x81], vec![0x80], vec![0x81]]);
}

#[test]
fn commands_are_recorded_with_their_arguments() {
    let mut l = list();
    let a = allocator();
    let src = Resource::from_raw(RawHandle::new(0x90));
    let dest = Resource::from_raw(RawHandle::new(0x91));
    let rtv = heap::<Rtv>(0x92).cpu_handle(0);
    let dsv = heap::<Dsv>(0x93).cpu_handle(2);
    let views = heap::<CbvSrvUav>(0x94);
    let color = [Float::zero(), Float::zero(), Float::from_bits(0.3f32.to_bits()), Float::zero()];
    let vb = [
        VertexBufferView::new().buffer_location(GpuVirtualAddress(0x100)).size_in_bytes(96).stride_in_bytes(32),
    ];
    let ib = IndexBufferView::new().buffer_location(GpuVirtualAddress(0x200)).size_in_bytes(12).format(42);
    let viewport = Viewport {
        top_left_x: Float::zero(),
        top_left_y: Float::zero(),
        width: Float::from_bits(1024f32.to_bits()),
        height: Float::from_bits(768f32.to_bits()),
        min_depth: Float::zero(),
        max_depth: Float::one(),
    };
    let placed = TextureCopyLocation::placed_footprint(&src, PlacedSubresourceFootprint::default());
    let indexed = TextureCopyLocation::subresource_index(&dest, 3);
    assert_eq!(placed.type_value(), D3D12_TEXTURE_COPY_TYPE_PLACED_FOOTPRINT);
    assert_eq!(indexed.type_value(), D3D12_TEXTURE_COPY_TYPE_SUBRESOURCE_INDEX);
    let boxed = Box3 { left: 0, top: 0, front: 0, right: 4, bottom: 4, back: 1 };
    record_ok(&mut l, &a, |mut c| {
        c.clear_render_target_view(&rtv, &color, None);
        c.copy_buffer_region(&src, 16, &dest, 32, 64);
        c.copy_resource(&src, &dest);
        c.copy_texture_region(&placed, Some(&boxed), &indexed, 1, 2, 3);
        c.draw_indexed_instanced(6, 2, 1, -4, 5);
        c.ia_set_index_buffer(Some(&ib));
        c.ia_set_index_buffer(None);
        c.ia_set_primitive_topology(4);
        c.ia_set_vertex_buffers(1, Some(&vb));
        c.om_set_blend_factor(&color);
        c.om_set_render_targets(Some(&[&rtv]), false, Some(&dsv));
        c.resolve_subresource(&src, 1, &dest, 2, 28);
        c.rs_set_scissor_rects(&[Rect::new().right(1024).bottom(768)]);
        c.rs_set_viewports(&[viewport]);
        c.set_graphics_root_32bit_constants(0, 7u32, 1);
        c.set_graphics_root_32bit_constants(1, &[1u32, 2, 3][..], 0);
        c.set_compute_root_32bit_constants(2, 8u32, 3);
        c.set_compute_root_32bit_constants(3, &[4u32, 5][..], 1);
        c.set_graphics_root_descriptor_table(4, &views.gpu_handle(1));
        c.set_compute_root_constant_buffer_view(5, GpuVirtualAddress(0x300));
        c.clear_unordered_access_view(
            &views.gpu_handle(0),
            &views.cpu_handle(0),
            &dest,
            &[1u32, 2, 3, 4],
            &[],
        );
        c.clear_unordered_access_view(
            &views.gpu_handle(0),
            &views.cpu_handle(0),
            &dest,
            &color,
            &[],
        );
        c.dispatch_rays(&DispatchRaysDesc::new().width(4).height(3).depth(1));
        c.clear_state(None);
        (c, ())
    })
    .unwrap();
    let cmds = l.commands();
    assert_eq!(cmds.len(), 24);
    assert!(
        matches!(
            &cmds[0],
            Command::ClearRenderTargetView { rtv: 0x1000, color: c, clip: None } if *c == color,
        ),
    );
    assert!(matches!(
        &cmds[1],
        Command::CopyBufferRegion { dest, dest_offset: 32, src, src_offset: 16, num_bytes: 64 }
            if dest.addr() == 0x91 && src.addr() == 0x90
    ));
    assert!(
        matches!(
            &cmds[2],
            Command::CopyResource { dest, src } if dest.addr() == 0x91 && src.addr() == 0x90,
        ),
    );
    assert!(matches!(
        &cmds[3],
        Command::CopyTextureRegion { dest_location, dest_x: 1, dest_y: 2, dest_z: 3, src_location, src_box: Some(b) }
            if *dest_location == indexed && *src_location == placed && *b == boxed
    ));
    assert!(matches!(
        &cmds[4],
        Command::DrawIndexedInstanced {
            index_count_per_instance: 6,
            instance_count: 2,
            start_index_location: 1,
            base_vertex_location: -4,
            start_instance_location: 5
        }
    ));
    assert!(matches!(&cmds[5], Command::IaSetIndexBuffer { view: Some(v) } if *v == ib));
    assert!(matches!(&cmds[6], Command::IaSetIndexBuffer { view: None }));
    assert!(matches!(&cmds[7], Command::IaSetPrimitiveTopology { topology: 4 }));
    assert!(
        matches!(
            &cmds[8],
            Command::IaSetVertexBuffers { start_slot: 1, vertex_buffers: Some(v) } if v[..] == vb,
        ),
    );
    assert!(matches!(&cmds[9], Command::OmSetBlendFactor { factor } if *factor == color));
    assert!(matches!(
        &cmds[10],
        Command::OmSetRenderTargets { rtvs: Some(r), rts_single_handle_to_descriptor_range: false, depth_stencil: Some(d) }
            if r[..] == [0x1000] && *d == 0x1000 + 32
    ));
    assert!(matches!(
        &cmds[11],
        Command::ResolveSubresource { dest_subresource: 2, src_subresource: 1, format: 28, .. }
    ));
    assert!(matches!(&cmds[12], Command::RsSetScissorRects { rects } if rects[0].right == 1024));
    assert!(matches!(&cmds[13], Command::RsSetViewports { viewports } if viewports[0] == viewport));
    assert!(matches!(
        &cmds[14],
        Command::SetGraphicsRoot32BitConstant { root_parameter_index: 0, value: 7, value_offset: 1 }
    ));
    assert!(matches!(
        &cmds[15],
        Command::SetGraphicsRoot32BitConstants { root_parameter_index: 1, values, value_offset: 0 } if values[..] == [1, 2, 3]
    ));
    assert!(matches!(
        &cmds[16],
        Command::SetComputeRoot32BitConstant { root_parameter_index: 2, value: 8, value_offset: 3 }
    ));
    assert!(matches!(
        &cmds[17],
        Command::SetComputeRoot32BitConstants { root_parameter_index: 3, values, value_offset: 1 } if values[..] == [4, 5]
    ));
    assert!(matches!(
        &cmds[18],
        Command::SetGraphicsRootDescriptorTable { root_parameter_index: 4, base_descriptor: 0x2010 }
    ));
    assert!(matches!(
        &cmds[19],
        Command::SetComputeRootConstantBufferView { root_parameter_index: 5, location: 0x300 }
    ));
    assert!(
        matches!(
            &cmds[20],
            Command::ClearUnorderedAccessViewUint { uint_values: [1, 2, 3, 4], .. },
        ),
    );
    assert!(
        matches!(
            &cmds[21],
            Command::ClearUnorderedAccessViewFloat { float_values, .. } if *float_values == color,
        ),
    );
    assert!(
        matches!(
            &cmds[22],
            Command::DispatchRays { rays } if rays.width == 4 && rays.height == 3 && rays.depth == 1,
        ),
    );
    assert!(matches!(&cmds[23], Command::ClearState { pipeline_state: None }));
}

#[test]
fn barriers_are_recorded_in_their_order() {
    let mut l = list();
    let a = allocator();
    let rt = Resource::from_raw(RawHandle::new(0xa0));
    record_ok(&mut l, &a, |mut c| {
        c.resource_barrier(&[
            TransitionBarrier::new()
                .resource(&rt)
                .subresource(0)
                .state_before(D3D12_RESOURCE_STATE_PRESENT)
                .state_after(D3D12_RESOURCE_STATE_RENDER_TARGET),
            TransitionBarrier::new()
                .resource(&rt)
                .subresource(1)
                .state_before(D3D12_RESOURCE_STATE_RENDER_TARGET)
                .state_after(D3D12_RESOURCE_STATE_PRESENT),
        ]);
        c.resource_barrier(&[UavBarrier::new().resource(&rt)]);
        (c, ())
    })
    .unwrap();
    match &l.commands()[0] {
        Command::ResourceBarrier { barriers } => {
            assert_eq!(
                barriers,
                &vec![
                    Barrier::Transition {
                        resource: Some(RawHandle::new(0xa0)),
                        subresource: 0,
                        state_before: D3D12_RESOURCE_STATE_PRESENT,
                        state_after: D3D12_RESOURCE_STATE_RENDER_TARGET,
                        flags: 0,
                    },
                    Barrier::Transition {
                        resource: Some(RawHandle::new(0xa0)),
                        subresource: 1,
                        state_before: D3D12_RESOURCE_STATE_RENDER_TARGET,
                        state_after: D3D12_RESOURCE_STATE_PRESENT,
                        flags: 0,
                    },
                ]
            );
        }
        _ => unreachable!(),
    }
    assert!(matches!(
        &l.commands()[1],
        Command::ResourceBarrier { barriers } if barriers[..] == [Barrier::Uav { resource: Some(RawHandle::new(0xa0)), flags: 0 }]
    ));
}

#[test]
fn discard_resource_is_there_for_direct_and_compute_lists() {
    let resource = Resource::from_raw(RawHandle::new(0xb0));
    let rects = [Rect::new().right(8).bottom(8)];
    let region = DiscardRegion::new().rects(&rects).first_subresource(1).num_subresource(2);
    assert_eq!(region.num_rects(), 1);
    let mut direct = list();
    record_ok(&mut direct, &allocator(), |mut c| {
        c.discard_resource(&resource, Some(&region));
        c.discard_resource(&resource, None);
        (c, ())
    })
    .unwrap();
    match &direct.commands()[0] {
        Command::DiscardResource { resource, region: Some(r) } => {
            assert_eq!(resource.addr(), 0xb0);
            assert_eq!(r.rects.as_ref().unwrap()[..], rects);
            assert_eq!((r.first_subresource, r.num_subresources), (1, 2));
        }
        _ => unreachable!(),
    }
    assert!(matches!(&direct.commands()[1], Command::DiscardResource { region: None, .. }));
    let alloc = CommandAllocator::new_compute(&device()).build(Ok(RawHandle::new(2))).unwrap();
    let mut compute = GraphicsCommandList::new_compute(&device())
        .build(|_| Ok(RawHandle::new(3)), |_, _, _| Ok(RawHandle::new(4)), |_| Ok(()))
        .unwrap();
    record_ok(
        &mut compute,
        &alloc,
        |mut c| { c.discard_resource(&resource, None); (c, ()) },
    ).unwrap();
    assert_eq!(compute.commands().len(), 1);
}

#[test]
fn bundles_are_executed_by_their_handle() {
    let bundle_alloc = CommandAllocator::new_bundle(&device()).build(Ok(RawHandle::new(2))).unwrap();
    let mut bundle = GraphicsCommandList::new_bundle(&device())
        .build(|_| Ok(RawHandle::new(3)), |_, _, _| Ok(RawHandle::new(0xc0)), |_| Ok(()))
        .unwrap();
    record_ok(
        &mut bundle,
        &bundle_alloc,
        |mut c| { c.draw_instanced(3, 1, 0, 0); (c, ()) },
    ).unwrap();
    let mut l = list();
    record_ok(&mut l, &allocator(), |mut c| { c.execute_bundle(&bundle); (c, ()) }).unwrap();
    assert!(matches!(&l.commands()[0], Command::ExecuteBundle { bundle } if bundle.addr() == 0xc0));
    l.set_name("renamed");
    assert_eq!(l.name(), Some("renamed"));
}
