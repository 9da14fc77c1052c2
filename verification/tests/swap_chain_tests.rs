use dxwr::d3d12::{D3D12_RESOURCE_STATE_PRESENT, D3D12_RESOURCE_STATE_RENDER_TARGET};
use dxwr::descriptor_heap::RawDescriptorHeap;
use dxwr::dxgi::{
    DXGI_FORMAT_R8G8B8A8_UNORM, DXGI_FORMAT_UNKNOWN, DXGI_SCALING_STRETCH,
    DXGI_SWAP_EFFECT_FLIP_DISCARD, DXGI_USAGE_RENDER_TARGET_OUTPUT,
};
use dxwr::swap_chain::ResizeBuffersArgs;
use dxwr::{
    Command, CommandQueue, DescriptorHeap, Device, DirectCommandAllocator, DirectCommandQueue,
    DirectGraphicsCommandList, Error, Fence, Float, RawHandle, ResizeBuffers, Resource, SampleDesc,
    Signal, SwapChain, TransitionBarrier,
};
use std::cell::Cell;

fn device() -> Device {
    Device::new().min_feature_level(dxwr::d3d::D3D_FEATURE_LEVEL_12_1).build(Ok(RawHandle::new(1))).unwrap()
}

fn queue() -> DirectCommandQueue {
    DirectCommandQueue::new(&device()).build(Ok(RawHandle::new(0x10))).unwrap()
}

fn swap_chain() -> SwapChain {
    SwapChain::new()
        .command_queue(&queue())
        .width(1024)
        .height(768)
        .format(DXGI_FORMAT_R8G8B8A8_UNORM)
        .buffer_count(2)
        .buffer_usage(DXGI_USAGE_RENDER_TARGET_OUTPUT)
        .swap_effect(DXGI_SWAP_EFFECT_FLIP_DISCARD)
        .build_for_hwnd(0xbeef, Ok(RawHandle::new(0x11)))
        .unwrap()
}

#[test]
fn queue_builder_collects_the_description() {
    let b = CommandQueue::new_compute(&device()).priority(100).flags(1).node_mask(2).name("q");
    assert_eq!((b.desc.ty, b.desc.priority, b.desc.flags, b.desc.node_mask), (2, 100, 1, 2));
    let mut q = b.build(Ok(RawHandle::new(5))).unwrap();
    assert_eq!(q.handle(), RawHandle::new(5));
    assert_eq!(q.name(), Some("q"));
    q.set_name("other");
    assert_eq!(q.name(), Some("other"));
    assert_eq!(
        CommandQueue::new_copy(&device()).build(Err(Error::new(-1))).unwrap_err(),
        Error::new(-1),
    );
}

#[test]
fn queue_signal_counts_the_signal_before_the_native_call() {
    let q = queue();
    let mut fence = Fence::new(&device()).build(Ok(RawHandle::new(0x20))).unwrap();
    let s = q.signal(
        &mut fence,
        |f,
        v| { assert_eq!((f, v), (RawHandle::new(0x20), 1)); Ok(()) },
    ).unwrap();
    assert_eq!(s, Signal { fence: RawHandle::new(0x20), value: 1 });
    assert_eq!(q.signal(&mut fence, |_, _| Err(Error::new(-6))), Err(Error::new(-6)));
    assert_eq!(fence.issued, 2);
    let s3 = q.signal(&mut fence, |_, v| { assert_eq!(v, 3); Ok(()) }).unwrap();
    assert_eq!(s3.value(), 3);
    assert_eq!(
        q.wait(&s3, |f, v| { assert_eq!((f, v), (RawHandle::new(0x20), 3)); Ok(()) }),
        Ok(()),
    );
}

#[test]
fn swap_chain_builder_collects_the_description() {
    let b = SwapChain::new();
    assert_eq!(b.desc.scaling, DXGI_SCALING_STRETCH);
    assert_eq!(b.desc.sample_desc, SampleDesc { count: 1, quality: 0 });
    let b = b.command_queue(&queue()).width(1024).height(768).stereo(true).alpha_mode(1).scaling(2).flags(64)
        .sample_desc(SampleDesc::new(4, 1));
    assert_eq!((b.desc.width, b.desc.height, b.desc.stereo), (1024, 768, true));
    assert_eq!((b.desc.alpha_mode, b.desc.scaling, b.desc.flags), (1, 2, 64));
    assert_eq!(b.desc.sample_desc.count, 4);
    assert_eq!(b.cmd_queue.raw, RawHandle::new(0x10));
    let sc = b.build_for_composition(Ok(RawHandle::new(0x12))).unwrap();
    assert_eq!((sc.handle(), sc.cmd_queue), (RawHandle::new(0x12), RawHandle::new(0x10)));
    let failed = SwapChain::new().command_queue(&queue()).build_for_hwnd(1, Err(Error::new(-8)));
    assert_eq!(failed, Err(Error::new(-8)));
}

#[test]
fn resize_buffers_keeps_what_is_not_named() {
    let sc = swap_chain();
    assert_eq!(
        sc.resize_buffers(&ResizeBuffers::default()),
        ResizeBuffersArgs { count: 0, width: 0, height: 0, format: DXGI_FORMAT_UNKNOWN, flags: 0 }
    );
    let params = ResizeBuffers { count: Some(3), width: Some(800), height: None, format: Some(28), flags: Some(2) };
    assert_eq!(
        sc.resize_buffers(&params),
        ResizeBuffersArgs { count: 3, width: 800, height: 0, format: 28, flags: 2 }
    );
}

#[test]
fn present_issues_no_signal_when_presenting_fails() {
    let sc = swap_chain();
    let mut fence = Fence::new(&device()).build(Ok(RawHandle::new(0x20))).unwrap();
    let r = sc.present(&mut fence, 0, 0, |_, _| Err(Error::new(-13)), |_, _, _| unreachable!());
    assert_eq!(r, Err(Error::new(-13)));
    assert_eq!(fence.issued, 0);
}

#[test]
fn present_signals_the_bound_queue() {
    let sc = swap_chain();
    let mut fence = Fence::new(&device()).build(Ok(RawHandle::new(0x20))).unwrap();
    let r = sc.present(
        &mut fence,
        1,
        512,
        |interval, flags| { assert_eq!((interval, flags), (1, 512)); Ok(()) },
        |queue, f, value| { assert_eq!((queue, f, value), (RawHandle::new(0x10), RawHandle::new(0x20), 1)); Ok(()) },
    );
    assert_eq!(r, Ok(Signal { fence: RawHandle::new(0x20), value: 1 }));
    let failed = sc.present(&mut fence, 0, 0, |_, _| Ok(()), |_, _, _| Err(Error::new(-14)));
    assert_eq!(failed, Err(Error::new(-14)));
    assert_eq!(fence.issued, 2);
}

// The stand-in for the native layer of the scenario below: a swap chain of two
// buffers whose back buffer changes with every present, and a fence that has
// completed whatever the queue was told to signal.
struct StandIn {
    back_buffer: Cell<u32>,
    completed: Cell<u64>,
    executed: Cell<u32>,
}

#[test]
fn clear_and_present_two_frames() {
    let native = StandIn { back_buffer: Cell::new(0), completed: Cell::new(0), executed: Cell::new(0) };
    let device = device();
    let cmd_queue = queue();
    let swap_chain = swap_chain();
    let mut rtv = DescriptorHeap::new_rtv(&device)
        .len(2)
        .build(
            Ok(
                RawDescriptorHeap { raw: RawHandle::new(0x30), increment: 32, cpu_start: 0x4000, gpu_start: 0 },
            ),
        )
        .unwrap();
    let render_targets: Vec<Resource> = (0..2)
        .map(|i| {
            let buffer = swap_chain.get_buffer(i, Ok(RawHandle::new(0x100 + i))).unwrap();
            let write = rtv.create_render_target_view(
                i,
                &buffer,
                None::<&dxwr::RenderTargetViewDesc>,
            );
            assert_eq!(write.dest, 0x4000 + 32 * i);
            buffer
        })
        .collect();
    let mut fence = Fence::new(&device).build(Ok(RawHandle::new(0x20))).unwrap();
    let cmd_allocator = DirectCommandAllocator::new(&device).build(Ok(RawHandle::new(0x40))).unwrap();
    let mut cmd_list = DirectGraphicsCommandList::new(&device)
        .build(|_| Ok(RawHandle::new(0x41)), |_, _, _| Ok(RawHandle::new(0x42)), |_| Ok(()))
        .unwrap();
    let color = [Float::zero(), Float::zero(), Float::from_bits(0.3f32.to_bits()), Float::zero()];
    let mut targets_seen = vec![];
    for frame in 0..2u64 {
        let index = swap_chain.get_current_back_buffer_index(native.back_buffer.get());
        let rtv_handle = rtv.cpu_handle(index);
        let rt = &render_targets[index];
        cmd_list
            .record(
                &cmd_allocator,
                |_| Ok(()),
                |_, _| Ok(()),
                |mut cmd| {
                    cmd.resource_barrier(&[TransitionBarrier::new()
                        .resource(rt)
                        .subresource(0)
                        .state_before(D3D12_RESOURCE_STATE_PRESENT)
                        .state_after(D3D12_RESOURCE_STATE_RENDER_TARGET)]);
                    cmd.clear_render_target_view(&rtv_handle, &color, None);
                    cmd.resource_barrier(&[TransitionBarrier::new()
                        .resource(rt)
                        .subresource(0)
                        .state_before(D3D12_RESOURCE_STATE_RENDER_TARGET)
                        .state_after(D3D12_RESOURCE_STATE_PRESENT)]);
                    (cmd, ())
                },
                |_, commands| {
                    assert_eq!(commands.len(), 3);
                    Ok(())
                },
            )
            .unwrap();
        match &cmd_list.commands()[1] {
            Command::ClearRenderTargetView { rtv, color: c, clip } => {
                targets_seen.push(*rtv);
                assert_eq!(*c, color);
                assert!(clip.is_none());
            }
            _ => unreachable!(),
        }
        let lists = cmd_queue.execute_command_lists(&[&cmd_list]);
        assert_eq!(lists, vec![RawHandle::new(0x42)]);
        native.executed.set(native.executed.get() + 1);
        let signal = swap_chain
            .present(
                &mut fence,
                0,
                0,
                |_, _| {
                    native.back_buffer.set(1 - native.back_buffer.get());
                    Ok(())
                },
                |_, _, value| {
                    native.completed.set(value);
                    Ok(())
                },
            )
            .unwrap();
        assert_eq!(signal.value(), frame + 1);
        assert_eq!(signal.wait(native.completed.get(), |_, _| unreachable!()), Ok(()));
        assert!(signal.is_completed(native.completed.get()));
    }
    assert_eq!(targets_seen, vec![0x4000, 0x4000 + 32]);
    assert_eq!(native.executed.get(), 2);
}
