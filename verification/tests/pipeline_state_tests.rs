use dxwr::d3d12::{
    D3D12_APPEND_ALIGNED_ELEMENT, D3D12_BLEND_ONE, D3D12_BLEND_OP_ADD, D3D12_BLEND_ZERO,
    D3D12_COMPARISON_FUNC_ALWAYS, D3D12_COMPARISON_FUNC_LESS, D3D12_CULL_MODE_BACK,
    D3D12_CULL_MODE_NONE, D3D12_DEPTH_WRITE_MASK_ALL, D3D12_FILL_MODE_SOLID, D3D12_LOGIC_OP_NOOP,
    D3D12_PIPELINE_STATE_SUBOBJECT_TYPE_BLEND, D3D12_PIPELINE_STATE_SUBOBJECT_TYPE_DEPTH_STENCIL,
    D3D12_PIPELINE_STATE_SUBOBJECT_TYPE_DEPTH_STENCIL_FORMAT,
    D3D12_PIPELINE_STATE_SUBOBJECT_TYPE_DS,
    D3D12_PIPELINE_STATE_SUBOBJECT_TYPE_GS, D3D12_PIPELINE_STATE_SUBOBJECT_TYPE_HS,
    D3D12_PIPELINE_STATE_SUBOBJECT_TYPE_IB_STRIP_CUT_VALUE,
    D3D12_PIPELINE_STATE_SUBOBJECT_TYPE_INPUT_LAYOUT,
    D3D12_PIPELINE_STATE_SUBOBJECT_TYPE_PRIMITIVE_TOPOLOGY, D3D12_PIPELINE_STATE_SUBOBJECT_TYPE_PS,
    D3D12_PIPELINE_STATE_SUBOBJECT_TYPE_RASTERIZER,
    D3D12_PIPELINE_STATE_SUBOBJECT_TYPE_RENDER_TARGET_FORMATS,
    D3D12_PIPELINE_STATE_SUBOBJECT_TYPE_ROOT_SIGNATURE,
    D3D12_PIPELINE_STATE_SUBOBJECT_TYPE_SAMPLE_DESC,
    D3D12_PIPELINE_STATE_SUBOBJECT_TYPE_SAMPLE_MASK,
    D3D12_PIPELINE_STATE_SUBOBJECT_TYPE_STREAM_OUTPUT, D3D12_PIPELINE_STATE_SUBOBJECT_TYPE_VS,
    D3D12_PRIMITIVE_TOPOLOGY_TYPE_TRIANGLE, D3D12_STENCIL_OP_KEEP,
};
use dxwr::dxgi::{DXGI_FORMAT_D32_FLOAT, DXGI_FORMAT_R32G32B32_FLOAT, DXGI_FORMAT_R8G8B8A8_UNORM, DXGI_FORMAT_UNKNOWN};
use dxwr::pipeline_state::{fill_formats, CachedPipelineState};
use dxwr::{
    BlendDesc, Command, Commands, ComputePipelineStateDesc, DepthStencilDesc, DepthStencilFormat,
    DepthStencilOpDesc, Device, Ds, Error, Float, GraphicsPipelineStateDesc, Gs, Hs,
    IbStripCutValue,
    InputElementDesc, InputLayout, PipelineState, PipelineStateStreamDesc, PrimitiveTopologyType,
    Ps,
    RasterizerDesc, RawHandle, RenderTargetBlendDesc, RenderTargetFormats, RootSignature,
    RootSignatureDesc, SampleDesc, SampleMask, ShaderBytecode, SoDeclarationEntry, StreamOutputDesc,
    StreamSubobject, Subobject, ViewInstanceLocation, ViewInstancingDesc, Vs,
};

fn device() -> Device {
    Device::new().min_feature_level(dxwr::d3d::D3D_FEATURE_LEVEL_12_1).build(Ok(RawHandle::new(1))).unwrap()
}

fn root_signature() -> RootSignature {
    RootSignature::new(&device())
        .build_from_desc(&RootSignatureDesc::new(), |_| Ok(vec![]), |_, _| Ok(RawHandle::new(0x10)))
        .unwrap()
}

#[test]
fn blend_desc_starts_opaque_on_the_first_target() {
    let b = BlendDesc::new();
    assert!(!b.alpha_to_coverage_enable && !b.independent_blend_enable);
    let first = b.render_target[0];
    assert_eq!(
        (first.src_blend, first.dest_blend, first.blend_op),
        (D3D12_BLEND_ONE, D3D12_BLEND_ZERO, D3D12_BLEND_OP_ADD),
    );
    assert_eq!((first.src_blend_alpha, first.dest_blend_alpha, first.blend_op_alpha), (2, 1, 1));
    assert_eq!((first.logic_op, first.render_target_write_mask), (D3D12_LOGIC_OP_NOOP, 15));
    assert!(!first.blend_enable && !first.logic_op_enable);
    for rt in &b.render_target[1..] {
        assert_eq!((rt.src_blend, rt.render_target_write_mask, rt.logic_op), (0, 0, 0));
    }
    assert_eq!(BlendDesc::default(), b);
    let b = b.alpha_to_coverage_enable(true).independent_blend_enable(true).render_target_blends(|mut rts| {
        rts[1].blend_enable(true);
        rts[1].src_blend(5);
        rts[1].dest_blend(6);
        rts[1].blend_op(2);
        rts[1].src_blend_alpha(3);
        rts[1].dest_blend_alpha(4);
        rts[1].blend_op_alpha(5);
        rts[1].logic_op_enable(true);
        rts[1].logic_op(7);
        rts[1].render_target_write_mask(3);
        rts
    });
    assert!(b.alpha_to_coverage_enable && b.independent_blend_enable);
    assert_eq!(
        b.render_target[1],
        RenderTargetBlendDesc {
            blend_enable: true,
            logic_op_enable: true,
            src_blend: 5,
            dest_blend: 6,
            blend_op: 2,
            src_blend_alpha: 3,
            dest_blend_alpha: 4,
            blend_op_alpha: 5,
            logic_op: 7,
            render_target_write_mask: 3,
        }
    );
    assert_eq!(b.render_target[0], first);
}

#[test]
fn rasterizer_and_depth_stencil_start_from_their_defaults() {
    let r = RasterizerDesc::new();
    assert_eq!(
        (r.fill_mode, r.cull_mode, r.depth_clip_enable),
        (D3D12_FILL_MODE_SOLID, D3D12_CULL_MODE_BACK, true),
    );
    assert_eq!((r.fill_mode, r.cull_mode), (3, 3));
    assert_eq!(RasterizerDesc::default(), r);
    let r = r
        .fill_mode(2)
        .cull_mode(D3D12_CULL_MODE_NONE)
        .front_counter_clockwise(true)
        .depth_bias(-1)
        .depth_bias_clamp(Float::one())
        .slope_scaled_depth_bias(Float::one())
        .depth_clip_enable(false)
        .multisample_enable(true)
        .antialiased_line_enable(true)
        .force_sample_count(4)
        .conservative_raster(1);
    assert_eq!(
        (r.fill_mode, r.cull_mode, r.depth_bias, r.force_sample_count, r.conservative_raster),
        (2, 1, -1, 4, 1),
    );
    assert!(
        r.front_counter_clockwise && !r.depth_clip_enable && r.multisample_enable && r.antialiased_line_enable,
    );
    let op = DepthStencilOpDesc::new();
    assert_eq!(
        (op.stencil_fail_op, op.stencil_depth_fail_op, op.stencil_pass_op, op.stencil_func),
        (
            D3D12_STENCIL_OP_KEEP,
            D3D12_STENCIL_OP_KEEP,
            D3D12_STENCIL_OP_KEEP,
            D3D12_COMPARISON_FUNC_ALWAYS
        )
    );
    assert_eq!((D3D12_STENCIL_OP_KEEP, D3D12_COMPARISON_FUNC_ALWAYS), (1, 8));
    let d = DepthStencilDesc::new();
    assert!(d.depth_enable && !d.stencil_enable);
    assert_eq!(
        (d.depth_write_mask, d.depth_func),
        (D3D12_DEPTH_WRITE_MASK_ALL, D3D12_COMPARISON_FUNC_LESS),
    );
    assert_eq!((d.stencil_read_mask, d.stencil_write_mask), (0xff, 0xff));
    assert_eq!((d.front_face, d.back_face), (op, op));
    assert_eq!(DepthStencilDesc::default(), d);
    let custom = op.stencil_fail_op(2).stencil_depth_fail_op(3).stencil_pass_op(4).stencil_func(5);
    let d = d.depth_enable(false).depth_write_mask(0).depth_func(7).stencil_enable(true).stencil_read_mask(1)
        .stencil_write_mask(2).front_face(&custom).back_face(&custom);
    assert_eq!(
        (d.depth_func, d.stencil_read_mask, d.stencil_write_mask, d.front_face, d.back_face),
        (7, 1, 2, custom, custom),
    );
}

#[test]
fn graphics_pipeline_desc_collects_its_parts() {
    let code = [1u8, 2, 3];
    let elements = [InputElementDesc::new()
        .semantic_name(b"POSITION\0")
        .semantic_index(1)
        .format(DXGI_FORMAT_R32G32B32_FLOAT)
        .input_slot(2)
        .aligned_byte_offset(12)
        .input_slot_class(1)
        .instance_data_step_rate(3)];
    assert_eq!(InputElementDesc::new().aligned_byte_offset, D3D12_APPEND_ALIGNED_ELEMENT);
    assert_eq!(elements[0].semantic_name, Some(&b"POSITION\0"[..]));
    let sig = root_signature();
    let d = GraphicsPipelineStateDesc::new();
    assert_eq!(
        (d.sample_mask, d.num_render_targets, d.sample_desc),
        (u32::MAX, 0, SampleDesc { count: 1, quality: 0 }),
    );
    assert_eq!(d.rtv_formats, [DXGI_FORMAT_UNKNOWN; 8]);
    let d = d
        .root_signature(&sig)
        .vs(ShaderBytecode::new(&code))
        .ps(ShaderBytecode::new(&code[..2]))
        .ds(ShaderBytecode::new(&code[..1]))
        .hs(ShaderBytecode::new(&code))
        .gs(ShaderBytecode::new(&code))
        .input_layout(&elements)
        .primitive_topology_type(D3D12_PRIMITIVE_TOPOLOGY_TYPE_TRIANGLE)
        .rtv_formats(&[DXGI_FORMAT_R8G8B8A8_UNORM, DXGI_FORMAT_R32G32B32_FLOAT])
        .dsv_format(DXGI_FORMAT_D32_FLOAT)
        .sample_mask(1)
        .sample_desc(SampleDesc::new(4, 0))
        .node_mask(2)
        .ib_strip_cut_value(1)
        .flags(1)
        .cached_pso(CachedPipelineState { blob: Some(&code) })
        .blend_state(BlendDesc::new().alpha_to_coverage_enable(true))
        .rasterizer_state(RasterizerDesc::new().cull_mode(1))
        .depth_stencil_desc(DepthStencilDesc::new().depth_enable(false))
        .stream_output(StreamOutputDesc::new().rasterized_stream(1));
    assert_eq!(d.root_signature, Some(RawHandle::new(0x10)));
    assert_eq!((d.vs.unwrap().len(), d.ps.unwrap().len(), d.ds.unwrap().len()), (3, 2, 1));
    assert_eq!(d.num_render_targets, 2);
    assert_eq!(
        &d.rtv_formats[..3],
        &[DXGI_FORMAT_R8G8B8A8_UNORM, DXGI_FORMAT_R32G32B32_FLOAT, DXGI_FORMAT_UNKNOWN],
    );
    assert_eq!(
        (d.dsv_format, d.sample_mask, d.node_mask, d.flags, d.ib_strip_cut_value),
        (DXGI_FORMAT_D32_FLOAT, 1, 2, 1, 1),
    );
    assert_eq!(d.input_layout.unwrap().len(), 1);
    assert!(d.blend_state.alpha_to_coverage_enable && !d.depth_stencil_state.depth_enable);
    assert_eq!((d.rasterizer_state.cull_mode, d.stream_output.rasterized_stream), (1, 1));
    let fewer = d.rtv_formats(&[7]);
    assert_eq!(
        (fewer.num_render_targets, fewer.rtv_formats[0], fewer.rtv_formats[1]),
        (1, 7, DXGI_FORMAT_R32G32B32_FLOAT),
    );
    assert_eq!(fill_formats([9; 8], &[1, 2, 3, 4, 5, 6, 7, 8]), [1, 2, 3, 4, 5, 6, 7, 8]);
    assert_eq!(fill_formats([9; 8], &[]), [9; 8]);
}

#[test]
fn pipeline_states_are_built_from_each_kind_of_description() {
    let code = [0u8; 8];
    let sig = root_signature();
    let graphics = PipelineState::new(&device()).desc(GraphicsPipelineStateDesc::new()).name("g").build(Ok(RawHandle::new(0x20))).unwrap();
    assert_eq!((graphics.handle(), graphics.name()), (RawHandle::new(0x20), Some("g")));
    let compute_desc = ComputePipelineStateDesc::new().root_signature(&sig).cs(ShaderBytecode::new(&code)).node_mask(1).flags(2)
        .cached_pso(CachedPipelineState { blob: None });
    assert_eq!(
        (
            compute_desc.root_signature,
            compute_desc.cs.unwrap().len(),
            compute_desc.node_mask,
            compute_desc.flags
        ),
        (Some(RawHandle::new(0x10)), 8, 1, 2),
    );
    let compute = PipelineState::new(&device()).desc(compute_desc).build(Ok(RawHandle::new(0x21))).unwrap();
    assert_eq!(compute.handle(), RawHandle::new(0x21));
    let stream = (
        StreamSubobject::new(Vs(ShaderBytecode::new(&code))),
        StreamSubobject::new(SampleMask(1))
    );
    let streamed = PipelineState::new(&device()).desc(PipelineStateStreamDesc::new(&stream)).build(Ok(RawHandle::new(0x22))).unwrap();
    assert_eq!(streamed.handle(), RawHandle::new(0x22));
    let failed = PipelineState::new(&device()).desc(ComputePipelineStateDesc::new()).build(Err(Error::new(-1)));
    assert_eq!(failed.unwrap_err(), Error::new(-1));
    let mut cmds: Commands<dxwr::command_list_type::Direct> = Commands { commands: vec![], _t: std::marker::PhantomData };
    cmds.set_pipeline_state(&graphics);
    cmds.clear_state(Some(&compute));
    cmds.set_graphics_root_signature(&sig);
    cmds.set_compute_root_signature(&sig);
    assert!(
        matches!(&cmds.commands[0], Command::SetPipelineState { state } if state.addr() == 0x20),
    );
    assert!(
        matches!(
            &cmds.commands[1],
            Command::ClearState { pipeline_state: Some(s) } if s.addr() == 0x21,
        ),
    );
    assert!(
        matches!(
            &cmds.commands[2],
            Command::SetGraphicsRootSignature { root_signature } if root_signature.addr() == 0x10,
        ),
    );
    assert!(
        matches!(
            &cmds.commands[3],
            Command::SetComputeRootSignature { root_signature } if root_signature.addr() == 0x10,
        ),
    );
}

#[test]
fn stream_subobjects_carry_the_tag_of_their_type() {
    let code = [0u8; 2];
    let bc = ShaderBytecode::new(&code);
    assert_eq!(
        StreamSubobject::new(root_signature()).ty,
        D3D12_PIPELINE_STATE_SUBOBJECT_TYPE_ROOT_SIGNATURE,
    );
    assert_eq!(StreamSubobject::new(root_signature()).inner, RawHandle::new(0x10));
    assert_eq!(StreamSubobject::new(Vs(bc)).ty, D3D12_PIPELINE_STATE_SUBOBJECT_TYPE_VS);
    assert_eq!(StreamSubobject::new(Ps(bc)).ty, D3D12_PIPELINE_STATE_SUBOBJECT_TYPE_PS);
    assert_eq!(StreamSubobject::new(Ds(bc)).ty, D3D12_PIPELINE_STATE_SUBOBJECT_TYPE_DS);
    assert_eq!(StreamSubobject::new(Hs(bc)).ty, D3D12_PIPELINE_STATE_SUBOBJECT_TYPE_HS);
    assert_eq!(StreamSubobject::new(Gs(bc)).ty, D3D12_PIPELINE_STATE_SUBOBJECT_TYPE_GS);
    assert_eq!(StreamSubobject::new(Gs(bc)).inner, Gs(bc));
    assert_eq!(
        StreamSubobject::new(StreamOutputDesc::new()).ty,
        D3D12_PIPELINE_STATE_SUBOBJECT_TYPE_STREAM_OUTPUT,
    );
    assert_eq!(
        StreamSubobject::new(BlendDesc::new()).ty,
        D3D12_PIPELINE_STATE_SUBOBJECT_TYPE_BLEND,
    );
    assert_eq!(
        StreamSubobject::new(SampleMask(3)).ty,
        D3D12_PIPELINE_STATE_SUBOBJECT_TYPE_SAMPLE_MASK,
    );
    assert_eq!(StreamSubobject::new(SampleMask(3)).inner, SampleMask(3));
    assert_eq!(
        StreamSubobject::new(RasterizerDesc::new()).ty,
        D3D12_PIPELINE_STATE_SUBOBJECT_TYPE_RASTERIZER,
    );
    assert_eq!(
        StreamSubobject::new(DepthStencilDesc::new()).ty,
        D3D12_PIPELINE_STATE_SUBOBJECT_TYPE_DEPTH_STENCIL,
    );
    assert_eq!(
        StreamSubobject::new(InputLayout(&[])).ty,
        D3D12_PIPELINE_STATE_SUBOBJECT_TYPE_INPUT_LAYOUT,
    );
    assert_eq!(
        StreamSubobject::new(IbStripCutValue(1)).ty,
        D3D12_PIPELINE_STATE_SUBOBJECT_TYPE_IB_STRIP_CUT_VALUE,
    );
    assert_eq!(
        StreamSubobject::new(PrimitiveTopologyType(3)).ty,
        D3D12_PIPELINE_STATE_SUBOBJECT_TYPE_PRIMITIVE_TOPOLOGY,
    );
    assert_eq!(
        StreamSubobject::new(DepthStencilFormat(40)).ty,
        D3D12_PIPELINE_STATE_SUBOBJECT_TYPE_DEPTH_STENCIL_FORMAT,
    );
    assert_eq!(
        StreamSubobject::new(SampleDesc::default()).ty,
        D3D12_PIPELINE_STATE_SUBOBJECT_TYPE_SAMPLE_DESC,
    );
    let formats = StreamSubobject::new(RenderTargetFormats(&[28, 2]));
    assert_eq!(formats.ty, D3D12_PIPELINE_STATE_SUBOBJECT_TYPE_RENDER_TARGET_FORMATS);
    assert_eq!(
        (formats.inner.num_render_targets, formats.inner.rt_formats),
        (2, [28, 2, 0, 0, 0, 0, 0, 0]),
    );
    assert_eq!(<Vs as Subobject>::VALUE, 1);
    assert_eq!(<RenderTargetFormats as Subobject>::VALUE, 15);
}

#[test]
fn stream_output_and_view_instancing_count_their_items() {
    let entries = [SoDeclarationEntry::default()
        .semantic_name(Some("POSITION"))
        .stream(1)
        .semantic_index(2)
        .start_component(1)
        .component_count(3)
        .output_slot(4)];
    assert_eq!(
        entries[0],
        SoDeclarationEntry { stream: 1, semantic_name: Some("POSITION"), semantic_index: 2, start_component: 1, component_count: 3, output_slot: 4 }
    );
    assert_eq!(entries[0].stream(9).semantic_name(None), SoDeclarationEntry::default());
    let strides = [16u32, 32];
    let so = StreamOutputDesc::new().so_declaration(&entries).buffer_strides(&strides).rasterized_stream(2);
    assert_eq!((so.num_entries(), so.num_strides(), so.rasterized_stream), (1, 2, 2));
    assert_eq!(
        (StreamOutputDesc::new().num_entries(), StreamOutputDesc::new().num_strides()),
        (0, 0),
    );
    let locations = [
        ViewInstanceLocation::new().viewport_array_index(1).render_target_array_index(2),
    ];
    let vi = ViewInstancingDesc::new(&locations).flags(1);
    assert_eq!(
        (vi.view_instance_count(), vi.flags, vi.locations[0].render_target_array_index),
        (1, 1, 2),
    );
}
