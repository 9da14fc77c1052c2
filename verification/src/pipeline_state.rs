use crate::d3d12::{
    D3D12_APPEND_ALIGNED_ELEMENT, D3D12_BLEND_ONE, D3D12_BLEND_OP_ADD, D3D12_BLEND_ZERO,
    D3D12_COLOR_WRITE_ENABLE_ALL, D3D12_COMPARISON_FUNC_ALWAYS, D3D12_COMPARISON_FUNC_LESS,
    D3D12_CONSERVATIVE_RASTERIZATION_MODE_OFF, D3D12_CULL_MODE_BACK,
    D3D12_DEFAULT_STENCIL_READ_MASK, D3D12_DEFAULT_STENCIL_WRITE_MASK, D3D12_DEPTH_WRITE_MASK_ALL,
    D3D12_FILL_MODE_SOLID, D3D12_INDEX_BUFFER_STRIP_CUT_VALUE_DISABLED,
    D3D12_INPUT_CLASSIFICATION_PER_VERTEX_DATA, D3D12_LOGIC_OP_NOOP, D3D12_PIPELINE_STATE_FLAG_NONE,
    D3D12_PIPELINE_STATE_SUBOBJECT_TYPE_BLEND, D3D12_PIPELINE_STATE_SUBOBJECT_TYPE_DEPTH_STENCIL,
    D3D12_PIPELINE_STATE_SUBOBJECT_TYPE_DEPTH_STENCIL_FORMAT,
    D3D12_PIPELINE_STATE_SUBOBJECT_TYPE_DS, D3D12_PIPELINE_STATE_SUBOBJECT_TYPE_GS,
    D3D12_PIPELINE_STATE_SUBOBJECT_TYPE_HS, D3D12_PIPELINE_STATE_SUBOBJECT_TYPE_IB_STRIP_CUT_VALUE,
    D3D12_PIPELINE_STATE_SUBOBJECT_TYPE_INPUT_LAYOUT,
    D3D12_PIPELINE_STATE_SUBOBJECT_TYPE_PRIMITIVE_TOPOLOGY, D3D12_PIPELINE_STATE_SUBOBJECT_TYPE_PS,
    D3D12_PIPELINE_STATE_SUBOBJECT_TYPE_RASTERIZER,
    D3D12_PIPELINE_STATE_SUBOBJECT_TYPE_RENDER_TARGET_FORMATS,
    D3D12_PIPELINE_STATE_SUBOBJECT_TYPE_ROOT_SIGNATURE,
    D3D12_PIPELINE_STATE_SUBOBJECT_TYPE_SAMPLE_DESC,
    D3D12_PIPELINE_STATE_SUBOBJECT_TYPE_SAMPLE_MASK,
    D3D12_PIPELINE_STATE_SUBOBJECT_TYPE_STREAM_OUTPUT, D3D12_PIPELINE_STATE_SUBOBJECT_TYPE_VS,
    D3D12_PRIMITIVE_TOPOLOGY_TYPE_UNDEFINED, D3D12_STENCIL_OP_KEEP, D3D12_VIEW_INSTANCING_FLAG_NONE,
};
use crate::device::Device;
use crate::dxgi::DXGI_FORMAT_UNKNOWN;
use crate::root_signature::RootSignature;
use crate::utility::{
    name_as_str, name_from_text, name_view, text_view, Error, Float, Name, RawHandle, SampleDesc,
};
use vstd::prelude::*;

verus! {

/// Compiled shader code, kept alive by the caller.
#[derive(Clone, Copy, PartialEq, Eq, Debug)]
pub struct ShaderBytecode<'a> {
    pub data: &'a [u8],
}

impl<'a> ShaderBytecode<'a> {
    pub fn new(data: &'a [u8]) -> (r: Self)
        ensures
            r.data == data,
    {
        ShaderBytecode { data }
    }

    /// The length of the code in bytes.
    pub fn len(&self) -> (r: usize)
        ensures
            r == self.data@.len(),
    {
        self.data.len()
    }
}

/// One entry of a stream output declaration.
#[derive(Clone, Copy, PartialEq, Eq, Debug)]
pub struct SoDeclarationEntry<'a> {
    pub stream: u32,
    pub semantic_name: Option<&'a str>,
    pub semantic_index: u32,
    pub start_component: u8,
    pub component_count: u8,
    pub output_slot: u8,
}

impl<'a> Default for SoDeclarationEntry<'a> {
    fn default() -> (r: Self)
        ensures
            r == (SoDeclarationEntry {
                stream: 0,
                semantic_name: None,
                semantic_index: 0,
                start_component: 0,
                component_count: 0,
                output_slot: 0,
            }),
    {
        SoDeclarationEntry {
            stream: 0,
            semantic_name: None,
            semantic_index: 0,
            start_component: 0,
            component_count: 0,
            output_slot: 0,
        }
    }
}

impl<'a> SoDeclarationEntry<'a> {
    pub fn stream(self, index: u32) -> (r: Self)
        ensures
            r == (SoDeclarationEntry { stream: index, ..self }),
    {
        SoDeclarationEntry { stream: index, ..self }
    }
    /// Starts the entry over with a semantic name: every other field goes back to 0.
    pub fn semantic_name(self, name: Option<&'a str>) -> (r: SoDeclarationEntry<'a>)
        ensures
            r == (SoDeclarationEntry {
                stream: 0,
                semantic_name: name,
                semantic_index: 0,
                start_component: 0,
                component_count: 0,
                output_slot: 0,
            }),
    {
        SoDeclarationEntry {
            stream: 0,
            semantic_name: name,
            semantic_index: 0,
            start_component: 0,
            component_count: 0,
            output_slot: 0,
        }
    }

    pub fn semantic_index(self, index: u32) -> (r: Self)
        ensures
            r == (SoDeclarationEntry { semantic_index: index, ..self }),
    {
        SoDeclarationEntry { semantic_index: index, ..self }
    }
    pub fn start_component(self, component: u8) -> (r: Self)
        ensures
            r == (SoDeclarationEntry { start_component: component, ..self }),
    {
        SoDeclarationEntry { start_component: component, ..self }
    }
    pub fn component_count(self, count: u8) -> (r: Self)
        ensures
            r == (SoDeclarationEntry { component_count: count, ..self }),
    {
        SoDeclarationEntry { component_count: count, ..self }
    }
    pub fn output_slot(self, slot: u8) -> (r: Self)
        ensures
            r == (SoDeclarationEntry { output_slot: slot, ..self }),
    {
        SoDeclarationEntry { output_slot: slot, ..self }
    }
}

/// Where the stream output stage writes, and what.
#[derive(Clone, Copy, PartialEq, Eq, Debug)]
pub struct StreamOutputDesc<'decl, 'strides> {
    pub so_declaration: Option<&'decl [SoDeclarationEntry<'decl>]>,
    pub buffer_strides: Option<&'strides [u32]>,
    pub rasterized_stream: u32,
}

impl<'decl, 'strides> StreamOutputDesc<'decl, 'strides> {
    pub fn new() -> (r: Self)
        ensures
            r.so_declaration.is_none(),
            r.buffer_strides.is_none(),
            r.rasterized_stream == 0,
    {
        StreamOutputDesc { so_declaration: None, buffer_strides: None, rasterized_stream: 0 }
    }

    /// Sets the declaration, whose number of entries has to fit in 32 bits.
    pub fn so_declaration<'a>(self, entry: &'a [SoDeclarationEntry<'a>]) -> (r: StreamOutputDesc<
        'a,
        'strides,
    >)
        requires
            entry@.len() <= u32::MAX,
        ensures
            r.so_declaration == Some(entry),
            r.buffer_strides == self.buffer_strides,
            r.rasterized_stream == self.rasterized_stream,
    {
        StreamOutputDesc {
            so_declaration: Some(entry),
            buffer_strides: self.buffer_strides,
            rasterized_stream: self.rasterized_stream,
        }
    }

    /// Sets the strides, whose number has to fit in 32 bits.
    pub fn buffer_strides<'a>(self, strides: &'a [u32]) -> (r: StreamOutputDesc<'decl, 'a>)
        requires
            strides@.len() <= u32::MAX,
        ensures
            r.so_declaration == self.so_declaration,
            r.buffer_strides == Some(strides),
            r.rasterized_stream == self.rasterized_stream,
    {
        StreamOutputDesc {
            so_declaration: self.so_declaration,
            buffer_strides: Some(strides),
            rasterized_stream: self.rasterized_stream,
        }
    }

    pub fn rasterized_stream(self, index: u32) -> (r: Self)
        ensures
            r == (StreamOutputDesc { rasterized_stream: index, ..self }),
    {
        StreamOutputDesc { rasterized_stream: index, ..self }
    }

    /// The number of entries that the native layer is told.
    pub fn num_entries(&self) -> (r: u32)
        requires
            self.so_declaration.is_some() ==> self.so_declaration.unwrap()@.len() <= u32::MAX,
        ensures
            r == match self.so_declaration {
                Some(d) => d@.len(),
                None => 0,
            },
    {
        match self.so_declaration {
            Some(d) => d.len() as u32,
            None => 0,
        }
    }

    /// The number of strides that the native layer is told.
    pub fn num_strides(&self) -> (r: u32)
        requires
            self.buffer_strides.is_some() ==> self.buffer_strides.unwrap()@.len() <= u32::MAX,
        ensures
            r == match self.buffer_strides {
                Some(s) => s@.len(),
                None => 0,
            },
    {
        match self.buffer_strides {
            Some(s) => s.len() as u32,
            None => 0,
        }
    }
}

/// How one render target blends what is written to it.
#[derive(Clone, Copy, PartialEq, Eq, Structural, Debug)]
pub struct RenderTargetBlendDesc {
    pub blend_enable: bool,
    pub logic_op_enable: bool,
    pub src_blend: i32,
    pub dest_blend: i32,
    pub blend_op: i32,
    pub src_blend_alpha: i32,
    pub dest_blend_alpha: i32,
    pub blend_op_alpha: i32,
    pub logic_op: i32,
    pub render_target_write_mask: u8,
}

impl RenderTargetBlendDesc {
    pub fn blend_enable(&mut self, value: bool)
        ensures
            *final(self) == (RenderTargetBlendDesc { blend_enable: value, ..*old(self) }),
    {
        self.blend_enable = value;
    }

    pub fn logic_op_enable(&mut self, value: bool)
        ensures
            *final(self) == (RenderTargetBlendDesc { logic_op_enable: value, ..*old(self) }),
    {
        self.logic_op_enable = value;
    }

    pub fn src_blend(&mut self, value: i32)
        ensures
            *final(self) == (RenderTargetBlendDesc { src_blend: value, ..*old(self) }),
    {
        self.src_blend = value;
    }

    pub fn dest_blend(&mut self, value: i32)
        ensures
            *final(self) == (RenderTargetBlendDesc { dest_blend: value, ..*old(self) }),
    {
        self.dest_blend = value;
    }

    pub fn blend_op(&mut self, value: i32)
        ensures
            *final(self) == (RenderTargetBlendDesc { blend_op: value, ..*old(self) }),
    {
        self.blend_op = value;
    }

    pub fn src_blend_alpha(&mut self, value: i32)
        ensures
            *final(self) == (RenderTargetBlendDesc { src_blend_alpha: value, ..*old(self) }),
    {
        self.src_blend_alpha = value;
    }

    pub fn dest_blend_alpha(&mut self, value: i32)
        ensures
            *final(self) == (RenderTargetBlendDesc { dest_blend_alpha: value, ..*old(self) }),
    {
        self.dest_blend_alpha = value;
    }

    pub fn blend_op_alpha(&mut self, value: i32)
        ensures
            *final(self) == (RenderTargetBlendDesc { blend_op_alpha: value, ..*old(self) }),
    {
        self.blend_op_alpha = value;
    }

    pub fn logic_op(&mut self, value: i32)
        ensures
            *final(self) == (RenderTargetBlendDesc { logic_op: value, ..*old(self) }),
    {
        self.logic_op = value;
    }

    pub fn render_target_write_mask(&mut self, value: u8)
        ensures
            *final(self) == (
                RenderTargetBlendDesc { render_target_write_mask: value, ..*old(self) }
            ),
    {
        self.render_target_write_mask = value;
    }

    /// The blend of a render target that nothing was said of: everything off or 0.
    pub open spec fn unset() -> RenderTargetBlendDesc {
        RenderTargetBlendDesc {
            blend_enable: false,
            logic_op_enable: false,
            src_blend: 0,
            dest_blend: 0,
            blend_op: 0,
            src_blend_alpha: 0,
            dest_blend_alpha: 0,
            blend_op_alpha: 0,
            logic_op: 0,
            render_target_write_mask: 0,
        }
    }

    /// The blend that the first render target starts with: the source replaces
    /// the destination, and all channels are written.
    pub open spec fn opaque() -> RenderTargetBlendDesc {
        RenderTargetBlendDesc {
            blend_enable: false,
            logic_op_enable: false,
            src_blend: D3D12_BLEND_ONE,
            dest_blend: D3D12_BLEND_ZERO,
            blend_op: D3D12_BLEND_OP_ADD,
            src_blend_alpha: D3D12_BLEND_ONE,
            dest_blend_alpha: D3D12_BLEND_ZERO,
            blend_op_alpha: D3D12_BLEND_OP_ADD,
            logic_op: D3D12_LOGIC_OP_NOOP,
            render_target_write_mask: D3D12_COLOR_WRITE_ENABLE_ALL as u8,
        }
    }
}

/// How the render targets blend what is written to them.
#[derive(Clone, Copy, PartialEq, Eq, Debug)]
pub struct BlendDesc {
    pub alpha_to_coverage_enable: bool,
    pub independent_blend_enable: bool,
    pub render_target: [RenderTargetBlendDesc; 8],
}

impl BlendDesc {
    /// The blend that a pipeline starts with: the first render target is
    /// opaque, nothing is said of the others.
    pub fn new() -> (r: Self)
        ensures
            !r.alpha_to_coverage_enable,
            !r.independent_blend_enable,
            r.render_target@[0] == RenderTargetBlendDesc::opaque(),
            forall|i: int| 1 <= i < 8 ==> r.render_target@[i] == RenderTargetBlendDesc::unset(),
    {
        let unset = RenderTargetBlendDesc {
            blend_enable: false,
            logic_op_enable: false,
            src_blend: 0,
            dest_blend: 0,
            blend_op: 0,
            src_blend_alpha: 0,
            dest_blend_alpha: 0,
            blend_op_alpha: 0,
            logic_op: 0,
            render_target_write_mask: 0,
        };
        let opaque = RenderTargetBlendDesc {
            blend_enable: false,
            logic_op_enable: false,
            src_blend: D3D12_BLEND_ONE,
            dest_blend: D3D12_BLEND_ZERO,
            blend_op: D3D12_BLEND_OP_ADD,
            src_blend_alpha: D3D12_BLEND_ONE,
            dest_blend_alpha: D3D12_BLEND_ZERO,
            blend_op_alpha: D3D12_BLEND_OP_ADD,
            logic_op: D3D12_LOGIC_OP_NOOP,
            render_target_write_mask: D3D12_COLOR_WRITE_ENABLE_ALL as u8,
        };
        BlendDesc {
            alpha_to_coverage_enable: false,
            independent_blend_enable: false,
            render_target: [opaque, unset, unset, unset, unset, unset, unset, unset],
        }
    }

    pub fn alpha_to_coverage_enable(self, value: bool) -> (r: Self)
        ensures
            r == (BlendDesc { alpha_to_coverage_enable: value, ..self }),
    {
        BlendDesc { alpha_to_coverage_enable: value, ..self }
    }

    pub fn independent_blend_enable(self, value: bool) -> (r: Self)
        ensures
            r == (BlendDesc { independent_blend_enable: value, ..self }),
    {
        BlendDesc { independent_blend_enable: value, ..self }
    }

    /// Lets `f` change the blends of the eight render targets.
    pub fn render_target_blends<F>(self, f: F) -> (r: Self)
        where F: FnOnce([RenderTargetBlendDesc; 8]) -> [RenderTargetBlendDesc; 8]
        requires
            f.requires((self.render_target,)),
        ensures
            r.alpha_to_coverage_enable == self.alpha_to_coverage_enable,
            r.independent_blend_enable == self.independent_blend_enable,
            f.ensures((self.render_target,), r.render_target),
    {
        let render_target = f(self.render_target);
        BlendDesc { render_target, ..self }
    }
}

impl Default for BlendDesc {
    fn default() -> (r: Self)
        ensures
            !r.alpha_to_coverage_enable,
            !r.independent_blend_enable,
            r.render_target@[0] == RenderTargetBlendDesc::opaque(),
            forall|i: int| 1 <= i < 8 ==> r.render_target@[i] == RenderTargetBlendDesc::unset(),
    {
        BlendDesc::new()
    }
}

#[derive(Clone, Copy, PartialEq, Eq, Structural, Debug)]
pub struct RasterizerDesc {
    pub fill_mode: i32,
    pub cull_mode: i32,
    pub front_counter_clockwise: bool,
    pub depth_bias: i32,
    pub depth_bias_clamp: Float,
    pub slope_scaled_depth_bias: Float,
    pub depth_clip_enable: bool,
    pub multisample_enable: bool,
    pub antialiased_line_enable: bool,
    pub force_sample_count: u32,
    pub conservative_raster: i32,
}

impl RasterizerDesc {
    pub fn new() -> (r: Self)
        ensures
            r.fill_mode == D3D12_FILL_MODE_SOLID,
            r.cull_mode == D3D12_CULL_MODE_BACK,
            r.front_counter_clockwise == false,
            r.depth_bias == 0,
            r.depth_bias_clamp == (Float { bits: 0 }),
            r.slope_scaled_depth_bias == (Float { bits: 0 }),
            r.depth_clip_enable == true,
            r.multisample_enable == false,
            r.antialiased_line_enable == false,
            r.force_sample_count == 0,
            r.conservative_raster == D3D12_CONSERVATIVE_RASTERIZATION_MODE_OFF,
    {
        RasterizerDesc {
            fill_mode: D3D12_FILL_MODE_SOLID,
            cull_mode: D3D12_CULL_MODE_BACK,
            front_counter_clockwise: false,
            depth_bias: 0,
            depth_bias_clamp: (Float { bits: 0 }),
            slope_scaled_depth_bias: (Float { bits: 0 }),
            depth_clip_enable: true,
            multisample_enable: false,
            antialiased_line_enable: false,
            force_sample_count: 0,
            conservative_raster: D3D12_CONSERVATIVE_RASTERIZATION_MODE_OFF,
        }
    }
    pub fn fill_mode(self, mode: i32) -> (r: Self)
        ensures
            r == (RasterizerDesc { fill_mode: mode, ..self }),
    {
        RasterizerDesc { fill_mode: mode, ..self }
    }
    pub fn cull_mode(self, mode: i32) -> (r: Self)
        ensures
            r == (RasterizerDesc { cull_mode: mode, ..self }),
    {
        RasterizerDesc { cull_mode: mode, ..self }
    }
    pub fn front_counter_clockwise(self, value: bool) -> (r: Self)
        ensures
            r == (RasterizerDesc { front_counter_clockwise: value, ..self }),
    {
        RasterizerDesc { front_counter_clockwise: value, ..self }
    }
    pub fn depth_bias(self, value: i32) -> (r: Self)
        ensures
            r == (RasterizerDesc { depth_bias: value, ..self }),
    {
        RasterizerDesc { depth_bias: value, ..self }
    }
    pub fn depth_bias_clamp(self, value: Float) -> (r: Self)
        ensures
            r == (RasterizerDesc { depth_bias_clamp: value, ..self }),
    {
        RasterizerDesc { depth_bias_clamp: value, ..self }
    }
    pub fn slope_scaled_depth_bias(self, value: Float) -> (r: Self)
        ensures
            r == (RasterizerDesc { slope_scaled_depth_bias: value, ..self }),
    {
        RasterizerDesc { slope_scaled_depth_bias: value, ..self }
    }
    pub fn depth_clip_enable(self, value: bool) -> (r: Self)
        ensures
            r == (RasterizerDesc { depth_clip_enable: value, ..self }),
    {
        RasterizerDesc { depth_clip_enable: value, ..self }
    }
    pub fn multisample_enable(self, value: bool) -> (r: Self)
        ensures
            r == (RasterizerDesc { multisample_enable: value, ..self }),
    {
        RasterizerDesc { multisample_enable: value, ..self }
    }
    pub fn antialiased_line_enable(self, value: bool) -> (r: Self)
        ensures
            r == (RasterizerDesc { antialiased_line_enable: value, ..self }),
    {
        RasterizerDesc { antialiased_line_enable: value, ..self }
    }
    pub fn force_sample_count(self, value: u32) -> (r: Self)
        ensures
            r == (RasterizerDesc { force_sample_count: value, ..self }),
    {
        RasterizerDesc { force_sample_count: value, ..self }
    }
    pub fn conservative_raster(self, value: i32) -> (r: Self)
        ensures
            r == (RasterizerDesc { conservative_raster: value, ..self }),
    {
        RasterizerDesc { conservative_raster: value, ..self }
    }
}

impl Default for RasterizerDesc {
    fn default() -> (r: Self)
        ensures
            r.fill_mode == D3D12_FILL_MODE_SOLID,
            r.cull_mode == D3D12_CULL_MODE_BACK,
            r.front_counter_clockwise == false,
            r.depth_bias == 0,
            r.depth_bias_clamp == (Float { bits: 0 }),
            r.slope_scaled_depth_bias == (Float { bits: 0 }),
            r.depth_clip_enable == true,
            r.multisample_enable == false,
            r.antialiased_line_enable == false,
            r.force_sample_count == 0,
            r.conservative_raster == D3D12_CONSERVATIVE_RASTERIZATION_MODE_OFF,
    {
        RasterizerDesc::new()
    }
}

#[derive(Clone, Copy, PartialEq, Eq, Structural, Debug)]
pub struct DepthStencilOpDesc {
    pub stencil_fail_op: i32,
    pub stencil_depth_fail_op: i32,
    pub stencil_pass_op: i32,
    pub stencil_func: i32,
}

impl DepthStencilOpDesc {
    pub fn new() -> (r: Self)
        ensures
            r.stencil_fail_op == D3D12_STENCIL_OP_KEEP,
            r.stencil_depth_fail_op == D3D12_STENCIL_OP_KEEP,
            r.stencil_pass_op == D3D12_STENCIL_OP_KEEP,
            r.stencil_func == D3D12_COMPARISON_FUNC_ALWAYS,
    {
        DepthStencilOpDesc {
            stencil_fail_op: D3D12_STENCIL_OP_KEEP,
            stencil_depth_fail_op: D3D12_STENCIL_OP_KEEP,
            stencil_pass_op: D3D12_STENCIL_OP_KEEP,
            stencil_func: D3D12_COMPARISON_FUNC_ALWAYS,
        }
    }
    pub fn stencil_fail_op(self, op: i32) -> (r: Self)
        ensures
            r == (DepthStencilOpDesc { stencil_fail_op: op, ..self }),
    {
        DepthStencilOpDesc { stencil_fail_op: op, ..self }
    }
    pub fn stencil_depth_fail_op(self, op: i32) -> (r: Self)
        ensures
            r == (DepthStencilOpDesc { stencil_depth_fail_op: op, ..self }),
    {
        DepthStencilOpDesc { stencil_depth_fail_op: op, ..self }
    }
    pub fn stencil_pass_op(self, op: i32) -> (r: Self)
        ensures
            r == (DepthStencilOpDesc { stencil_pass_op: op, ..self }),
    {
        DepthStencilOpDesc { stencil_pass_op: op, ..self }
    }
    pub fn stencil_func(self, func: i32) -> (r: Self)
        ensures
            r == (DepthStencilOpDesc { stencil_func: func, ..self }),
    {
        DepthStencilOpDesc { stencil_func: func, ..self }
    }
}

impl Default for DepthStencilOpDesc {
    fn default() -> (r: Self)
        ensures
            r.stencil_fail_op == D3D12_STENCIL_OP_KEEP,
            r.stencil_depth_fail_op == D3D12_STENCIL_OP_KEEP,
            r.stencil_pass_op == D3D12_STENCIL_OP_KEEP,
            r.stencil_func == D3D12_COMPARISON_FUNC_ALWAYS,
    {
        DepthStencilOpDesc::new()
    }
}

#[derive(Clone, Copy, PartialEq, Eq, Structural, Debug)]
pub struct DepthStencilDesc {
    pub depth_enable: bool,
    pub depth_write_mask: i32,
    pub depth_func: i32,
    pub stencil_enable: bool,
    pub stencil_read_mask: u8,
    pub stencil_write_mask: u8,
    pub front_face: DepthStencilOpDesc,
    pub back_face: DepthStencilOpDesc,
}

impl DepthStencilDesc {
    pub fn new() -> (r: Self)
        ensures
            r.depth_enable == true,
            r.depth_write_mask == D3D12_DEPTH_WRITE_MASK_ALL,
            r.depth_func == D3D12_COMPARISON_FUNC_LESS,
            r.stencil_enable == false,
            r.stencil_read_mask == D3D12_DEFAULT_STENCIL_READ_MASK as u8,
            r.stencil_write_mask == D3D12_DEFAULT_STENCIL_WRITE_MASK as u8,
            r.front_face == (
                DepthStencilOpDesc {
                    stencil_fail_op: D3D12_STENCIL_OP_KEEP,
                    stencil_depth_fail_op: D3D12_STENCIL_OP_KEEP,
                    stencil_pass_op: D3D12_STENCIL_OP_KEEP,
                    stencil_func: D3D12_COMPARISON_FUNC_ALWAYS,
                }
            ),
            r.back_face == (
                DepthStencilOpDesc {
                    stencil_fail_op: D3D12_STENCIL_OP_KEEP,
                    stencil_depth_fail_op: D3D12_STENCIL_OP_KEEP,
                    stencil_pass_op: D3D12_STENCIL_OP_KEEP,
                    stencil_func: D3D12_COMPARISON_FUNC_ALWAYS,
                }
            ),
    {
        DepthStencilDesc {
            depth_enable: true,
            depth_write_mask: D3D12_DEPTH_WRITE_MASK_ALL,
            depth_func: D3D12_COMPARISON_FUNC_LESS,
            stencil_enable: false,
            stencil_read_mask: D3D12_DEFAULT_STENCIL_READ_MASK as u8,
            stencil_write_mask: D3D12_DEFAULT_STENCIL_WRITE_MASK as u8,
            front_face: (
                DepthStencilOpDesc {
                    stencil_fail_op: D3D12_STENCIL_OP_KEEP,
                    stencil_depth_fail_op: D3D12_STENCIL_OP_KEEP,
                    stencil_pass_op: D3D12_STENCIL_OP_KEEP,
                    stencil_func: D3D12_COMPARISON_FUNC_ALWAYS,
                }
            ),
            back_face: (
                DepthStencilOpDesc {
                    stencil_fail_op: D3D12_STENCIL_OP_KEEP,
                    stencil_depth_fail_op: D3D12_STENCIL_OP_KEEP,
                    stencil_pass_op: D3D12_STENCIL_OP_KEEP,
                    stencil_func: D3D12_COMPARISON_FUNC_ALWAYS,
                }
            ),
        }
    }
    pub fn depth_enable(self, value: bool) -> (r: Self)
        ensures
            r == (DepthStencilDesc { depth_enable: value, ..self }),
    {
        DepthStencilDesc { depth_enable: value, ..self }
    }
    pub fn depth_write_mask(self, mask: i32) -> (r: Self)
        ensures
            r == (DepthStencilDesc { depth_write_mask: mask, ..self }),
    {
        DepthStencilDesc { depth_write_mask: mask, ..self }
    }
    pub fn depth_func(self, func: i32) -> (r: Self)
        ensures
            r == (DepthStencilDesc { depth_func: func, ..self }),
    {
        DepthStencilDesc { depth_func: func, ..self }
    }
    pub fn stencil_enable(self, value: bool) -> (r: Self)
        ensures
            r == (DepthStencilDesc { stencil_enable: value, ..self }),
    {
        DepthStencilDesc { stencil_enable: value, ..self }
    }
    pub fn stencil_read_mask(self, value: u8) -> (r: Self)
        ensures
            r == (DepthStencilDesc { stencil_read_mask: value, ..self }),
    {
        DepthStencilDesc { stencil_read_mask: value, ..self }
    }
    pub fn stencil_write_mask(self, value: u8) -> (r: Self)
        ensures
            r == (DepthStencilDesc { stencil_write_mask: value, ..self }),
    {
        DepthStencilDesc { stencil_write_mask: value, ..self }
    }
    pub fn front_face(self, desc: &DepthStencilOpDesc) -> (r: Self)
        ensures
            r == (DepthStencilDesc { front_face: *desc, ..self }),
    {
        DepthStencilDesc { front_face: *desc, ..self }
    }
    pub fn back_face(self, desc: &DepthStencilOpDesc) -> (r: Self)
        ensures
            r == (DepthStencilDesc { back_face: *desc, ..self }),
    {
        DepthStencilDesc { back_face: *desc, ..self }
    }
}

impl Default for DepthStencilDesc {
    fn default() -> (r: Self)
        ensures
            r.depth_enable == true,
            r.depth_write_mask == D3D12_DEPTH_WRITE_MASK_ALL,
            r.depth_func == D3D12_COMPARISON_FUNC_LESS,
            r.stencil_enable == false,
            r.stencil_read_mask == D3D12_DEFAULT_STENCIL_READ_MASK as u8,
            r.stencil_write_mask == D3D12_DEFAULT_STENCIL_WRITE_MASK as u8,
            r.front_face == (
                DepthStencilOpDesc {
                    stencil_fail_op: D3D12_STENCIL_OP_KEEP,
                    stencil_depth_fail_op: D3D12_STENCIL_OP_KEEP,
                    stencil_pass_op: D3D12_STENCIL_OP_KEEP,
                    stencil_func: D3D12_COMPARISON_FUNC_ALWAYS,
                }
            ),
            r.back_face == (
                DepthStencilOpDesc {
                    stencil_fail_op: D3D12_STENCIL_OP_KEEP,
                    stencil_depth_fail_op: D3D12_STENCIL_OP_KEEP,
                    stencil_pass_op: D3D12_STENCIL_OP_KEEP,
                    stencil_func: D3D12_COMPARISON_FUNC_ALWAYS,
                }
            ),
    {
        DepthStencilDesc::new()
    }
}

/// One element of the layout of the vertices.
#[derive(Clone, Copy, PartialEq, Eq, Debug)]
pub struct InputElementDesc<'a> {
    pub semantic_name: Option<&'a [u8]>,
    pub semantic_index: u32,
    pub format: i32,
    pub input_slot: u32,
    pub aligned_byte_offset: u32,
    pub input_slot_class: i32,
    pub instance_data_step_rate: u32,
}

impl<'a> InputElementDesc<'a> {
    pub fn new() -> (r: Self)
        ensures
            r == (InputElementDesc {
                semantic_name: None,
                semantic_index: 0,
                format: DXGI_FORMAT_UNKNOWN,
                input_slot: 0,
                aligned_byte_offset: D3D12_APPEND_ALIGNED_ELEMENT,
                input_slot_class: D3D12_INPUT_CLASSIFICATION_PER_VERTEX_DATA,
                instance_data_step_rate: 0,
            }),
    {
        InputElementDesc {
            semantic_name: None,
            semantic_index: 0,
            format: DXGI_FORMAT_UNKNOWN,
            input_slot: 0,
            aligned_byte_offset: D3D12_APPEND_ALIGNED_ELEMENT,
            input_slot_class: D3D12_INPUT_CLASSIFICATION_PER_VERTEX_DATA,
            instance_data_step_rate: 0,
        }
    }

    /// Sets the semantic name, a string of bytes that ends in a zero.
    pub fn semantic_name<'b>(self, name: &'b [u8]) -> (r: InputElementDesc<'b>)
        ensures
            r == (InputElementDesc {
                semantic_name: Some(name),
                semantic_index: self.semantic_index,
                format: self.format,
                input_slot: self.input_slot,
                aligned_byte_offset: self.aligned_byte_offset,
                input_slot_class: self.input_slot_class,
                instance_data_step_rate: self.instance_data_step_rate,
            }),
    {
        InputElementDesc {
            semantic_name: Some(name),
            semantic_index: self.semantic_index,
            format: self.format,
            input_slot: self.input_slot,
            aligned_byte_offset: self.aligned_byte_offset,
            input_slot_class: self.input_slot_class,
            instance_data_step_rate: self.instance_data_step_rate,
        }
    }

    pub fn semantic_index(self, index: u32) -> (r: Self)
        ensures
            r == (InputElementDesc { semantic_index: index, ..self }),
    {
        InputElementDesc { semantic_index: index, ..self }
    }
    pub fn format(self, format: i32) -> (r: Self)
        ensures
            r == (InputElementDesc { format, ..self }),
    {
        InputElementDesc { format, ..self }
    }
    pub fn input_slot(self, slot: u32) -> (r: Self)
        ensures
            r == (InputElementDesc { input_slot: slot, ..self }),
    {
        InputElementDesc { input_slot: slot, ..self }
    }
    pub fn aligned_byte_offset(self, offset: u32) -> (r: Self)
        ensures
            r == (InputElementDesc { aligned_byte_offset: offset, ..self }),
    {
        InputElementDesc { aligned_byte_offset: offset, ..self }
    }
    pub fn input_slot_class(self, class: i32) -> (r: Self)
        ensures
            r == (InputElementDesc { input_slot_class: class, ..self }),
    {
        InputElementDesc { input_slot_class: class, ..self }
    }
    pub fn instance_data_step_rate(self, step_rate: u32) -> (r: Self)
        ensures
            r == (InputElementDesc { instance_data_step_rate: step_rate, ..self }),
    {
        InputElementDesc { instance_data_step_rate: step_rate, ..self }
    }
}

/// Eight render target formats, none of them known.
pub open spec fn unknown_formats() -> Seq<i32> {
    Seq::new(8, |i: int| DXGI_FORMAT_UNKNOWN)
}

/// `base` with its first places taken by `formats`.
pub open spec fn filled_formats(base: Seq<i32>, formats: Seq<i32>) -> Seq<i32> {
    Seq::new(
        base.len(),
        |i: int|
            if i < formats.len() {
                formats[i]
            } else {
                base[i]
            },
    )
}

/// Puts `formats` into the first places of `base`.
pub fn fill_formats(base: [i32; 8], formats: &[i32]) -> (r: [i32; 8])
    requires
        formats@.len() <= 8,
    ensures
        r@ == filled_formats(base@, formats@),
{
    let mut out = base;
    let mut i: usize = 0;
    while i < formats.len()
        invariant
            i <= formats@.len() <= 8,
            forall|j: int| 0 <= j < i ==> out@[j] == formats@[j],
            forall|j: int| i <= j < 8 ==> out@[j] == base@[j],
        decreases formats.len() - i,
    {
        out[i] = formats[i];
        i += 1;
    }
    assert(out@ =~= filled_formats(base@, formats@));
    out
}

/// A cached pipeline state: the bytes of a blob that an earlier pipeline state
/// was stored in.
#[derive(Clone, Copy, PartialEq, Eq, Debug)]
pub struct CachedPipelineState<'a> {
    pub blob: Option<&'a [u8]>,
}

/// The description of a graphics pipeline.
#[derive(Clone, Copy, Debug)]
pub struct GraphicsPipelineStateDesc<'a> {
    pub root_signature: Option<RawHandle>,
    pub vs: Option<ShaderBytecode<'a>>,
    pub ps: Option<ShaderBytecode<'a>>,
    pub ds: Option<ShaderBytecode<'a>>,
    pub hs: Option<ShaderBytecode<'a>>,
    pub gs: Option<ShaderBytecode<'a>>,
    pub stream_output: StreamOutputDesc<'a, 'a>,
    pub blend_state: BlendDesc,
    pub sample_mask: u32,
    pub rasterizer_state: RasterizerDesc,
    pub depth_stencil_state: DepthStencilDesc,
    pub input_layout: Option<&'a [InputElementDesc<'a>]>,
    pub ib_strip_cut_value: i32,
    pub primitive_topology_type: i32,
    pub num_render_targets: u32,
    pub rtv_formats: [i32; 8],
    pub dsv_format: i32,
    pub sample_desc: SampleDesc,
    pub node_mask: u32,
    pub cached_pso: CachedPipelineState<'a>,
    pub flags: i32,
}

impl<'a> GraphicsPipelineStateDesc<'a> {
    /// The description that a graphics pipeline starts from: blend, rasterizer
    /// and depth stencil state as they start, every sample, one sample per
    /// pixel, and nothing else.
    pub fn new() -> (r: Self)
        ensures
            r.root_signature.is_none(),
            r.vs.is_none() && r.ps.is_none() && r.ds.is_none() && r.hs.is_none() && r.gs.is_none(),
            r.stream_output.so_declaration.is_none() && r.stream_output.buffer_strides.is_none()
                && r.stream_output.rasterized_stream == 0,
            r.blend_state.render_target@[0] == RenderTargetBlendDesc::opaque(),
            r.sample_mask == u32::MAX,
            r.rasterizer_state.fill_mode == D3D12_FILL_MODE_SOLID,
            r.rasterizer_state.cull_mode == D3D12_CULL_MODE_BACK,
            r.depth_stencil_state.depth_enable,
            r.input_layout.is_none(),
            r.ib_strip_cut_value == D3D12_INDEX_BUFFER_STRIP_CUT_VALUE_DISABLED,
            r.primitive_topology_type == D3D12_PRIMITIVE_TOPOLOGY_TYPE_UNDEFINED,
            r.num_render_targets == 0,
            r.rtv_formats@ == unknown_formats(),
            r.dsv_format == DXGI_FORMAT_UNKNOWN,
            r.sample_desc == (SampleDesc { count: 1, quality: 0 }),
            r.node_mask == 0,
            r.cached_pso.blob.is_none(),
            r.flags == D3D12_PIPELINE_STATE_FLAG_NONE,
    {
        let r = GraphicsPipelineStateDesc {
            root_signature: None,
            vs: None,
            ps: None,
            ds: None,
            hs: None,
            gs: None,
            stream_output: StreamOutputDesc::new(),
            blend_state: BlendDesc::new(),
            sample_mask: u32::MAX,
            rasterizer_state: RasterizerDesc::new(),
            depth_stencil_state: DepthStencilDesc::new(),
            input_layout: None,
            ib_strip_cut_value: D3D12_INDEX_BUFFER_STRIP_CUT_VALUE_DISABLED,
            primitive_topology_type: D3D12_PRIMITIVE_TOPOLOGY_TYPE_UNDEFINED,
            num_render_targets: 0,
            rtv_formats: [
                DXGI_FORMAT_UNKNOWN,
                DXGI_FORMAT_UNKNOWN,
                DXGI_FORMAT_UNKNOWN,
                DXGI_FORMAT_UNKNOWN,
                DXGI_FORMAT_UNKNOWN,
                DXGI_FORMAT_UNKNOWN,
                DXGI_FORMAT_UNKNOWN,
                DXGI_FORMAT_UNKNOWN,
            ],
            dsv_format: DXGI_FORMAT_UNKNOWN,
            sample_desc: SampleDesc { count: 1, quality: 0 },
            node_mask: 0,
            cached_pso: CachedPipelineState { blob: None },
            flags: D3D12_PIPELINE_STATE_FLAG_NONE,
        };
        assert(r.rtv_formats@ =~= unknown_formats());
        r
    }

    pub fn root_signature(self, root_sig: &RootSignature) -> (r: Self)
        ensures
            r == (GraphicsPipelineStateDesc { root_signature: Some(root_sig.raw), ..self }),
    {
        GraphicsPipelineStateDesc { root_signature: Some(root_sig.raw), ..self }
    }

    pub fn vs(self, bytecode: ShaderBytecode<'a>) -> (r: Self)
        ensures
            r == (GraphicsPipelineStateDesc { vs: Some(bytecode), ..self }),
    {
        GraphicsPipelineStateDesc { vs: Some(bytecode), ..self }
    }

    pub fn ps(self, bytecode: ShaderBytecode<'a>) -> (r: Self)
        ensures
            r == (GraphicsPipelineStateDesc { ps: Some(bytecode), ..self }),
    {
        GraphicsPipelineStateDesc { ps: Some(bytecode), ..self }
    }

    pub fn ds(self, bytecode: ShaderBytecode<'a>) -> (r: Self)
        ensures
            r == (GraphicsPipelineStateDesc { ds: Some(bytecode), ..self }),
    {
        GraphicsPipelineStateDesc { ds: Some(bytecode), ..self }
    }

    pub fn hs(self, bytecode: ShaderBytecode<'a>) -> (r: Self)
        ensures
            r == (GraphicsPipelineStateDesc { hs: Some(bytecode), ..self }),
    {
        GraphicsPipelineStateDesc { hs: Some(bytecode), ..self }
    }

    pub fn gs(self, bytecode: ShaderBytecode<'a>) -> (r: Self)
        ensures
            r == (GraphicsPipelineStateDesc { gs: Some(bytecode), ..self }),
    {
        GraphicsPipelineStateDesc { gs: Some(bytecode), ..self }
    }

    pub fn stream_output(self, desc: StreamOutputDesc<'a, 'a>) -> (r: Self)
        ensures
            r == (GraphicsPipelineStateDesc { stream_output: desc, ..self }),
    {
        GraphicsPipelineStateDesc { stream_output: desc, ..self }
    }

    pub fn blend_state(self, desc: BlendDesc) -> (r: Self)
        ensures
            r == (GraphicsPipelineStateDesc { blend_state: desc, ..self }),
    {
        GraphicsPipelineStateDesc { blend_state: desc, ..self }
    }

    pub fn sample_mask(self, mask: u32) -> (r: Self)
        ensures
            r == (GraphicsPipelineStateDesc { sample_mask: mask, ..self }),
    {
        GraphicsPipelineStateDesc { sample_mask: mask, ..self }
    }

    pub fn rasterizer_state(self, desc: RasterizerDesc) -> (r: Self)
        ensures
            r == (GraphicsPipelineStateDesc { rasterizer_state: desc, ..self }),
    {
        GraphicsPipelineStateDesc { rasterizer_state: desc, ..self }
    }

    pub fn depth_stencil_desc(self, desc: DepthStencilDesc) -> (r: Self)
        ensures
            r == (GraphicsPipelineStateDesc { depth_stencil_state: desc, ..self }),
    {
        GraphicsPipelineStateDesc { depth_stencil_state: desc, ..self }
    }

    /// Sets the layout of the vertices, whose number of elements has to fit in
    /// 32 bits.
    pub fn input_layout(self, elements: &'a [InputElementDesc<'a>]) -> (r: Self)
        requires
            elements@.len() <= u32::MAX,
        ensures
            r == (GraphicsPipelineStateDesc { input_layout: Some(elements), ..self }),
    {
        GraphicsPipelineStateDesc { input_layout: Some(elements), ..self }
    }

    pub fn ib_strip_cut_value(self, value: i32) -> (r: Self)
        ensures
            r == (GraphicsPipelineStateDesc { ib_strip_cut_value: value, ..self }),
    {
        GraphicsPipelineStateDesc { ib_strip_cut_value: value, ..self }
    }

    pub fn primitive_topology_type(self, ty: i32) -> (r: Self)
        ensures
            r == (GraphicsPipelineStateDesc { primitive_topology_type: ty, ..self }),
    {
        GraphicsPipelineStateDesc { primitive_topology_type: ty, ..self }
    }

    /// Sets the formats of the render targets, eight at most. The formats take
    /// the first places; the places behind them keep what they held.
    pub fn rtv_formats(self, formats: &[i32]) -> (r: Self)
        requires
            formats@.len() <= 8,
        ensures
            r.num_render_targets == formats@.len(),
            r.rtv_formats@ == filled_formats(self.rtv_formats@, formats@),
            r == (GraphicsPipelineStateDesc {
                num_render_targets: r.num_render_targets,
                rtv_formats: r.rtv_formats,
                ..self
            }),
    {
        GraphicsPipelineStateDesc {
            num_render_targets: formats.len() as u32,
            rtv_formats: fill_formats(self.rtv_formats, formats),
            ..self
        }
    }

    pub fn dsv_format(self, format: i32) -> (r: Self)
        ensures
            r == (GraphicsPipelineStateDesc { dsv_format: format, ..self }),
    {
        GraphicsPipelineStateDesc { dsv_format: format, ..self }
    }

    pub fn sample_desc(self, desc: SampleDesc) -> (r: Self)
        ensures
            r == (GraphicsPipelineStateDesc { sample_desc: desc, ..self }),
    {
        GraphicsPipelineStateDesc { sample_desc: desc, ..self }
    }

    pub fn node_mask(self, mask: u32) -> (r: Self)
        ensures
            r == (GraphicsPipelineStateDesc { node_mask: mask, ..self }),
    {
        GraphicsPipelineStateDesc { node_mask: mask, ..self }
    }

    pub fn cached_pso(self, state: CachedPipelineState<'a>) -> (r: Self)
        ensures
            r == (GraphicsPipelineStateDesc { cached_pso: state, ..self }),
    {
        GraphicsPipelineStateDesc { cached_pso: state, ..self }
    }

    pub fn flags(self, flags: i32) -> (r: Self)
        ensures
            r == (GraphicsPipelineStateDesc { flags, ..self }),
    {
        GraphicsPipelineStateDesc { flags, ..self }
    }
}

/// The description of a compute pipeline.
#[derive(Clone, Copy, PartialEq, Eq, Debug)]
pub struct ComputePipelineStateDesc<'cs> {
    pub root_signature: Option<RawHandle>,
    pub cs: Option<ShaderBytecode<'cs>>,
    pub node_mask: u32,
    pub cached_pso: CachedPipelineState<'cs>,
    pub flags: i32,
}

impl<'cs> ComputePipelineStateDesc<'cs> {
    pub fn new() -> (r: Self)
        ensures
            r == (ComputePipelineStateDesc {
                root_signature: None,
                cs: None,
                node_mask: 0,
                cached_pso: CachedPipelineState { blob: None },
                flags: D3D12_PIPELINE_STATE_FLAG_NONE,
            }),
    {
        ComputePipelineStateDesc {
            root_signature: None,
            cs: None,
            node_mask: 0,
            cached_pso: CachedPipelineState { blob: None },
            flags: D3D12_PIPELINE_STATE_FLAG_NONE,
        }
    }

    pub fn root_signature(self, root_sig: &RootSignature) -> (r: Self)
        ensures
            r == (ComputePipelineStateDesc { root_signature: Some(root_sig.raw), ..self }),
    {
        ComputePipelineStateDesc { root_signature: Some(root_sig.raw), ..self }
    }

    pub fn cs(self, bytecode: ShaderBytecode<'cs>) -> (r: Self)
        ensures
            r == (ComputePipelineStateDesc { cs: Some(bytecode), ..self }),
    {
        ComputePipelineStateDesc { cs: Some(bytecode), ..self }
    }

    pub fn node_mask(self, mask: u32) -> (r: Self)
        ensures
            r == (ComputePipelineStateDesc { node_mask: mask, ..self }),
    {
        ComputePipelineStateDesc { node_mask: mask, ..self }
    }

    pub fn cached_pso(self, state: CachedPipelineState<'cs>) -> (r: Self)
        ensures
            r == (ComputePipelineStateDesc { cached_pso: state, ..self }),
    {
        ComputePipelineStateDesc { cached_pso: state, ..self }
    }

    pub fn flags(self, flags: i32) -> (r: Self)
        ensures
            r == (ComputePipelineStateDesc { flags, ..self }),
    {
        ComputePipelineStateDesc { flags, ..self }
    }
}

#[derive(Clone, Copy, PartialEq, Eq, Debug)]
pub struct Vs<'a>(pub ShaderBytecode<'a>);

#[derive(Clone, Copy, PartialEq, Eq, Debug)]
pub struct Ps<'a>(pub ShaderBytecode<'a>);

#[derive(Clone, Copy, PartialEq, Eq, Debug)]
pub struct Ds<'a>(pub ShaderBytecode<'a>);

#[derive(Clone, Copy, PartialEq, Eq, Debug)]
pub struct Hs<'a>(pub ShaderBytecode<'a>);

#[derive(Clone, Copy, PartialEq, Eq, Debug)]
pub struct Gs<'a>(pub ShaderBytecode<'a>);

#[derive(Clone, Copy, PartialEq, Eq, Debug)]
pub struct Ms<'a>(pub ShaderBytecode<'a>);

#[derive(Clone, Copy, PartialEq, Eq, Debug)]
pub struct As<'a>(pub ShaderBytecode<'a>);

#[derive(Clone, Copy, PartialEq, Eq, Structural, Debug)]
pub struct SampleMask(pub u32);

#[derive(Clone, Copy, PartialEq, Eq, Structural, Debug)]
pub struct IbStripCutValue(pub i32);

#[derive(Clone, Copy, PartialEq, Eq, Debug)]
pub struct InputLayout<'a, 'b>(pub &'a [InputElementDesc<'b>]);

#[derive(Clone, Copy, PartialEq, Eq, Structural, Debug)]
pub struct PrimitiveTopologyType(pub i32);

#[derive(Clone, Copy, PartialEq, Eq, Debug)]
pub struct RenderTargetFormats<'a>(pub &'a [i32]);

#[derive(Clone, Copy, PartialEq, Eq, Structural, Debug)]
pub struct DepthStencilFormat(pub i32);

#[derive(Clone, Copy, PartialEq, Eq, Structural, Debug)]
pub struct NodeMask(pub u32);

#[derive(Clone, Copy, PartialEq, Eq, Structural, Debug)]
pub struct PipelineFlags(pub i32);

#[derive(Clone, Copy, PartialEq, Eq, Structural, Debug)]
pub struct ViewInstanceLocation {
    pub viewport_array_index: u32,
    pub render_target_array_index: u32,
}

impl ViewInstanceLocation {
    pub fn new() -> (r: Self)
        ensures
            r == (ViewInstanceLocation { viewport_array_index: 0, render_target_array_index: 0 }),
    {
        ViewInstanceLocation { viewport_array_index: 0, render_target_array_index: 0 }
    }

    pub fn viewport_array_index(self, index: u32) -> (r: Self)
        ensures
            r == (ViewInstanceLocation { viewport_array_index: index, ..self }),
    {
        ViewInstanceLocation { viewport_array_index: index, ..self }
    }

    pub fn render_target_array_index(self, index: u32) -> (r: Self)
        ensures
            r == (ViewInstanceLocation { render_target_array_index: index, ..self }),
    {
        ViewInstanceLocation { render_target_array_index: index, ..self }
    }
}

#[derive(Clone, Copy, PartialEq, Eq, Debug)]
pub struct ViewInstancingDesc<'a> {
    pub locations: &'a [ViewInstanceLocation],
    pub flags: i32,
}

impl<'a> ViewInstancingDesc<'a> {
    /// Describes view instancing over `locations`, whose number has to fit in 32
    /// bits.
    pub fn new(locations: &'a [ViewInstanceLocation]) -> (r: Self)
        requires
            locations@.len() <= u32::MAX,
        ensures
            r.locations == locations,
            r.flags == D3D12_VIEW_INSTANCING_FLAG_NONE,
    {
        ViewInstancingDesc { locations, flags: D3D12_VIEW_INSTANCING_FLAG_NONE }
    }

    pub fn flags(self, flags: i32) -> (r: Self)
        ensures
            r == (ViewInstancingDesc { flags, ..self }),
    {
        ViewInstancingDesc { flags, ..self }
    }

    /// The number of view instances that the native layer is told.
    pub fn view_instance_count(&self) -> (r: u32)
        requires
            self.locations@.len() <= u32::MAX,
        ensures
            r == self.locations@.len(),
    {
        self.locations.len() as u32
    }
}

/// The formats of the render targets as a pipeline state stream holds them.
#[derive(Clone, Copy, PartialEq, Eq, Debug)]
pub struct RtFormatArray {
    pub rt_formats: [i32; 8],
    pub num_render_targets: u32,
}

/// A part of a pipeline state that can stand in a pipeline state stream.
///
/// Each such type declares the tag by which the driver knows the part, and the
/// payload that follows the tag.
pub trait Subobject: Sized {
    /// The tag of the part.
    const VALUE: i32;

    /// The payload of the part.
    type Inner;

    /// Whether the value can be turned into its payload.
    spec fn valid(&self) -> bool;

    /// Whether `inner` is the payload of the value.
    spec fn describes(self, inner: Self::Inner) -> bool;

    fn new(self) -> (r: Self::Inner)
        requires
            self.valid(),
        ensures
            self.describes(r),
    ;
}

impl Subobject for RootSignature {
    const VALUE: i32 = D3D12_PIPELINE_STATE_SUBOBJECT_TYPE_ROOT_SIGNATURE;

    type Inner = RawHandle;

    open spec fn valid(&self) -> bool {
        true
    }

    open spec fn describes(self, inner: RawHandle) -> bool {
        inner == self.raw
    }

    fn new(self) -> (r: RawHandle) {
        self.raw
    }
}

impl<'a> Subobject for Vs<'a> {
    const VALUE: i32 = D3D12_PIPELINE_STATE_SUBOBJECT_TYPE_VS;

    type Inner = Self;

    open spec fn valid(&self) -> bool {
        true
    }

    open spec fn describes(self, inner: Self) -> bool {
        inner == self
    }

    fn new(self) -> (r: Self) {
        self
    }
}

impl<'a> Subobject for Ps<'a> {
    const VALUE: i32 = D3D12_PIPELINE_STATE_SUBOBJECT_TYPE_PS;

    type Inner = Self;

    open spec fn valid(&self) -> bool {
        true
    }

    open spec fn describes(self, inner: Self) -> bool {
        inner == self
    }

    fn new(self) -> (r: Self) {
        self
    }
}

impl<'a> Subobject for Ds<'a> {
    const VALUE: i32 = D3D12_PIPELINE_STATE_SUBOBJECT_TYPE_DS;

    type Inner = Self;

    open spec fn valid(&self) -> bool {
        true
    }

    open spec fn describes(self, inner: Self) -> bool {
        inner == self
    }

    fn new(self) -> (r: Self) {
        self
    }
}

impl<'a> Subobject for Hs<'a> {
    const VALUE: i32 = D3D12_PIPELINE_STATE_SUBOBJECT_TYPE_HS;

    type Inner = Self;

    open spec fn valid(&self) -> bool {
        true
    }

    open spec fn describes(self, inner: Self) -> bool {
        inner == self
    }

    fn new(self) -> (r: Self) {
        self
    }
}

impl<'a> Subobject for Gs<'a> {
    const VALUE: i32 = D3D12_PIPELINE_STATE_SUBOBJECT_TYPE_GS;

    type Inner = Self;

    open spec fn valid(&self) -> bool {
        true
    }

    open spec fn describes(self, inner: Self) -> bool {
        inner == self
    }

    fn new(self) -> (r: Self) {
        self
    }
}

impl<'decl, 'strides> Subobject for StreamOutputDesc<'decl, 'strides> {
    const VALUE: i32 = D3D12_PIPELINE_STATE_SUBOBJECT_TYPE_STREAM_OUTPUT;

    type Inner = Self;

    open spec fn valid(&self) -> bool {
        true
    }

    open spec fn describes(self, inner: Self) -> bool {
        inner == self
    }

    fn new(self) -> (r: Self) {
        self
    }
}

impl Subobject for BlendDesc {
    const VALUE: i32 = D3D12_PIPELINE_STATE_SUBOBJECT_TYPE_BLEND;

    type Inner = Self;

    open spec fn valid(&self) -> bool {
        true
    }

    open spec fn describes(self, inner: Self) -> bool {
        inner == self
    }

    fn new(self) -> (r: Self) {
        self
    }
}

impl Subobject for SampleMask {
    const VALUE: i32 = D3D12_PIPELINE_STATE_SUBOBJECT_TYPE_SAMPLE_MASK;

    type Inner = Self;

    open spec fn valid(&self) -> bool {
        true
    }

    open spec fn describes(self, inner: Self) -> bool {
        inner == self
    }

    fn new(self) -> (r: Self) {
        self
    }
}

impl Subobject for RasterizerDesc {
    const VALUE: i32 = D3D12_PIPELINE_STATE_SUBOBJECT_TYPE_RASTERIZER;

    type Inner = Self;

    open spec fn valid(&self) -> bool {
        true
    }

    open spec fn describes(self, inner: Self) -> bool {
        inner == self
    }

    fn new(self) -> (r: Self) {
        self
    }
}

impl Subobject for DepthStencilDesc {
    const VALUE: i32 = D3D12_PIPELINE_STATE_SUBOBJECT_TYPE_DEPTH_STENCIL;

    type Inner = Self;

    open spec fn valid(&self) -> bool {
        true
    }

    open spec fn describes(self, inner: Self) -> bool {
        inner == self
    }

    fn new(self) -> (r: Self) {
        self
    }
}

impl<'a, 'b> Subobject for InputLayout<'a, 'b> {
    const VALUE: i32 = D3D12_PIPELINE_STATE_SUBOBJECT_TYPE_INPUT_LAYOUT;

    type Inner = Self;

    open spec fn valid(&self) -> bool {
        true
    }

    open spec fn describes(self, inner: Self) -> bool {
        inner == self
    }

    fn new(self) -> (r: Self) {
        self
    }
}

impl Subobject for IbStripCutValue {
    const VALUE: i32 = D3D12_PIPELINE_STATE_SUBOBJECT_TYPE_IB_STRIP_CUT_VALUE;

    type Inner = Self;

    open spec fn valid(&self) -> bool {
        true
    }

    open spec fn describes(self, inner: Self) -> bool {
        inner == self
    }

    fn new(self) -> (r: Self) {
        self
    }
}

impl Subobject for PrimitiveTopologyType {
    const VALUE: i32 = D3D12_PIPELINE_STATE_SUBOBJECT_TYPE_PRIMITIVE_TOPOLOGY;

    type Inner = Self;

    open spec fn valid(&self) -> bool {
        true
    }

    open spec fn describes(self, inner: Self) -> bool {
        inner == self
    }

    fn new(self) -> (r: Self) {
        self
    }
}

impl<'a> Subobject for RenderTargetFormats<'a> {
    const VALUE: i32 = D3D12_PIPELINE_STATE_SUBOBJECT_TYPE_RENDER_TARGET_FORMATS;

    type Inner = RtFormatArray;

    open spec fn valid(&self) -> bool {
        self.0@.len() <= 8
    }

    open spec fn describes(self, inner: RtFormatArray) -> bool {
        inner.num_render_targets == self.0@.len() && inner.rt_formats@ == filled_formats(
            unknown_formats(),
            self.0@,
        )
    }

    fn new(self) -> (r: RtFormatArray) {
        let unknown: [i32; 8] = [
            DXGI_FORMAT_UNKNOWN,
            DXGI_FORMAT_UNKNOWN,
            DXGI_FORMAT_UNKNOWN,
            DXGI_FORMAT_UNKNOWN,
            DXGI_FORMAT_UNKNOWN,
            DXGI_FORMAT_UNKNOWN,
            DXGI_FORMAT_UNKNOWN,
            DXGI_FORMAT_UNKNOWN,
        ];
        assert(unknown@ =~= unknown_formats());
        let formats = fill_formats(unknown, self.0);
        RtFormatArray { rt_formats: formats, num_render_targets: self.0.len() as u32 }
    }
}

impl Subobject for DepthStencilFormat {
    const VALUE: i32 = D3D12_PIPELINE_STATE_SUBOBJECT_TYPE_DEPTH_STENCIL_FORMAT;

    type Inner = Self;

    open spec fn valid(&self) -> bool {
        true
    }

    open spec fn describes(self, inner: Self) -> bool {
        inner == self
    }

    fn new(self) -> (r: Self) {
        self
    }
}

impl Subobject for SampleDesc {
    const VALUE: i32 = D3D12_PIPELINE_STATE_SUBOBJECT_TYPE_SAMPLE_DESC;

    type Inner = Self;

    open spec fn valid(&self) -> bool {
        true
    }

    open spec fn describes(self, inner: Self) -> bool {
        inner == self
    }

    fn new(self) -> (r: Self) {
        self
    }
}

/// One part of a pipeline state stream: the tag of the part, then its payload.
pub struct StreamSubobject<T: Subobject> {
    pub ty: i32,
    pub inner: T::Inner,
}

impl<T> StreamSubobject<T> where T: Subobject {
    /// Wraps a part, which gets the tag of its type.
    pub fn new(object: T) -> (r: Self)
        requires
            object.valid(),
        ensures
            r.ty == T::VALUE,
            object.describes(r.inner),
    {
        StreamSubobject { ty: T::VALUE, inner: object.new() }
    }
}

/// The description of a pipeline state by a stream: an aggregate of stream
/// parts, which the driver reads one after the other.
pub struct PipelineStateStreamDesc<'a, T> {
    pub object: &'a T,
}

impl<'a, T> PipelineStateStreamDesc<'a, T> {
    pub fn new(object: &'a T) -> (r: Self)
        ensures
            r.object == object,
    {
        PipelineStateStreamDesc { object }
    }
}

/// Collects what a pipeline state is created from. `T` is the description, of a
/// graphics pipeline, of a compute pipeline or by a stream; which of the three
/// it is decides which native call creates the state.
pub struct Builder<T = ()> {
    pub device: RawHandle,
    pub desc: T,
    pub name: Option<String>,
}

/// What building a pipeline state gives for the outcome of its creation.
pub open spec fn built(created: Result<RawHandle, Error>, name: Option<String>, r: Result<
    PipelineState,
    Error,
>) -> bool {
    match created {
        Ok(raw) => r.is_ok() && r.unwrap().raw == raw && name_view(r.unwrap().name) == text_view(
            name,
        ),
        Err(e) => r == Err::<PipelineState, Error>(e),
    }
}

impl Builder<()> {
    pub(crate) fn new(device: RawHandle) -> (r: Self)
        ensures
            r.device == device,
            r.name.is_none(),
    {
        Builder { device, desc: (), name: None }
    }
}

impl<T> Builder<T> {
    pub fn desc<U>(self, desc: U) -> (r: Builder<U>)
        ensures
            r.device == self.device,
            r.desc == desc,
            r.name == self.name,
    {
        Builder { device: self.device, desc, name: self.name }
    }

    pub fn name(self, name: &str) -> (r: Self)
        ensures
            text_view(r.name) == Some(name@),
            r.device == self.device,
            r.desc == self.desc,
    {
        Builder { name: Some(name.to_owned()), ..self }
    }

    fn finish(self, created: Result<RawHandle, Error>) -> (r: Result<PipelineState, Error>)
        ensures
            built(created, self.name, r),
    {
        match created {
            Ok(raw) => Ok(PipelineState { raw, name: name_from_text(&self.name) }),
            Err(e) => Err(e),
        }
    }
}

impl<'a> Builder<GraphicsPipelineStateDesc<'a>> {
    /// Takes the outcome of the native call that creates a graphics pipeline
    /// state from the description of this builder.
    pub fn build(self, created: Result<RawHandle, Error>) -> (r: Result<PipelineState, Error>)
        ensures
            built(created, self.name, r),
    {
        self.finish(created)
    }
}

impl<'cs> Builder<ComputePipelineStateDesc<'cs>> {
    /// Takes the outcome of the native call that creates a compute pipeline
    /// state from the description of this builder.
    pub fn build(self, created: Result<RawHandle, Error>) -> (r: Result<PipelineState, Error>)
        ensures
            built(created, self.name, r),
    {
        self.finish(created)
    }
}

impl<'a, T> Builder<PipelineStateStreamDesc<'a, T>> {
    /// Takes the outcome of the native call that creates a pipeline state from
    /// the stream of this builder.
    pub fn build(self, created: Result<RawHandle, Error>) -> (r: Result<PipelineState, Error>)
        ensures
            built(created, self.name, r),
    {
        self.finish(created)
    }
}

/// A pipeline state.
#[derive(Debug)]
pub struct PipelineState {
    pub raw: RawHandle,
    pub name: Option<Name>,
}

impl PipelineState {
    pub fn new(device: &Device) -> (r: Builder)
        ensures
            r.device == device.raw,
            r.name.is_none(),
    {
        Builder::new(device.raw)
    }

    pub fn handle(&self) -> (r: RawHandle)
        ensures
            r == self.raw,
    {
        self.raw
    }

    pub fn name(&self) -> (r: Option<&str>)
        ensures
            r.is_some() == self.name.is_some(),
            r.is_some() ==> r.unwrap()@ == self.name.unwrap().text@,
    {
        name_as_str(&self.name)
    }
}

} // verus!
