use crate::d3d12::{
    D3D12_COMPARISON_FUNC_LESS_EQUAL, D3D12_DESCRIPTOR_RANGE_OFFSET_APPEND,
    D3D12_DESCRIPTOR_RANGE_TYPE_CBV, D3D12_DESCRIPTOR_RANGE_TYPE_SAMPLER,
    D3D12_DESCRIPTOR_RANGE_TYPE_SRV, D3D12_DESCRIPTOR_RANGE_TYPE_UAV, D3D12_FILTER_ANISOTROPIC,
    D3D12_ROOT_SIGNATURE_FLAG_NONE, D3D12_SHADER_VISIBILITY_ALL,
    D3D12_STATIC_BORDER_COLOR_OPAQUE_BLACK, D3D12_TEXTURE_ADDRESS_MODE_WRAP,
    D3D_ROOT_SIGNATURE_VERSION_1,
};
use crate::device::Device;
use crate::utility::{
    name_as_str, name_from_text, name_view, text_view, Error, Float, Name, RawHandle,
};
use vstd::prelude::*;

pub mod root_parameter_type;

verus! {

/// A run of descriptors of one type in a descriptor table.
#[derive(Clone, Copy, PartialEq, Eq, Structural, Debug)]
pub struct DescriptorRange {
    pub range_type: i32,
    pub num_descriptors: u32,
    pub base_shader_register: u32,
    pub register_space: u32,
    pub offset_in_descriptors_from_table_start: u32,
}

impl DescriptorRange {
    pub fn new(t: i32) -> (r: Self)
        ensures
            r.range_type == t,
            r.num_descriptors == 0,
            r.base_shader_register == 0,
            r.register_space == 0,
            r.offset_in_descriptors_from_table_start == D3D12_DESCRIPTOR_RANGE_OFFSET_APPEND,
    {
        DescriptorRange {
            range_type: t,
            num_descriptors: 0,
            base_shader_register: 0,
            register_space: 0,
            offset_in_descriptors_from_table_start: D3D12_DESCRIPTOR_RANGE_OFFSET_APPEND,
        }
    }
    pub fn cbv() -> (r: Self)
        ensures
            r.range_type == D3D12_DESCRIPTOR_RANGE_TYPE_CBV,
            r.num_descriptors == 0,
            r.base_shader_register == 0,
            r.register_space == 0,
            r.offset_in_descriptors_from_table_start == D3D12_DESCRIPTOR_RANGE_OFFSET_APPEND,
    {
        DescriptorRange {
            range_type: D3D12_DESCRIPTOR_RANGE_TYPE_CBV,
            num_descriptors: 0,
            base_shader_register: 0,
            register_space: 0,
            offset_in_descriptors_from_table_start: D3D12_DESCRIPTOR_RANGE_OFFSET_APPEND,
        }
    }
    pub fn srv() -> (r: Self)
        ensures
            r.range_type == D3D12_DESCRIPTOR_RANGE_TYPE_SRV,
            r.num_descriptors == 0,
            r.base_shader_register == 0,
            r.register_space == 0,
            r.offset_in_descriptors_from_table_start == D3D12_DESCRIPTOR_RANGE_OFFSET_APPEND,
    {
        DescriptorRange {
            range_type: D3D12_DESCRIPTOR_RANGE_TYPE_SRV,
            num_descriptors: 0,
            base_shader_register: 0,
            register_space: 0,
            offset_in_descriptors_from_table_start: D3D12_DESCRIPTOR_RANGE_OFFSET_APPEND,
        }
    }
    pub fn uav() -> (r: Self)
        ensures
            r.range_type == D3D12_DESCRIPTOR_RANGE_TYPE_UAV,
            r.num_descriptors == 0,
            r.base_shader_register == 0,
            r.register_space == 0,
            r.offset_in_descriptors_from_table_start == D3D12_DESCRIPTOR_RANGE_OFFSET_APPEND,
    {
        DescriptorRange {
            range_type: D3D12_DESCRIPTOR_RANGE_TYPE_UAV,
            num_descriptors: 0,
            base_shader_register: 0,
            register_space: 0,
            offset_in_descriptors_from_table_start: D3D12_DESCRIPTOR_RANGE_OFFSET_APPEND,
        }
    }
    pub fn sampler() -> (r: Self)
        ensures
            r.range_type == D3D12_DESCRIPTOR_RANGE_TYPE_SAMPLER,
            r.num_descriptors == 0,
            r.base_shader_register == 0,
            r.register_space == 0,
            r.offset_in_descriptors_from_table_start == D3D12_DESCRIPTOR_RANGE_OFFSET_APPEND,
    {
        DescriptorRange {
            range_type: D3D12_DESCRIPTOR_RANGE_TYPE_SAMPLER,
            num_descriptors: 0,
            base_shader_register: 0,
            register_space: 0,
            offset_in_descriptors_from_table_start: D3D12_DESCRIPTOR_RANGE_OFFSET_APPEND,
        }
    }
    pub fn num_descriptors(self, n: u32) -> (r: Self)
        ensures
            r == (DescriptorRange { num_descriptors: n, ..self }),
    {
        DescriptorRange { num_descriptors: n, ..self }
    }
    pub fn base_shader_register(self, reg: u32) -> (r: Self)
        ensures
            r == (DescriptorRange { base_shader_register: reg, ..self }),
    {
        DescriptorRange { base_shader_register: reg, ..self }
    }
    pub fn register_space(self, space: u32) -> (r: Self)
        ensures
            r == (DescriptorRange { register_space: space, ..self }),
    {
        DescriptorRange { register_space: space, ..self }
    }
    /// Sets where the range starts in its table; `None` puts it right behind the
    /// range before it.
    pub fn offset_in_descriptors_from_table_start(self, offset: Option<u32>) -> (r: Self)
        ensures
            r == (DescriptorRange {
                offset_in_descriptors_from_table_start: match offset {
                    Some(o) => o,
                    None => D3D12_DESCRIPTOR_RANGE_OFFSET_APPEND,
                },
                ..self
            }),
    {
        DescriptorRange {
            offset_in_descriptors_from_table_start: match offset {
                Some(o) => o,
                None => D3D12_DESCRIPTOR_RANGE_OFFSET_APPEND,
            },
            ..self
        }
    }
}

/// The kind of a root parameter.
///
/// A kind is a marker type. A root parameter carries it as a type parameter, so
/// that only the fields of its kind can be set.
pub trait RootParameterType {
    /// The value by which the native layer knows the kind.
    const VALUE: i32;
}

/// One parameter of a root signature. `T` is the kind of the parameter; `()`
/// stands for a parameter whose kind is known by its value only.
#[derive(Debug)]
pub struct RootParameter<T = ()> {
    pub parameter_type: i32,
    pub shader_visibility: i32,
    pub shader_register: u32,
    pub register_space: u32,
    pub num_32bit_values: u32,
    pub ranges: Option<Vec<DescriptorRange>>,
    pub _t: core::marker::PhantomData<T>,
}

/// A root parameter as mathematical values.
pub struct RootParameterView {
    pub parameter_type: i32,
    pub shader_visibility: i32,
    pub shader_register: u32,
    pub register_space: u32,
    pub num_32bit_values: u32,
    pub ranges: Option<Seq<DescriptorRange>>,
}

impl<T> View for RootParameter<T> {
    type V = RootParameterView;

    open spec fn view(&self) -> RootParameterView {
        RootParameterView {
            parameter_type: self.parameter_type,
            shader_visibility: self.shader_visibility,
            shader_register: self.shader_register,
            register_space: self.register_space,
            num_32bit_values: self.num_32bit_values,
            ranges: match self.ranges {
                Some(r) => Some(r@),
                None => None,
            },
        }
    }
}

impl RootParameter<()> {
    /// A parameter of the kind `T`, visible to all shader stages.
    pub fn new<T>(_t: T) -> (r: RootParameter<T>)
        where T: RootParameterType
        ensures
            r@ == (RootParameterView {
                parameter_type: T::VALUE,
                shader_visibility: D3D12_SHADER_VISIBILITY_ALL,
                shader_register: 0,
                register_space: 0,
                num_32bit_values: 0,
                ranges: None,
            }),
    {
        RootParameter {
            parameter_type: T::VALUE,
            shader_visibility: D3D12_SHADER_VISIBILITY_ALL,
            shader_register: 0,
            register_space: 0,
            num_32bit_values: 0,
            ranges: None,
            _t: core::marker::PhantomData,
        }
    }

    pub fn cbv() -> (r: RootParameter<root_parameter_type::Cbv>)
        ensures
            r@ == (RootParameterView {
                parameter_type: root_parameter_type::Cbv::VALUE,
                shader_visibility: D3D12_SHADER_VISIBILITY_ALL,
                shader_register: 0,
                register_space: 0,
                num_32bit_values: 0,
                ranges: None,
            }),
    {
        Self::new(root_parameter_type::Cbv)
    }

    pub fn srv() -> (r: RootParameter<root_parameter_type::Srv>)
        ensures
            r@ == (RootParameterView {
                parameter_type: root_parameter_type::Srv::VALUE,
                shader_visibility: D3D12_SHADER_VISIBILITY_ALL,
                shader_register: 0,
                register_space: 0,
                num_32bit_values: 0,
                ranges: None,
            }),
    {
        Self::new(root_parameter_type::Srv)
    }

    pub fn uav() -> (r: RootParameter<root_parameter_type::Uav>)
        ensures
            r@ == (RootParameterView {
                parameter_type: root_parameter_type::Uav::VALUE,
                shader_visibility: D3D12_SHADER_VISIBILITY_ALL,
                shader_register: 0,
                register_space: 0,
                num_32bit_values: 0,
                ranges: None,
            }),
    {
        Self::new(root_parameter_type::Uav)
    }

    pub fn constants_32bit() -> (r: RootParameter<root_parameter_type::Constants32bit>)
        ensures
            r@ == (RootParameterView {
                parameter_type: root_parameter_type::Constants32bit::VALUE,
                shader_visibility: D3D12_SHADER_VISIBILITY_ALL,
                shader_register: 0,
                register_space: 0,
                num_32bit_values: 0,
                ranges: None,
            }),
    {
        Self::new(root_parameter_type::Constants32bit)
    }

    pub fn descriptor_table() -> (r: RootParameter<root_parameter_type::DescriptorTable>)
        ensures
            r@ == (RootParameterView {
                parameter_type: root_parameter_type::DescriptorTable::VALUE,
                shader_visibility: D3D12_SHADER_VISIBILITY_ALL,
                shader_register: 0,
                register_space: 0,
                num_32bit_values: 0,
                ranges: None,
            }),
    {
        Self::new(root_parameter_type::DescriptorTable)
    }
}

impl<T> RootParameter<T> where T: RootParameterType {
    pub fn shader_visibility(self, visibility: i32) -> (r: Self)
        ensures
            r@ == (RootParameterView { shader_visibility: visibility, ..self@ }),
    {
        RootParameter { shader_visibility: visibility, ..self }
    }

    /// The parameter without its kind tag, as a root signature description takes it.
    pub fn erase(self) -> (r: RootParameter<()>)
        ensures
            r@ == self@,
    {
        RootParameter {
            parameter_type: self.parameter_type,
            shader_visibility: self.shader_visibility,
            shader_register: self.shader_register,
            register_space: self.register_space,
            num_32bit_values: self.num_32bit_values,
            ranges: self.ranges,
            _t: core::marker::PhantomData,
        }
    }
}

impl RootParameter<root_parameter_type::DescriptorTable> {
    /// Sets the ranges of the table, whose number has to fit in 32 bits.
    pub fn ranges(self, ranges: Vec<DescriptorRange>) -> (r: RootParameter<
        root_parameter_type::DescriptorTable,
    >)
        requires
            ranges@.len() <= u32::MAX,
        ensures
            r@ == (RootParameterView { ranges: Some(ranges@), ..self@ }),
    {
        RootParameter { ranges: Some(ranges), ..self }
    }

    /// The number of ranges that the native layer is told.
    pub fn num_descriptor_ranges(&self) -> (r: u32)
        requires
            self.ranges.is_some() ==> self.ranges.unwrap()@.len() <= u32::MAX,
        ensures
            r == match self@.ranges {
                Some(ranges) => ranges.len(),
                None => 0,
            },
    {
        match &self.ranges {
            Some(ranges) => ranges.len() as u32,
            None => 0,
        }
    }
}

impl RootParameter<root_parameter_type::Constants32bit> {
    pub fn shader_register(self, reg: u32) -> (r: Self)
        ensures
            r@ == (RootParameterView { shader_register: reg, ..self@ }),
    {
        RootParameter { shader_register: reg, ..self }
    }

    pub fn register_space(self, space: u32) -> (r: Self)
        ensures
            r@ == (RootParameterView { register_space: space, ..self@ }),
    {
        RootParameter { register_space: space, ..self }
    }

    pub fn num_32bit_values(self, n: u32) -> (r: Self)
        ensures
            r@ == (RootParameterView { num_32bit_values: n, ..self@ }),
    {
        RootParameter { num_32bit_values: n, ..self }
    }
}

impl RootParameter<root_parameter_type::Cbv> {
    pub fn shader_register(self, reg: u32) -> (r: Self)
        ensures
            r@ == (RootParameterView { shader_register: reg, ..self@ }),
    {
        RootParameter { shader_register: reg, ..self }
    }

    pub fn register_space(self, space: u32) -> (r: Self)
        ensures
            r@ == (RootParameterView { register_space: space, ..self@ }),
    {
        RootParameter { register_space: space, ..self }
    }
}

impl RootParameter<root_parameter_type::Srv> {
    pub fn shader_register(self, reg: u32) -> (r: Self)
        ensures
            r@ == (RootParameterView { shader_register: reg, ..self@ }),
    {
        RootParameter { shader_register: reg, ..self }
    }

    pub fn register_space(self, space: u32) -> (r: Self)
        ensures
            r@ == (RootParameterView { register_space: space, ..self@ }),
    {
        RootParameter { register_space: space, ..self }
    }
}

impl RootParameter<root_parameter_type::Uav> {
    pub fn shader_register(self, reg: u32) -> (r: Self)
        ensures
            r@ == (RootParameterView { shader_register: reg, ..self@ }),
    {
        RootParameter { shader_register: reg, ..self }
    }

    pub fn register_space(self, space: u32) -> (r: Self)
        ensures
            r@ == (RootParameterView { register_space: space, ..self@ }),
    {
        RootParameter { register_space: space, ..self }
    }
}

impl<T> From<RootParameter<T>> for RootParameter<()> where T: RootParameterType {
    fn from(value: RootParameter<T>) -> (r: Self) {
        RootParameter {
            parameter_type: value.parameter_type,
            shader_visibility: value.shader_visibility,
            shader_register: value.shader_register,
            register_space: value.register_space,
            num_32bit_values: value.num_32bit_values,
            ranges: value.ranges,
            _t: core::marker::PhantomData,
        }
    }
}

impl<T> vstd::std_specs::convert::FromSpecImpl<RootParameter<T>> for RootParameter<()> where T: RootParameterType {
    open spec fn obeys_from_spec() -> bool {
        true
    }

    open spec fn from_spec(value: RootParameter<T>) -> Self {
        RootParameter {
            parameter_type: value.parameter_type,
            shader_visibility: value.shader_visibility,
            shader_register: value.shader_register,
            register_space: value.register_space,
            num_32bit_values: value.num_32bit_values,
            ranges: value.ranges,
            _t: core::marker::PhantomData,
        }
    }
}

#[derive(Clone, Copy, PartialEq, Eq, Structural, Debug)]
pub struct StaticSamplerDesc {
    pub filter: i32,
    pub address_u: i32,
    pub address_v: i32,
    pub address_w: i32,
    pub mip_lod_bias: Float,
    pub max_anisotropy: u32,
    pub comparison_func: i32,
    pub border_color: i32,
    pub min_lod: Float,
    pub max_lod: Float,
    pub shader_register: u32,
    pub register_space: u32,
    pub shader_visibility: i32,
}

impl StaticSamplerDesc {
    pub fn new() -> (r: Self)
        ensures
            r.filter == D3D12_FILTER_ANISOTROPIC,
            r.address_u == D3D12_TEXTURE_ADDRESS_MODE_WRAP,
            r.address_v == D3D12_TEXTURE_ADDRESS_MODE_WRAP,
            r.address_w == D3D12_TEXTURE_ADDRESS_MODE_WRAP,
            r.mip_lod_bias == (Float { bits: 0 }),
            r.max_anisotropy == 16,
            r.comparison_func == D3D12_COMPARISON_FUNC_LESS_EQUAL,
            r.border_color == D3D12_STATIC_BORDER_COLOR_OPAQUE_BLACK,
            r.min_lod == (Float { bits: 0 }),
            r.max_lod == (Float { bits: Float::MAX_BITS }),
            r.shader_register == 0,
            r.register_space == 0,
            r.shader_visibility == D3D12_SHADER_VISIBILITY_ALL,
    {
        StaticSamplerDesc {
            filter: D3D12_FILTER_ANISOTROPIC,
            address_u: D3D12_TEXTURE_ADDRESS_MODE_WRAP,
            address_v: D3D12_TEXTURE_ADDRESS_MODE_WRAP,
            address_w: D3D12_TEXTURE_ADDRESS_MODE_WRAP,
            mip_lod_bias: (Float { bits: 0 }),
            max_anisotropy: 16,
            comparison_func: D3D12_COMPARISON_FUNC_LESS_EQUAL,
            border_color: D3D12_STATIC_BORDER_COLOR_OPAQUE_BLACK,
            min_lod: (Float { bits: 0 }),
            max_lod: (Float { bits: Float::MAX_BITS }),
            shader_register: 0,
            register_space: 0,
            shader_visibility: D3D12_SHADER_VISIBILITY_ALL,
        }
    }
    pub fn filter(self, filter: i32) -> (r: Self)
        ensures
            r == (StaticSamplerDesc { filter, ..self }),
    {
        StaticSamplerDesc { filter, ..self }
    }
    pub fn address_u(self, mode: i32) -> (r: Self)
        ensures
            r == (StaticSamplerDesc { address_u: mode, ..self }),
    {
        StaticSamplerDesc { address_u: mode, ..self }
    }
    pub fn address_v(self, mode: i32) -> (r: Self)
        ensures
            r == (StaticSamplerDesc { address_v: mode, ..self }),
    {
        StaticSamplerDesc { address_v: mode, ..self }
    }
    pub fn address_w(self, mode: i32) -> (r: Self)
        ensures
            r == (StaticSamplerDesc { address_w: mode, ..self }),
    {
        StaticSamplerDesc { address_w: mode, ..self }
    }
    pub fn mip_lod_bias(self, value: Float) -> (r: Self)
        ensures
            r == (StaticSamplerDesc { mip_lod_bias: value, ..self }),
    {
        StaticSamplerDesc { mip_lod_bias: value, ..self }
    }
    pub fn max_anisotropy(self, value: u32) -> (r: Self)
        ensures
            r == (StaticSamplerDesc { max_anisotropy: value, ..self }),
    {
        StaticSamplerDesc { max_anisotropy: value, ..self }
    }
    pub fn comparison_func(self, func: i32) -> (r: Self)
        ensures
            r == (StaticSamplerDesc { comparison_func: func, ..self }),
    {
        StaticSamplerDesc { comparison_func: func, ..self }
    }
    pub fn border_color(self, color: i32) -> (r: Self)
        ensures
            r == (StaticSamplerDesc { border_color: color, ..self }),
    {
        StaticSamplerDesc { border_color: color, ..self }
    }
    pub fn min_lod(self, lod: Float) -> (r: Self)
        ensures
            r == (StaticSamplerDesc { min_lod: lod, ..self }),
    {
        StaticSamplerDesc { min_lod: lod, ..self }
    }
    pub fn max_lod(self, lod: Float) -> (r: Self)
        ensures
            r == (StaticSamplerDesc { max_lod: lod, ..self }),
    {
        StaticSamplerDesc { max_lod: lod, ..self }
    }
    pub fn shader_register(self, reg: u32) -> (r: Self)
        ensures
            r == (StaticSamplerDesc { shader_register: reg, ..self }),
    {
        StaticSamplerDesc { shader_register: reg, ..self }
    }
    pub fn register_space(self, space: u32) -> (r: Self)
        ensures
            r == (StaticSamplerDesc { register_space: space, ..self }),
    {
        StaticSamplerDesc { register_space: space, ..self }
    }
    pub fn shader_visibility(self, visibility: i32) -> (r: Self)
        ensures
            r == (StaticSamplerDesc { shader_visibility: visibility, ..self }),
    {
        StaticSamplerDesc { shader_visibility: visibility, ..self }
    }
}

impl Default for StaticSamplerDesc {
    fn default() -> (r: Self)
        ensures
            r.filter == D3D12_FILTER_ANISOTROPIC,
            r.max_anisotropy == 16,
            r.shader_visibility == D3D12_SHADER_VISIBILITY_ALL,
    {
        StaticSamplerDesc::new()
    }
}

/// The description of a root signature: its parameters, its static samplers and
/// its flags.
#[derive(Debug)]
pub struct RootSignatureDesc<'params, 'samplers> {
    pub params: Option<&'params [RootParameter<()>]>,
    pub samplers: Option<&'samplers [StaticSamplerDesc]>,
    pub flags: i32,
}

/// The number of items that the native layer is told for an optional list.
pub open spec fn count_of<T>(items: Option<&[T]>) -> int {
    match items {
        Some(s) => s@.len() as int,
        None => 0,
    }
}

impl<'params, 'samplers> RootSignatureDesc<'params, 'samplers> {
    /// The description of the empty signature: no parameters, no samplers, no flags.
    pub fn new() -> (r: Self)
        ensures
            r.params.is_none(),
            r.samplers.is_none(),
            r.flags == D3D12_ROOT_SIGNATURE_FLAG_NONE,
    {
        RootSignatureDesc { params: None, samplers: None, flags: D3D12_ROOT_SIGNATURE_FLAG_NONE }
    }

    pub fn parameters<'a>(self, params: &'a [RootParameter<()>]) -> (r: RootSignatureDesc<
        'a,
        'samplers,
    >)
        ensures
            r.params == Some(params),
            r.samplers == self.samplers,
            r.flags == self.flags,
    {
        RootSignatureDesc { params: Some(params), samplers: self.samplers, flags: self.flags }
    }

    pub fn static_samplers<'b>(self, samplers: &'b [StaticSamplerDesc]) -> (r: RootSignatureDesc<
        'params,
        'b,
    >)
        ensures
            r.params == self.params,
            r.samplers == Some(samplers),
            r.flags == self.flags,
    {
        RootSignatureDesc { params: self.params, samplers: Some(samplers), flags: self.flags }
    }

    pub fn flags(self, flags: i32) -> (r: Self)
        ensures
            r.params == self.params,
            r.samplers == self.samplers,
            r.flags == flags,
    {
        RootSignatureDesc { flags, ..self }
    }

    /// The number of parameters that the native layer is told.
    pub fn num_parameters(&self) -> (r: u32)
        requires
            count_of(self.params) <= u32::MAX,
        ensures
            r == count_of(self.params),
    {
        match self.params {
            Some(p) => p.len() as u32,
            None => 0,
        }
    }

    /// The number of static samplers that the native layer is told.
    pub fn num_static_samplers(&self) -> (r: u32)
        requires
            count_of(self.samplers) <= u32::MAX,
        ensures
            r == count_of(self.samplers),
    {
        match self.samplers {
            Some(s) => s.len() as u32,
            None => 0,
        }
    }

    /// The version of the layout that the description is serialized in.
    pub fn version(&self) -> (r: i32)
        ensures
            r == D3D_ROOT_SIGNATURE_VERSION_1,
    {
        D3D_ROOT_SIGNATURE_VERSION_1
    }
}

pub struct Builder {
    pub device: RawHandle,
    pub node_mask: u32,
    pub name: Option<String>,
}

/// What building a root signature gives for the outcome of its creation.
pub open spec fn built(created: Result<RawHandle, Error>, name: Option<String>, r: Result<
    RootSignature,
    Error,
>) -> bool {
    match created {
        Ok(raw) => r.is_ok() && r.unwrap().raw == raw && name_view(r.unwrap().name) == text_view(
            name,
        ),
        Err(e) => r == Err::<RootSignature, Error>(e),
    }
}

impl Builder {
    pub(crate) fn new(device: RawHandle) -> (r: Self)
        ensures
            r.device == device,
            r.node_mask == 0,
            r.name.is_none(),
    {
        Builder { device, node_mask: 0, name: None }
    }

    pub fn node_mask(self, mask: u32) -> (r: Self)
        ensures
            r == (Builder { node_mask: mask, ..self }),
    {
        Builder { node_mask: mask, ..self }
    }

    pub fn name(self, name: &str) -> (r: Self)
        ensures
            text_view(r.name) == Some(name@),
            r.device == self.device,
            r.node_mask == self.node_mask,
    {
        Builder { name: Some(name.to_owned()), ..self }
    }

    /// Builds a root signature from a description, in two phases.
    ///
    /// First the description is serialized into a blob by the native layer.
    /// Where that fails, its error is returned and nothing is created. Else the
    /// signature is created from the node mask and from the bytes of the blob,
    /// and an error of the creation is returned as it is.
    pub fn build_from_desc<'p, 's, S, C>(
        self,
        desc: &RootSignatureDesc<'p, 's>,
        serialize: S,
        create: C,
    ) -> (r: Result<RootSignature, Error>)
        where
            S: FnOnce(&RootSignatureDesc<'p, 's>) -> Result<Vec<u8>, Error>,
            C: FnOnce(u32, Vec<u8>) -> Result<RawHandle, Error>,
        requires
            serialize.requires((desc,)),
            forall|blob: Vec<u8>| #[trigger] create.requires((self.node_mask, blob)),
        ensures
            exists|serialized: Result<Vec<u8>, Error>| #[trigger]
                serialize.ensures((desc,), serialized) && match serialized {
                    Err(e) => r == Err::<RootSignature, Error>(e),
                    Ok(blob) => exists|created: Result<RawHandle, Error>| #[trigger]
                        create.ensures((self.node_mask, blob), created) && built(
                            created,
                            self.name,
                            r,
                        ),
                },
    {
        let serialized = serialize(desc);
        match serialized {
            Err(e) => Err(e),
            Ok(blob) => {
                let ghost handed = blob;
                let created = create(self.node_mask, blob);
                let r = match created {
                    Ok(raw) => Ok(RootSignature { raw, name: name_from_text(&self.name) }),
                    Err(e) => Err(e),
                };
                assert(create.ensures((self.node_mask, handed), created) && built(
                    created,
                    self.name,
                    r,
                ));
                r
            },
        }
    }
}

/// The layout by which shaders find their resources and constants.
#[derive(Debug)]
pub struct RootSignature {
    pub raw: RawHandle,
    pub name: Option<Name>,
}

impl RootSignature {
    pub fn new(device: &Device) -> (r: Builder)
        ensures
            r.device == device.raw,
            r.node_mask == 0,
            r.name.is_none(),
    {
        Builder::new(device.raw)
    }

    pub fn handle(&self) -> (r: RawHandle)
        ensures
            r == self.raw,
    {
        self.raw
    }

    pub fn name(&self) -> (r: Option<&str>)
        ensures
            r.is_some() == self.name.is_some(),
            r.is_some() ==> r.unwrap()@ == self.name.unwrap().text@,
    {
        name_as_str(&self.name)
    }

    /// Records the debug name that the native object is given.
    pub fn set_name(&mut self, name: &str)
        ensures
            final(self).raw == old(self).raw,
            name_view(final(self).name) == Some(name@),
    {
        self.name = Some(Name::new(name));
    }
}

} // verus!
