use dxwr::d3d12::{
    D3D12_DESCRIPTOR_RANGE_OFFSET_APPEND, D3D12_DESCRIPTOR_RANGE_TYPE_CBV,
    D3D12_DESCRIPTOR_RANGE_TYPE_SAMPLER, D3D12_DESCRIPTOR_RANGE_TYPE_SRV,
    D3D12_DESCRIPTOR_RANGE_TYPE_UAV, D3D12_FILTER_ANISOTROPIC,
    D3D12_ROOT_PARAMETER_TYPE_32BIT_CONSTANTS, D3D12_ROOT_PARAMETER_TYPE_CBV,
    D3D12_ROOT_PARAMETER_TYPE_DESCRIPTOR_TABLE, D3D12_ROOT_PARAMETER_TYPE_SRV,
    D3D12_ROOT_PARAMETER_TYPE_UAV, D3D12_ROOT_SIGNATURE_FLAG_ALLOW_INPUT_ASSEMBLER_INPUT_LAYOUT,
    D3D12_ROOT_SIGNATURE_FLAG_NONE, D3D12_SHADER_VISIBILITY_ALL, D3D12_SHADER_VISIBILITY_PIXEL,
    D3D_ROOT_SIGNATURE_VERSION_1,
};
use dxwr::{
    DescriptorRange, Device, Error, Float, RawHandle, RootParameter, RootSignature,
    RootSignatureDesc, StaticSamplerDesc,
};
use std::cell::Cell;

fn device() -> Device {
    Device::new().min_feature_level(dxwr::d3d::D3D_FEATURE_LEVEL_12_1).build(Ok(RawHandle::new(1))).unwrap()
}

#[test]
fn descriptor_ranges_start_appended() {
    for (range, ty) in [
        (DescriptorRange::cbv(), D3D12_DESCRIPTOR_RANGE_TYPE_CBV),
        (DescriptorRange::srv(), D3D12_DESCRIPTOR_RANGE_TYPE_SRV),
        (DescriptorRange::uav(), D3D12_DESCRIPTOR_RANGE_TYPE_UAV),
        (DescriptorRange::sampler(), D3D12_DESCRIPTOR_RANGE_TYPE_SAMPLER),
        (DescriptorRange::new(7), 7),
    ] {
        assert_eq!(range.range_type, ty);
        assert_eq!(
            range.offset_in_descriptors_from_table_start,
            D3D12_DESCRIPTOR_RANGE_OFFSET_APPEND,
        );
        assert_eq!(range.offset_in_descriptors_from_table_start, u32::MAX);
        assert_eq!(
            (range.num_descriptors, range.base_shader_register, range.register_space),
            (0, 0, 0),
        );
    }
    let r = DescriptorRange::uav()
        .num_descriptors(1)
        .base_shader_register(2)
        .register_space(3)
        .offset_in_descriptors_from_table_start(Some(4));
    assert_eq!(
        (
            r.num_descriptors,
            r.base_shader_register,
            r.register_space,
            r.offset_in_descriptors_from_table_start
        ),
        (1, 2, 3, 4)
    );
    assert_eq!(
        r.offset_in_descriptors_from_table_start(None).offset_in_descriptors_from_table_start,
        u32::MAX,
    );
}

#[test]
fn root_parameters_carry_the_value_of_their_kind() {
    assert_eq!(
        RootParameter::descriptor_table().parameter_type,
        D3D12_ROOT_PARAMETER_TYPE_DESCRIPTOR_TABLE,
    );
    assert_eq!(
        RootParameter::constants_32bit().parameter_type,
        D3D12_ROOT_PARAMETER_TYPE_32BIT_CONSTANTS,
    );
    assert_eq!(RootParameter::cbv().parameter_type, D3D12_ROOT_PARAMETER_TYPE_CBV);
    assert_eq!(RootParameter::srv().parameter_type, D3D12_ROOT_PARAMETER_TYPE_SRV);
    assert_eq!(RootParameter::uav().parameter_type, D3D12_ROOT_PARAMETER_TYPE_UAV);
    assert_eq!(RootParameter::cbv().shader_visibility, D3D12_SHADER_VISIBILITY_ALL);
    let c = RootParameter::constants_32bit()
        .shader_register(1)
        .register_space(2)
        .num_32bit_values(4)
        .shader_visibility(D3D12_SHADER_VISIBILITY_PIXEL);
    assert_eq!((c.shader_register, c.register_space, c.num_32bit_values), (1, 2, 4));
    assert_eq!(c.shader_visibility, D3D12_SHADER_VISIBILITY_PIXEL);
    let s = RootParameter::srv().shader_register(3).register_space(1);
    assert_eq!((s.shader_register, s.register_space), (3, 1));
    let t = RootParameter::descriptor_table().ranges(
        vec![DescriptorRange::uav().num_descriptors(1)],
    );
    assert_eq!(t.num_descriptor_ranges(), 1);
    let erased: RootParameter = t.into();
    assert_eq!(erased.parameter_type, D3D12_ROOT_PARAMETER_TYPE_DESCRIPTOR_TABLE);
    assert_eq!(erased.ranges.as_ref().unwrap()[0].range_type, D3D12_DESCRIPTOR_RANGE_TYPE_UAV);
    assert_eq!(RootParameter::uav().erase().parameter_type, D3D12_ROOT_PARAMETER_TYPE_UAV);
}

#[test]
fn static_samplers_start_anisotropic() {
    let s = StaticSamplerDesc::new();
    assert_eq!(s.filter, D3D12_FILTER_ANISOTROPIC);
    assert_eq!((s.address_u, s.address_v, s.address_w), (1, 1, 1));
    assert_eq!(s.max_anisotropy, 16);
    assert_eq!(s.comparison_func, 4);
    assert_eq!(s.border_color, 1);
    assert_eq!(f32::from_bits(s.max_lod.bits), f32::MAX);
    assert_eq!(s.shader_visibility, D3D12_SHADER_VISIBILITY_ALL);
    assert_eq!(s, StaticSamplerDesc::default());
    let s = s.filter(0).address_u(3).shader_register(2).register_space(1).min_lod(Float::one()).mip_lod_bias(Float::one());
    assert_eq!((s.filter, s.address_u, s.shader_register, s.register_space), (0, 3, 2, 1));
}

#[test]
fn root_signature_with_one_uav_range_is_serialized_then_created() {
    let params = [RootParameter::descriptor_table()
        .ranges(vec![DescriptorRange::uav().num_descriptors(1)])
        .erase()];
    let desc = RootSignatureDesc::new().parameters(&params);
    assert_eq!((desc.num_parameters(), desc.num_static_samplers()), (1, 0));
    assert_eq!(desc.version(), D3D_ROOT_SIGNATURE_VERSION_1);
    let step = Cell::new(0);
    let sig = RootSignature::new(&device())
        .node_mask(1)
        .name("sig")
        .build_from_desc(
            &desc,
            |d| {
                assert_eq!(step.replace(1), 0);
                let ranges = d.params.unwrap()[0].ranges.as_ref().unwrap();
                assert_eq!(ranges.len(), 1);
                assert_eq!(ranges[0].range_type, D3D12_DESCRIPTOR_RANGE_TYPE_UAV);
                assert_eq!(ranges[0].num_descriptors, 1);
                assert_eq!(d.flags, D3D12_ROOT_SIGNATURE_FLAG_NONE);
                Ok(vec![b'D', b'X', b'B', b'C', 1, 2, 3])
            },
            |mask, blob| {
                assert_eq!(step.replace(2), 1);
                assert_eq!(mask, 1);
                assert_eq!(blob, vec![b'D', b'X', b'B', b'C', 1, 2, 3]);
                Ok(RawHandle::new(0xa0))
            },
        )
        .unwrap();
    assert_eq!(step.get(), 2);
    assert_eq!((sig.handle(), sig.name()), (RawHandle::new(0xa0), Some("sig")));
}

#[test]
fn empty_root_signature_is_valid() {
    let desc = RootSignatureDesc::new();
    assert!(desc.params.is_none() && desc.samplers.is_none());
    assert_eq!((desc.num_parameters(), desc.num_static_samplers()), (0, 0));
    let mut sig = RootSignature::new(&device())
        .build_from_desc(
            &desc,
            |_| Ok(vec![0u8; 4]),
            |mask,
            blob| { assert_eq!((mask, blob.len()), (0, 4)); Ok(RawHandle::new(0xa1)) },
        )
        .unwrap();
    assert_eq!(sig.name(), None);
    sig.set_name("empty");
    assert_eq!(sig.name(), Some("empty"));
}

#[test]
fn root_signature_errors_surface_per_phase() {
    let samplers = [StaticSamplerDesc::new()];
    let desc = RootSignatureDesc::new()
        .static_samplers(&samplers)
        .flags(D3D12_ROOT_SIGNATURE_FLAG_ALLOW_INPUT_ASSEMBLER_INPUT_LAYOUT);
    assert_eq!(desc.num_static_samplers(), 1);
    assert_eq!(desc.flags, 1);
    let r = RootSignature::new(&device()).build_from_desc(
        &desc,
        |_| Err(Error::new(-20)),
        |_,
        _| unreachable!(),
    );
    assert_eq!(r.unwrap_err(), Error::new(-20));
    let r = RootSignature::new(&device()).build_from_desc(
        &desc,
        |_| Ok(vec![]),
        |_,
        _| Err(Error::new(-21)),
    );
    assert_eq!(r.unwrap_err(), Error::new(-21));
}
