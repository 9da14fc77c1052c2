use dxwr::d3d12::{
    D3D12_ELEMENTS_LAYOUT_ARRAY, D3D12_RAYTRACING_ACCELERATION_STRUCTURE_TYPE_BOTTOM_LEVEL,
    D3D12_RAYTRACING_ACCELERATION_STRUCTURE_TYPE_TOP_LEVEL, D3D12_RAYTRACING_GEOMETRY_FLAG_OPAQUE,
    D3D12_RAYTRACING_GEOMETRY_TYPE_PROCEDURAL_PRIMITIVE_AABBS,
    D3D12_RAYTRACING_GEOMETRY_TYPE_TRIANGLES,
};
use dxwr::raytracing::{BottomLevel, TopLevel};
use dxwr::{
    BuildRaytracingAccelerationStructureDesc, BuildRaytracingAccelerationStructureInputs,
    BuildRaytracingAccelerationStructureInputsType, Command, Commands, Device, Float,
    GpuVirtualAddress, GpuVirtualAddressAndStride, RawHandle,
    RaytracingAccelerationStructurePrebuildInfo, RaytracingGeometryDesc, RaytracingInstanceDesc,
};

fn device() -> Device {
    Device::new().min_feature_level(dxwr::d3d::D3D_FEATURE_LEVEL_12_1).build(Ok(RawHandle::new(1))).unwrap()
}

fn triangle() -> RaytracingGeometryDesc {
    RaytracingGeometryDesc::triangles()
        .flags(D3D12_RAYTRACING_GEOMETRY_FLAG_OPAQUE)
        .vertex_buffer(
            GpuVirtualAddressAndStride::new().start_address(GpuVirtualAddress(0x100)).stride_in_bytes(12),
            3,
            6,
        )
        .index_buffer(GpuVirtualAddress(0x200), 3, 42)
        .transform3x4(GpuVirtualAddress(0x300))
        .into()
}

#[test]
fn geometry_descriptions_know_their_type() {
    match triangle() {
        RaytracingGeometryDesc::Triangles(t) => {
            assert_eq!(
                (t.flags, t.vertex_count, t.vertex_format),
                (D3D12_RAYTRACING_GEOMETRY_FLAG_OPAQUE, 3, 6),
            );
            assert_eq!(
                (t.vertex_buffer.start_address, t.vertex_buffer.stride_in_bytes),
                (0x100, 12),
            );
            assert_eq!(
                (t.index_buffer, t.index_count, t.index_format, t.transform3x4),
                (0x200, 3, 42, 0x300),
            );
        }
        _ => unreachable!(),
    }
    assert_eq!(triangle().type_value(), D3D12_RAYTRACING_GEOMETRY_TYPE_TRIANGLES);
    let aabbs: RaytracingGeometryDesc = RaytracingGeometryDesc::aabbs()
        .flags(1)
        .aabb_count(5)
        .aabbs(
            GpuVirtualAddressAndStride::new().start_address(GpuVirtualAddress(0x400)).stride_in_bytes(24),
        )
        .into();
    assert_eq!(aabbs.type_value(), D3D12_RAYTRACING_GEOMETRY_TYPE_PROCEDURAL_PRIMITIVE_AABBS);
    assert!(
        matches!(
            aabbs,
            RaytracingGeometryDesc::Aabbs(a) if a.aabb_count == 5 && a.aabbs.stride_in_bytes == 24,
        ),
    );
}

#[test]
fn build_inputs_know_their_level() {
    let top: TopLevel = BuildRaytracingAccelerationStructureInputs::top_level()
        .flags(4)
        .num_descs(1)
        .instance_descs(GpuVirtualAddress(0x500));
    assert!(
        matches!(top.get(), BuildRaytracingAccelerationStructureInputs::TopLevel(t) if t == top),
    );
    let bottom: BottomLevel = BuildRaytracingAccelerationStructureInputs::bottom_level()
        .flags(4)
        .geometry_descs(&[triangle(), triangle()]);
    match bottom.get() {
        BuildRaytracingAccelerationStructureInputs::BottomLevel(b) => {
            assert_eq!(b.flags, 4);
            assert_eq!(b.geometry_descs, vec![triangle(), triangle()]);
        }
        _ => unreachable!(),
    }
    assert_eq!(
        (
            D3D12_RAYTRACING_ACCELERATION_STRUCTURE_TYPE_TOP_LEVEL,
            D3D12_RAYTRACING_ACCELERATION_STRUCTURE_TYPE_BOTTOM_LEVEL
        ),
        (0, 1)
    );
    assert_eq!(D3D12_ELEMENTS_LAYOUT_ARRAY, 0);
    let converted: BuildRaytracingAccelerationStructureInputs = top.into();
    assert!(matches!(converted, BuildRaytracingAccelerationStructureInputs::TopLevel(_)));
}

#[test]
fn prebuild_info_is_read_from_the_device() {
    let top = BuildRaytracingAccelerationStructureInputs::top_level().num_descs(1);
    let info = device().get_raytracing_acceleration_structure_prebuild_info(&top, |inputs| {
        assert!(
            matches!(
                inputs,
                BuildRaytracingAccelerationStructureInputs::TopLevel(t) if t.num_descs == 1,
            ),
        );
        (4096, 1024, 512)
    });
    assert_eq!(
        info,
        RaytracingAccelerationStructurePrebuildInfo {
            result_data_size_in_bytes: 4096,
            scratch_data_size_in_bytes: 1024,
            update_scratch_data_size_in_bytes: 512,
        }
    );
}

#[test]
fn buffers_sized_by_prebuild_info_are_never_too_small() {
    let top = RaytracingAccelerationStructurePrebuildInfo::new(4096, 1024, 0);
    let bottom = RaytracingAccelerationStructurePrebuildInfo::new(8192, 2048, 0);
    let scratch = top.shared_scratch_size(&bottom);
    assert_eq!(scratch, 2048);
    assert_eq!(bottom.shared_scratch_size(&top), 2048);
    assert!(top.is_satisfied_by(scratch, top.result_data_size_in_bytes));
    assert!(bottom.is_satisfied_by(scratch, bottom.result_data_size_in_bytes));
    assert!(
        !bottom.is_satisfied_by(top.scratch_data_size_in_bytes, bottom.result_data_size_in_bytes),
    );
    assert!(!bottom.is_satisfied_by(scratch, bottom.result_data_size_in_bytes - 1));
    assert!(top.is_satisfied_by(u64::MAX, u64::MAX));
}

#[test]
fn instance_desc_packs_its_bit_fields() {
    let d = RaytracingInstanceDesc::new();
    assert_eq!(d.bitfield1, 0x0100_0000);
    assert_eq!(d.bitfield2, 0);
    let one = Float::one();
    let zero = Float::zero();
    assert_eq!(d.transform, [one, zero, zero, zero, zero, one, zero, zero, zero, zero, one, zero]);
    let d = d.instance_id(0x12_3456).instance_mask(0xab);
    assert_eq!(d.bitfield1, 0xab12_3456);
    let d = d.instance_id(0xffff_ffff);
    assert_eq!(d.bitfield1, 0xabff_ffff);
    let d = d.instance_contribution_to_hit_group_index(0x0100_0007).flags(0x4);
    assert_eq!(d.bitfield2, 0x0400_0007);
    let d = d.flags(-1).accelration_structure(GpuVirtualAddress(0x9000));
    assert_eq!(d.bitfield2, 0xff00_0007);
    assert_eq!(d.acceleration_structure, 0x9000);
    assert_eq!(RaytracingInstanceDesc::default(), RaytracingInstanceDesc::new());
    assert_eq!(d.transform([zero; 12]).transform, [zero; 12]);
}

#[test]
fn build_commands_carry_their_description() {
    let bottom = BuildRaytracingAccelerationStructureInputs::bottom_level().geometry_descs(&[triangle()]);
    let desc = BuildRaytracingAccelerationStructureDesc::new()
        .inputs(&bottom)
        .dest_acceleration_structure_data(GpuVirtualAddress(0x1000))
        .source_acceleration_structure_data(GpuVirtualAddress(0x2000))
        .scratch_acceleration_structure_data(GpuVirtualAddress(0x3000));
    let mut cmds: Commands<dxwr::command_list_type::Direct> =
        Commands { commands: vec![], _t: std::marker::PhantomData };
    cmds.build_raytracing_acceleration_structure(&desc);
    match &cmds.commands[0] {
        Command::BuildRaytracingAccelerationStructure { desc: d } => {
            assert_eq!(d.dest_acceleration_structure_data, 0x1000);
            assert_eq!(d.source_acceleration_structure_data, 0x2000);
            assert_eq!(d.scratch_acceleration_structure_data, 0x3000);
            assert!(matches!(
                d.inputs.as_ref().unwrap(),
                BuildRaytracingAccelerationStructureInputs::BottomLevel(b) if b.geometry_descs == vec![triangle()]
            ));
        }
        _ => unreachable!(),
    }
    assert!(BuildRaytracingAccelerationStructureDesc::new().inputs.is_none());
}
