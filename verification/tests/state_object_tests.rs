use dxwr::d3d12::{
    D3D12_HIT_GROUP_TYPE_PROCEDURAL_PRIMITIVE, D3D12_HIT_GROUP_TYPE_TRIANGLES,
    D3D12_STATE_OBJECT_TYPE_RAYTRACING_PIPELINE, D3D12_STATE_SUBOBJECT_TYPE_DXIL_LIBRARY,
    D3D12_STATE_SUBOBJECT_TYPE_DXIL_SUBOBJECT_TO_EXPORTS_ASSOCIATION,
    D3D12_STATE_SUBOBJECT_TYPE_EXISTING_COLLECTION,
    D3D12_STATE_SUBOBJECT_TYPE_GLOBAL_ROOT_SIGNATURE,
    D3D12_STATE_SUBOBJECT_TYPE_HIT_GROUP, D3D12_STATE_SUBOBJECT_TYPE_LOCAL_ROOT_SIGNATURE,
    D3D12_STATE_SUBOBJECT_TYPE_NODE_MASK, D3D12_STATE_SUBOBJECT_TYPE_RAYTRACING_PIPELINE_CONFIG1,
    D3D12_STATE_SUBOBJECT_TYPE_RAYTRACING_SHADER_CONFIG,
    D3D12_STATE_SUBOBJECT_TYPE_STATE_OBJECT_CONFIG,
    D3D12_STATE_SUBOBJECT_TYPE_SUBOBJECT_TO_EXPORTS_ASSOCIATION,
};
use dxwr::state_object::{StateSubobject, StateSubobjectEntry, SubobjectRef};
use dxwr::{
    Command, Commands, Device, DxilLibraryDesc, DxilSubobjectToExportsAssociation, Error,
    ExistingCollectionDesc, ExportDesc, GlobalRootSignature, HitGroupDesc, LocalRootSignature,
    NodeMask, RawHandle, RaytracingPipelineConfig, RaytracingShaderConfig, RootSignature,
    RootSignatureDesc, ShaderBytecode, StateObject, StateObjectConfig, StateObjectProperties,
    SubobjectToExportsAssociation,
};

fn device() -> Device {
    Device::new().min_feature_level(dxwr::d3d::D3D_FEATURE_LEVEL_12_1).build(Ok(RawHandle::new(1))).unwrap()
}

fn root_signature(raw: usize) -> RootSignature {
    RootSignature::new(&device())
        .build_from_desc(&RootSignatureDesc::new(), |_| Ok(vec![]), |_, _| Ok(RawHandle::new(raw)))
        .unwrap()
}

#[test]
fn subobjects_know_their_kind() {
    let sig = root_signature(0x10);
    let code = [0u8; 4];
    let existing = StateObject::new(&device(), 0).build(|_| Ok(RawHandle::new(0x20))).unwrap();
    assert_eq!(
        StateObjectConfig::new(1).type_value(),
        D3D12_STATE_SUBOBJECT_TYPE_STATE_OBJECT_CONFIG,
    );
    assert_eq!(
        GlobalRootSignature::new(&sig).type_value(),
        D3D12_STATE_SUBOBJECT_TYPE_GLOBAL_ROOT_SIGNATURE,
    );
    assert_eq!(
        LocalRootSignature::new(&sig).type_value(),
        D3D12_STATE_SUBOBJECT_TYPE_LOCAL_ROOT_SIGNATURE,
    );
    assert_eq!(NodeMask::new(1).type_value(), D3D12_STATE_SUBOBJECT_TYPE_NODE_MASK);
    assert_eq!(
        DxilLibraryDesc::new(ShaderBytecode::new(&code)).type_value(),
        D3D12_STATE_SUBOBJECT_TYPE_DXIL_LIBRARY,
    );
    assert_eq!(
        ExistingCollectionDesc::new(&existing).type_value(),
        D3D12_STATE_SUBOBJECT_TYPE_EXISTING_COLLECTION,
    );
    assert_eq!(
        DxilSubobjectToExportsAssociation::new("x").type_value(),
        D3D12_STATE_SUBOBJECT_TYPE_DXIL_SUBOBJECT_TO_EXPORTS_ASSOCIATION
    );
    assert_eq!(
        RaytracingShaderConfig::new().type_value(),
        D3D12_STATE_SUBOBJECT_TYPE_RAYTRACING_SHADER_CONFIG,
    );
    assert_eq!(
        RaytracingPipelineConfig::new().type_value(),
        D3D12_STATE_SUBOBJECT_TYPE_RAYTRACING_PIPELINE_CONFIG1,
    );
    assert_eq!(HitGroupDesc::new().type_value(), D3D12_STATE_SUBOBJECT_TYPE_HIT_GROUP);
    assert_eq!(GlobalRootSignature::new(&sig).root_signature, RawHandle::new(0x10));
    assert_eq!(ExistingCollectionDesc::new(&existing).existing_collection, RawHandle::new(0x20));
}

#[test]
fn subobjects_are_built_field_by_field() {
    let e = ExportDesc::new().name("ray_gen").export_to_rename(Some("old"));
    assert_eq!(
        (e.name.as_str(), e.export_to_rename.as_deref(), e.flags),
        ("ray_gen", Some("old"), 0),
    );
    assert_eq!(e.duplicate().name, "ray_gen");
    assert_eq!(ExportDesc::new().name("a").export_to_rename(None).export_to_rename, None);
    let code = [1u8, 2];
    let lib = DxilLibraryDesc::new(ShaderBytecode::new(&code)).exports(&[
        e,
        ExportDesc::new().name("miss"),
    ]);
    assert_eq!(lib.exports.len(), 2);
    assert_eq!((lib.exports[0].name.as_str(), lib.exports[1].name.as_str()), ("ray_gen", "miss"));
    assert_eq!(lib.dxil_library.len(), 2);
    let hit = HitGroupDesc::new()
        .hit_group_type(D3D12_HIT_GROUP_TYPE_PROCEDURAL_PRIMITIVE)
        .export("hit_group")
        .any_hit_shader_import("any")
        .closest_hit_shader_import("closest")
        .intersection_shader_import("intersect");
    assert_eq!(hit.ty, D3D12_HIT_GROUP_TYPE_PROCEDURAL_PRIMITIVE);
    assert_eq!(hit.export, "hit_group");
    assert_eq!(hit.any_hit_shader_import.as_deref(), Some("any"));
    assert_eq!(hit.closest_hit_shader_import.as_deref(), Some("closest"));
    assert_eq!(hit.intersection_shader_import.as_deref(), Some("intersect"));
    assert_eq!(HitGroupDesc::new().ty, D3D12_HIT_GROUP_TYPE_TRIANGLES);
    let shader = RaytracingShaderConfig::new().max_payload_size_in_bytes(16).max_attribute_size_in_bytes(8);
    assert_eq!((shader.max_payload_size_in_bytes, shader.max_attribute_size_in_bytes), (16, 8));
    let pipeline = RaytracingPipelineConfig::new().max_trace_recursion_depth(1).flags(256);
    assert_eq!((pipeline.max_trace_recursion_depth, pipeline.flags), (1, 256));
    let dxil = DxilSubobjectToExportsAssociation::new("config").exports(&["a", "b"]);
    assert_eq!(
        (dxil.assoc.as_str(), dxil.exports),
        ("config", vec![String::from("a"), String::from("b")]),
    );
}

#[test]
fn state_object_lists_its_parts_then_its_associations() {
    let sig = root_signature(0x10);
    let local = LocalRootSignature::new(&sig);
    let config = RaytracingShaderConfig::new().max_payload_size_in_bytes(16);
    let hit = HitGroupDesc::new().export("hit_group");
    let builder = StateObject::new(&device(), D3D12_STATE_OBJECT_TYPE_RAYTRACING_PIPELINE)
        .subobject(&hit, 0x1000)
        .subobject(&local, 0x2000)
        .subobject(&config, 0x3000)
        .associate(SubobjectToExportsAssociation::new(0x2000).exports(&["ray_gen"]))
        .associate(
            SubobjectToExportsAssociation::new(0x3000).exports(&["ray_gen", "miss", "hit_group"]),
        )
        .name("pipeline");
    assert_eq!(
        builder.subobjects,
        vec![
            SubobjectRef { ty: D3D12_STATE_SUBOBJECT_TYPE_HIT_GROUP, desc: 0x1000 },
            SubobjectRef { ty: D3D12_STATE_SUBOBJECT_TYPE_LOCAL_ROOT_SIGNATURE, desc: 0x2000 },
            SubobjectRef { ty: D3D12_STATE_SUBOBJECT_TYPE_RAYTRACING_SHADER_CONFIG, desc: 0x3000 },
        ]
    );
    let object = builder
        .build(|desc| {
            assert_eq!(desc.ty, D3D12_STATE_OBJECT_TYPE_RAYTRACING_PIPELINE);
            assert_eq!(desc.subobjects.len(), 5);
            let kinds: Vec<i32> = desc.subobjects.iter().map(|s| s.type_value()).collect();
            assert_eq!(
                kinds,
                vec![
                    D3D12_STATE_SUBOBJECT_TYPE_HIT_GROUP,
                    D3D12_STATE_SUBOBJECT_TYPE_LOCAL_ROOT_SIGNATURE,
                    D3D12_STATE_SUBOBJECT_TYPE_RAYTRACING_SHADER_CONFIG,
                    D3D12_STATE_SUBOBJECT_TYPE_SUBOBJECT_TO_EXPORTS_ASSOCIATION,
                    D3D12_STATE_SUBOBJECT_TYPE_SUBOBJECT_TO_EXPORTS_ASSOCIATION,
                ]
            );
            assert!(
                matches!(desc.subobjects[1], StateSubobjectEntry::Described { desc: 0x2000, .. }),
            );
            match &desc.subobjects[3] {
                StateSubobjectEntry::Association { subobject_index, exports } => {
                    assert_eq!(*subobject_index, 1);
                    assert_eq!(exports, &vec![String::from("ray_gen")]);
                }
                _ => unreachable!(),
            }
            match &desc.subobjects[4] {
                StateSubobjectEntry::Association { subobject_index, exports } => {
                    assert_eq!(*subobject_index, 2);
                    assert_eq!(exports.len(), 3);
                }
                _ => unreachable!(),
            }
            Ok(RawHandle::new(0x99))
        })
        .unwrap();
    assert_eq!((object.handle(), object.name()), (RawHandle::new(0x99), Some("pipeline")));
    let props = StateObjectProperties::new(&object, RawHandle::new(0x9a));
    assert_eq!(props.handle(), RawHandle::new(0x9a));
    let mut cmds: Commands<dxwr::command_list_type::Direct> = Commands { commands: vec![], _t: std::marker::PhantomData };
    cmds.set_pipeline_state(&object);
    assert!(
        matches!(
            &cmds.commands[0],
            Command::SetPipelineState1 { state_object } if state_object.addr() == 0x99,
        ),
    );
}

#[test]
fn association_names_the_first_part_at_its_address() {
    let a = NodeMask::new(1);
    let b = NodeMask::new(2);
    let entries = StateObject::new(&device(), 0)
        .subobject(&a, 0x10)
        .subobject(&b, 0x20)
        .subobject(&a, 0x20)
        .associate(SubobjectToExportsAssociation::new(0x20))
        .layout();
    assert!(
        matches!(
            &entries[3],
            StateSubobjectEntry::Association { subobject_index: 1, exports } if exports.is_empty(),
        ),
    );
}

#[test]
fn state_object_returns_the_error_of_the_creation() {
    let r = StateObject::new(
        &device(),
        0,
    ).build(|desc| { assert!(desc.subobjects.is_empty()); Err(Error::new(-30)) });
    assert_eq!(r.unwrap_err(), Error::new(-30));
}
