use dxwr::d3d::{D3D_FEATURE_LEVEL_12_0, D3D_FEATURE_LEVEL_12_1};
use dxwr::d3d12::{
    D3D12_COMMAND_LIST_TYPE_DIRECT, D3D12_FEATURE_ARCHITECTURE1, D3D12_FEATURE_D3D12_OPTIONS,
    D3D12_FEATURE_SHADER_MODEL, D3D_SHADER_MODEL_6_7,
};
use dxwr::dxgi::{DXGI_FORMAT_R32_FLOAT, DXGI_FORMAT_R8G8B8A8_UNORM};
use dxwr::features::{
    Architecture, ArchitectureData, CommandQueuePriority, CrossNode, D3D12Options, D3D12Options1,
    D3D12Options10, D3D12Options11, D3D12Options12, D3D12Options13, D3D12Options2, D3D12Options3,
    D3D12Options4, D3D12Options5, D3D12Options6, D3D12Options7, D3D12Options8, D3D12Options9,
    D3D12OptionsData, Displayable, ExistingHeaps, Feature, FeatureLevels, FormatInfo,
    FormatSupport, GpuVirtualAddressSupport, MultisampleQualityLevels,
    ProtectedResourceSessionSupport, ProtectedResourceSessionTypes, RequestFeature, RootSignature,
    Serialization, ShaderCache, ShaderModel, ShaderModelData,
};
use dxwr::{Device, Error, RawHandle};

// A device of the library over a stand-in for the native layer.
fn create_device() -> Device {
    let adapter = stand_in_adapter();
    Device::new()
        .adapter(&adapter)
        .min_feature_level(dxwr::d3d::D3D_FEATURE_LEVEL_12_1)
        .build(Ok(RawHandle::new(0x1000)))
        .unwrap()
}

fn stand_in_adapter() -> dxwr::Adapter {
    dxwr::enum_warp_adapter(
        || Ok(RawHandle::new(0x10)),
        |_| {
            Ok(dxwr::adapter::AdapterDesc {
                description: [0; 128],
                vendor_id: 0x1414,
                device_id: 0x8c,
                sub_sys_id: 0,
                revision: 0,
                dedicated_video_memory: 0,
                dedicated_system_memory: 0,
                shared_system_memory: 0,
                adapter_luid: dxwr::adapter::Luid { low_part: 1, high_part: 0 },
                flags: 0,
                graphics_preemption_granularity: 0,
                compute_preemption_granularity: 0,
            })
        },
    )
    .unwrap()
}

fn supported_level(_device: &Device) -> Result<i32, Error> {
    Ok(D3D_FEATURE_LEVEL_12_1)
}

#[test]
fn d3d12_options() {
    let device = create_device();
    device.check_feature::<D3D12Options, _>(|_, data| Ok(data)).unwrap();
}

#[test]
fn architecture() {
    let device = create_device();
    device.request_feature(Architecture::new(0), |_, data| Ok(data)).unwrap();
}

#[test]
fn feature_levels() {
    let device = create_device();
    let request = FeatureLevels::new(&[D3D_FEATURE_LEVEL_12_0, D3D_FEATURE_LEVEL_12_1]);
    let answer = request.check(supported_level(&device)).unwrap();
    assert_eq!(
        answer.feature_levels_requested,
        vec![D3D_FEATURE_LEVEL_12_0, D3D_FEATURE_LEVEL_12_1],
    );
    assert_eq!(answer.max_supported_feature_level, D3D_FEATURE_LEVEL_12_1);
}

#[test]
fn format_support() {
    let device = create_device();
    device.request_feature(FormatSupport::new(DXGI_FORMAT_R32_FLOAT), |_, data| Ok(data)).unwrap();
}

#[test]
fn multisample_quality_levels() {
    let device = create_device();
    device.request_feature(
        MultisampleQualityLevels::new(DXGI_FORMAT_R8G8B8A8_UNORM, 1),
        |_,
        data| Ok(data),
    ).unwrap();
}

#[test]
fn format_info() {
    let device = create_device();
    device.request_feature(
        FormatInfo::new(DXGI_FORMAT_R8G8B8A8_UNORM),
        |_,
        data| Ok(data),
    ).unwrap();
}

#[test]
fn gpu_virtual_address_support() {
    let device = create_device();
    device.check_feature::<GpuVirtualAddressSupport, _>(|_, data| Ok(data)).unwrap();
}

#[test]
fn shader_model() {
    let device = create_device();
    device.check_feature::<ShaderModel, _>(|_, data| Ok(data)).unwrap();
}

#[test]
fn d3d12_options1() {
    let device = create_device();
    device.check_feature::<D3D12Options1, _>(|_, data| Ok(data)).unwrap();
}

#[test]
fn protected_resource_session_support() {
    let device = create_device();
    device.request_feature(ProtectedResourceSessionSupport::new(0), |_, data| Ok(data)).unwrap();
}

#[test]
fn root_signature() {
    let device = create_device();
    device.check_feature::<RootSignature, _>(|_, data| Ok(data)).unwrap();
}

#[test]
fn d3d12_options2() {
    let device = create_device();
    device.check_feature::<D3D12Options2, _>(|_, data| Ok(data)).unwrap();
}

#[test]
fn shader_cache() {
    let device = create_device();
    device.check_feature::<ShaderCache, _>(|_, data| Ok(data)).unwrap();
}

#[test]
fn command_queue_priority() {
    let device = create_device();
    device.request_feature(
        CommandQueuePriority::new(D3D12_COMMAND_LIST_TYPE_DIRECT, 0),
        |_,
        data| Ok(data),
    ).unwrap();
}

#[test]
fn d3d12_options3() {
    let device = create_device();
    device.check_feature::<D3D12Options3, _>(|_, data| Ok(data)).unwrap();
}

#[test]
fn existing_heaps() {
    let device = create_device();
    device.check_feature::<ExistingHeaps, _>(|_, data| Ok(data)).unwrap();
}

#[test]
fn d3d12_options4() {
    let device = create_device();
    device.check_feature::<D3D12Options4, _>(|_, data| Ok(data)).unwrap();
}

#[test]
fn serialization() {
    let device = create_device();
    device.request_feature(Serialization::new(0), |_, data| Ok(data)).unwrap();
}

#[test]
fn cross_node() {
    let device = create_device();
    device.check_feature::<CrossNode, _>(|_, data| Ok(data)).unwrap();
}

#[test]
fn d3d12_options5() {
    let device = create_device();
    device.check_feature::<D3D12Options5, _>(|_, data| Ok(data)).unwrap();
}

#[test]
fn displayable() {
    let device = create_device();
    device.check_feature::<Displayable, _>(|_, data| Ok(data)).unwrap();
}

#[test]
fn d3d12_options6() {
    let device = create_device();
    device.check_feature::<D3D12Options6, _>(|_, data| Ok(data)).unwrap();
}

#[test]
fn d3d12_options7() {
    let device = create_device();
    device.check_feature::<D3D12Options7, _>(|_, data| Ok(data)).unwrap();
}

#[test]
fn protected_resource_session_types() {
    let device = create_device();
    let answer = ProtectedResourceSessionTypes::new(0)
        .check(|data| Ok(data), |_, count| Ok(Vec::with_capacity(count as usize)))
        .unwrap();
    assert_eq!(answer.node_index, 0);
    assert!(answer.types.is_empty());
    assert_eq!(device.handle(), RawHandle::new(0x1000));
}

#[test]
fn d3d12_options8() {
    let device = create_device();
    device.check_feature::<D3D12Options8, _>(|_, data| Ok(data)).unwrap();
}

#[test]
fn d3d12_options9() {
    let device = create_device();
    device.check_feature::<D3D12Options9, _>(|_, data| Ok(data)).unwrap();
}

#[test]
fn d3d12_options10() {
    let device = create_device();
    device.check_feature::<D3D12Options10, _>(|_, data| Ok(data)).unwrap();
}

#[test]
fn d3d12_options11() {
    let device = create_device();
    device.check_feature::<D3D12Options11, _>(|_, data| Ok(data)).unwrap();
}

#[test]
fn d3d12_options12() {
    let device = create_device();
    device.check_feature::<D3D12Options12, _>(|_, data| Ok(data)).unwrap();
}

#[test]
fn d3d12_options13() {
    let device = create_device();
    device.check_feature::<D3D12Options13, _>(|_, data| Ok(data)).unwrap();
}

#[test]
fn check_feature_hands_the_identifier_and_reads_truth_values() {
    let device = create_device();
    let answer = device
        .check_feature::<D3D12Options, _>(|feature, data: D3D12OptionsData| {
            assert_eq!(feature, D3D12_FEATURE_D3D12_OPTIONS);
            assert_eq!(data.rovs_supported, 0);
            Ok(D3D12OptionsData {
                double_precision_float_shader_ops: 1,
                rovs_supported: 7,
                resource_binding_tier: 3,
                max_gpu_virtual_address_bits_per_resource: 40,
                ..data
            })
        })
        .unwrap();
    assert!(answer.double_precision_float_shader_ops);
    assert!(answer.rovs_supported);
    assert!(!answer.output_merger_logic_op);
    assert_eq!(answer.resource_binding_tier, 3);
    assert_eq!(answer.max_gpu_virtual_address_bits_per_resource, 40);
}

#[test]
fn check_feature_returns_the_error_of_the_query() {
    let device = create_device();
    let r = device.check_feature::<D3D12Options, _>(|_, _| Err(Error::new(-5)));
    assert_eq!(r, Err(Error::new(-5)));
}

#[test]
fn shader_model_asks_for_the_highest_model() {
    assert_eq!(ShaderModel::FEATURE, D3D12_FEATURE_SHADER_MODEL);
    assert_eq!(
        ShaderModel::query(),
        ShaderModelData { highest_shader_model: D3D_SHADER_MODEL_6_7 },
    );
}

#[test]
fn request_feature_hands_in_the_input() {
    let device = create_device();
    let answer = device
        .request_feature(Architecture::new(2), |feature, data: ArchitectureData| {
            assert_eq!(feature, D3D12_FEATURE_ARCHITECTURE1);
            assert_eq!(data.node_index, 2);
            Ok(ArchitectureData { uma: 1, ..data })
        })
        .unwrap();
    assert_eq!(answer.node_index, 2);
    assert!(answer.uma);
    assert!(!answer.tile_based_renderer);
}

#[test]
fn protected_resource_session_types_asks_twice() {
    let guid = dxwr::features::Guid { data1: 1, data2: 2, data3: 3, data4: [4; 8] };
    let answer = ProtectedResourceSessionTypes::new(3)
        .check(
            |data| {
                assert_eq!(data.node_index, 3);
                Ok(dxwr::features::ProtectedResourceSessionTypeCountData { count: 2, ..data })
            },
            |node, count| {
                assert_eq!((node, count), (3, 2));
                Ok(vec![guid, guid])
            },
        )
        .unwrap();
    assert_eq!(answer.node_index, 3);
    assert_eq!(answer.types, vec![guid, guid]);
    let failed = ProtectedResourceSessionTypes::new(3)
        .check(|_| Err(Error::new(-1)), |_, _| unreachable!());
    assert_eq!(failed.unwrap_err(), Error::new(-1));
}
