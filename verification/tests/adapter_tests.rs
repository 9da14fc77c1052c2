use dxwr::adapter::{text_len, AdapterDesc, Luid};
use dxwr::dxgi::DXGI_ERROR_NOT_FOUND;
use dxwr::{enum_adapters, enum_warp_adapter, Adapter, AdapterId, AdapterMemoryInfo, Device, Error, RawHandle};
use std::cell::Cell;

fn desc(name: &str, device_id: u32) -> AdapterDesc {
    let mut description = [0u16; 128];
    for (i, unit) in name.encode_utf16().enumerate() {
        description[i] = unit;
    }
    AdapterDesc {
        description,
        vendor_id: 0x10de,
        device_id,
        sub_sys_id: 3,
        revision: 4,
        dedicated_video_memory: 8 << 30,
        dedicated_system_memory: 1,
        shared_system_memory: 16 << 30,
        adapter_luid: Luid { low_part: 7, high_part: -1 },
        flags: 2,
        graphics_preemption_granularity: 3,
        compute_preemption_granularity: 4,
    }
}

#[test]
fn adapter_reads_its_description() {
    let a = Adapter { raw: RawHandle::new(0x10), desc: desc("GPU \u{1f600} adapter", 9) };
    assert_eq!(a.description(), "GPU \u{1f600} adapter");
    assert_eq!(a.id(), AdapterId { vendor_id: 0x10de, device_id: 9, sub_sys_id: 3, revision: 4 });
    assert_eq!(
        a.memory_info(),
        AdapterMemoryInfo { dedicate_video_memory: 8 << 30, dedicate_system_memory: 1, shared_system_memory: 16 << 30 }
    );
    assert_eq!(a.luid(), Luid { low_part: 7, high_part: -1 });
    assert_eq!(
        (a.flags(), a.graphics_preemption_granularity(), a.compute_preemption_granularity()),
        (2, 3, 4),
    );
    assert_eq!(a.handle(), RawHandle::new(0x10));
}

#[test]
fn description_ends_at_the_first_zero_or_at_the_end() {
    let mut d = desc("", 0);
    assert_eq!(Adapter { raw: RawHandle::new(1), desc: d }.description(), "");
    d.description = [b'x' as u16; 128];
    assert_eq!(Adapter { raw: RawHandle::new(1), desc: d }.description(), "x".repeat(128));
    d.description[3] = 0;
    assert_eq!(Adapter { raw: RawHandle::new(1), desc: d }.description(), "xxx");
    d.description[0] = 0xd800;
    assert_eq!(Adapter { raw: RawHandle::new(1), desc: d }.description(), "\u{fffd}xx");
    assert_eq!(text_len(&[1, 2, 0, 3, 0]), 2);
    assert_eq!(text_len(&[1, 2]), 2);
    assert_eq!(text_len(&[]), 0);
}

#[test]
fn enum_adapters_ends_at_the_first_index_without_an_adapter() {
    let asked = Cell::new(0u32);
    let adapters = enum_adapters(
        |index| {
            assert_eq!(index, asked.get());
            asked.set(index + 1);
            if index < 3 { Ok(RawHandle::new(0x100 + index as usize)) } else { Err(Error::new(DXGI_ERROR_NOT_FOUND)) }
        },
        |raw| Ok(desc("a", raw.addr() as u32)),
    )
    .unwrap();
    assert_eq!(asked.get(), 4);
    assert_eq!(adapters.len(), 3);
    assert_eq!(adapters[2].handle(), RawHandle::new(0x102));
    assert_eq!(adapters[1].id().device_id, 0x101);
    assert!(
        enum_adapters(
            |_| Err(Error::new(DXGI_ERROR_NOT_FOUND)),
            |_| unreachable!(),
        ).unwrap().is_empty(),
    );
    assert_eq!(DXGI_ERROR_NOT_FOUND as u32, 0x887a_0002);
}

#[test]
fn enum_adapters_returns_any_other_error() {
    let r = enum_adapters(
        |index| if index == 0 { Ok(RawHandle::new(1)) } else { Err(Error::new(-1)) },
        |_| Ok(desc("a", 0)),
    );
    assert_eq!(r.unwrap_err(), Error::new(-1));
    let r = enum_adapters(|_| Ok(RawHandle::new(1)), |_| Err(Error::new(-2)));
    assert_eq!(r.unwrap_err(), Error::new(-2));
}

#[test]
fn warp_adapter_is_read_with_its_description() {
    let a = enum_warp_adapter(
        || Ok(RawHandle::new(0x20)),
        |raw| { assert_eq!(raw, RawHandle::new(0x20)); Ok(desc("warp", 1)) },
    ).unwrap();
    assert_eq!(a.description(), "warp");
    assert_eq!(enum_warp_adapter(|| Err(Error::new(-1)), |_| unreachable!()), Err(Error::new(-1)));
    assert_eq!(
        enum_warp_adapter(|| Ok(RawHandle::new(1)), |_| Err(Error::new(-2))),
        Err(Error::new(-2)),
    );
}

#[test]
fn device_is_built_on_an_adapter() {
    let a = Adapter { raw: RawHandle::new(0x10), desc: desc("gpu", 0) };
    let b = Device::new().adapter(&a).min_feature_level(dxwr::d3d::D3D_FEATURE_LEVEL_12_0).name("device");
    assert_eq!((b.adapter, b.min_feature_level), (Some(RawHandle::new(0x10)), 0xc000));
    let mut d = b.build(Ok(RawHandle::new(0x30))).unwrap();
    assert_eq!((d.handle(), d.name()), (RawHandle::new(0x30), Some("device")));
    d.set_name("renamed");
    assert_eq!(d.name(), Some("renamed"));
    assert!(d.same(&d));
    assert_eq!(d.get_adapter_luid(a.luid()), a.luid());
    assert_eq!(d.get_resource_allocation_info(4096, 65536).alignment, 65536);
    let q = d.get_copyable_footprints(
        1,
        2,
        64,
        Some(&vec![Default::default(); 2]),
        true,
        false,
        true,
    );
    assert_eq!((q.first_subresource, q.num_subresource, q.base_offset), (1, 2, 64));
    assert_eq!(
        (q.wants_layouts, q.wants_num_rows, q.wants_row_size_in_bytes, q.wants_total_size),
        (true, true, false, true),
    );
    assert!(!d.get_copyable_footprints(0, 9, 0, None, false, false, false).wants_layouts);
    let failed = Device::new().min_feature_level(0xc100).build(Err(Error::new(-3)));
    assert_eq!(failed.unwrap_err(), Error::new(-3));
}
