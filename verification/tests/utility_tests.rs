use dxwr::utility::{
    align_size, align_size_for_constant_buffer, name_as_str, name_from_text, Error, EventHandle,
    Float, GpuVirtualAddress, GpuVirtualAddressAndStride, GpuVirtualAddressRange,
    GpuVirtualAddressRangeAndStride, Handle, Name, RawHandle, Rect, SampleDesc,
};

#[test]
fn align_size_test() {
    assert!(align_size(1, 256) == 256);
    assert!(align_size(256, 256) == 256);
    assert!(align_size(257, 256) == 256 * 2);
    assert!(align_size(256 * 2 + 1, 256) == 256 * 3);
}

#[test]
fn align_size_of_zero_and_of_one() {
    assert_eq!(align_size(0, 256), 0);
    assert_eq!(align_size(17, 1), 17);
    assert_eq!(align_size(u64::MAX - 255, 256), u64::MAX - 255);
}

#[test]
fn align_size_with_an_alignment_that_is_no_power_of_two_masks_the_sum() {
    assert_eq!(align_size(10, 6), (10 + 5) & !5);
}

#[test]
fn align_size_for_constant_buffer_rounds_up() {
    assert_eq!(align_size_for_constant_buffer(0), 0);
    assert_eq!(align_size_for_constant_buffer(1), 256);
    assert_eq!(align_size_for_constant_buffer(300), 512);
}

#[test]
fn gpu_virtual_address_offset_moves_both_ways() {
    assert_eq!(GpuVirtualAddress(100).offset(28), GpuVirtualAddress(128));
    assert_eq!(GpuVirtualAddress(100).offset(-100), GpuVirtualAddress(0));
    assert_eq!(GpuVirtualAddress(0).offset(0), GpuVirtualAddress(0));
    assert_eq!(GpuVirtualAddress(1 << 63).offset(i64::MIN), GpuVirtualAddress(0));
    assert_eq!(GpuVirtualAddress(0).offset(i64::MAX), GpuVirtualAddress(i64::MAX as u64));
    assert_eq!(GpuVirtualAddress::from(7), GpuVirtualAddress(7));
    assert_eq!(GpuVirtualAddress::default(), GpuVirtualAddress(0));
    assert!(GpuVirtualAddress(1) < GpuVirtualAddress(2));
}

#[test]
fn rect_is_built_field_by_field() {
    let r = Rect::new().left(1).top(2).right(3).bottom(4);
    assert_eq!(r, Rect { left: 1, top: 2, right: 3, bottom: 4 });
    assert_eq!(Rect::new(), Rect { left: 0, top: 0, right: 0, bottom: 0 });
}

#[test]
fn sample_desc_defaults_to_one_sample() {
    assert_eq!(SampleDesc::default(), SampleDesc { count: 1, quality: 0 });
    assert_eq!(SampleDesc::new(4, 2), SampleDesc { count: 4, quality: 2 });
}

#[test]
fn address_ranges_are_built_field_by_field() {
    let r = GpuVirtualAddressRange::new().start_address(GpuVirtualAddress(16)).size_in_bytes(32);
    assert_eq!(r, GpuVirtualAddressRange { start_address: 16, size_in_bytes: 32 });
    let s = GpuVirtualAddressRangeAndStride::new()
        .start_address(GpuVirtualAddress(16))
        .size_in_bytes(64)
        .stride_in_bytes(32);
    assert_eq!(
        s,
        GpuVirtualAddressRangeAndStride { start_address: 16, size_in_bytes: 64, stride_in_bytes: 32 }
    );
    let a = GpuVirtualAddressAndStride::new().start_address(GpuVirtualAddress(8)).stride_in_bytes(12);
    assert_eq!(a, GpuVirtualAddressAndStride { start_address: 8, stride_in_bytes: 12 });
    assert_eq!(GpuVirtualAddressRange::default(), GpuVirtualAddressRange::new());
}

#[test]
fn floats_are_held_by_their_bits() {
    assert_eq!(Float::from_bits(0.3f32.to_bits()).to_bits(), 0.3f32.to_bits());
    assert_eq!(f32::from_bits(Float::one().bits), 1.0);
    assert_eq!(f32::from_bits(Float::zero().bits), 0.0);
    assert_eq!(f32::from_bits(Float::max().bits), f32::MAX);
}

#[test]
fn names_keep_their_text() {
    let name = Name::new("queue");
    assert_eq!(name.as_str(), "queue");
    assert_eq!(name_as_str(&Some(name)), Some("queue"));
    assert_eq!(name_as_str(&None), None);
    assert_eq!(name_from_text(&Some(String::from("x"))), Some(Name::new("x")));
    assert_eq!(name_from_text(&None), None);
}

#[test]
fn handles_read_wait_codes() {
    let h = Handle::new(RawHandle::new(5));
    assert_eq!(h.handle(), RawHandle::new(5));
    assert_eq!(h.wait(), dxwr::foundation::INFINITE);
    assert_eq!(Handle::timeout_millis(16), 16);
    assert_eq!(Handle::timeout_millis(u32::MAX as u128), u32::MAX);
    assert_eq!(h.wait_timeout(dxwr::foundation::WAIT_OBJECT_0), Ok(true));
    assert_eq!(h.wait_timeout(258), Ok(false));
    let e = EventHandle::new(Ok(RawHandle::new(9))).unwrap();
    assert_eq!(e.handle().addr(), 9);
    assert_eq!(e.wait_timeout(0), Ok(true));
    assert_eq!(e.wait_timeout(258), Ok(false));
    assert_eq!(EventHandle::new(Err(Error::new(-3))), Err(Error::new(-3)));
    assert_eq!(Error::new(-3).code(), -3);
}
