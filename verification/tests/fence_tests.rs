use dxwr::d3d12::D3D12_FENCE_FLAG_NONE;
use dxwr::{Device, Error, Fence, RawHandle, Signal};
use std::cell::Cell;

fn device() -> Device {
    Device::new().min_feature_level(dxwr::d3d::D3D_FEATURE_LEVEL_12_1).build(Ok(RawHandle::new(1))).unwrap()
}

fn fence() -> Fence {
    Fence::new(&device()).name("frame").build(Ok(RawHandle::new(0x20))).unwrap()
}

#[test]
fn fence_builder_starts_from_no_flags_and_value_zero() {
    let b = Fence::new(&device());
    assert_eq!(b.flags, D3D12_FENCE_FLAG_NONE);
    assert_eq!(b.initial_value(), 0);
    assert_eq!(b.device, RawHandle::new(1));
    let f = b.flags(1).name("f").build(Ok(RawHandle::new(2))).unwrap();
    assert_eq!(f.handle(), RawHandle::new(2));
    assert_eq!(f.name(), Some("f"));
    assert_eq!(f.issued, 0);
}

#[test]
fn fence_builder_returns_the_error_of_the_creation() {
    let r = Fence::new(&device()).build(Err(Error::new(-7)));
    assert_eq!(r.unwrap_err(), Error::new(-7));
}

#[test]
fn signals_of_one_fence_strictly_increase() {
    let mut f = fence();
    let values: Vec<u64> = (0..100).map(|_| Signal::new(&mut f).value()).collect();
    assert_eq!(values[0], 1);
    for pair in values.windows(2) {
        assert!(pair[0] < pair[1]);
    }
    assert_eq!(values[99], 100);
    assert_eq!(f.issued, 100);
}

#[test]
fn signals_of_one_fence_are_never_equal() {
    let mut f = fence();
    let a = Signal::new(&mut f);
    let b = Signal::new(&mut f);
    assert_ne!(a, b);
    assert_eq!(a.fence(), b.fence());
    assert_eq!(a.fence(), f.handle());
}

#[test]
fn signal_counter_wraps_after_the_last_value() {
    let mut f = fence();
    f.issued = u64::MAX - 1;
    assert_eq!(Signal::new(&mut f).value(), u64::MAX);
    assert_eq!(Signal::new(&mut f).value(), 0);
}

#[test]
fn signal_is_completed_once_the_fence_reaches_its_value() {
    let mut f = fence();
    let s = Signal::new(&mut f);
    let s2 = Signal::new(&mut f);
    assert!(!s.is_completed(0));
    assert!(s.is_completed(1));
    assert!(s.is_completed(2));
    assert!(!s2.is_completed(1));
    assert!(s2.is_completed(2));
}

#[test]
fn wait_makes_no_native_call_when_the_value_is_reached() {
    let mut f = fence();
    let s = Signal::new(&mut f);
    assert_eq!(s.wait(1, |_, _| unreachable!()), Ok(()));
    assert_eq!(s.wait(5, |_, _| unreachable!()), Ok(()));
}

#[test]
fn wait_blocks_on_the_null_event_when_the_value_is_pending() {
    let mut f = fence();
    let s = Signal::new(&mut f);
    let called = Cell::new(false);
    let r = s.wait(0, |value, event| {
        called.set(true);
        assert_eq!(value, 1);
        assert_eq!(event, RawHandle::new(0));
        Ok(())
    });
    assert_eq!(r, Ok(()));
    assert!(called.get());
    assert_eq!(s.wait(0, |_, _| Err(Error::new(-2))), Err(Error::new(-2)));
}

#[test]
fn wait_timeout_answers_true_at_once_when_the_value_is_reached() {
    let mut f = fence();
    let s = Signal::new(&mut f);
    let r = s.wait_timeout(
        u128::MAX,
        1,
        || unreachable!(),
        |_,
        _| unreachable!(),
        |_,
        _| unreachable!(),
    );
    assert_eq!(r, Ok(true));
}

#[test]
fn wait_timeout_waits_on_a_private_event() {
    let mut f = fence();
    let s = Signal::new(&mut f);
    let r = s.wait_timeout(
        16,
        0,
        || Ok(RawHandle::new(0x77)),
        |value, event| {
            assert_eq!((value, event), (1, RawHandle::new(0x77)));
            Ok(())
        },
        |event, millis| {
            assert_eq!((event, millis), (RawHandle::new(0x77), 16));
            dxwr::foundation::WAIT_OBJECT_0
        },
    );
    assert_eq!(r, Ok(true));
    let timed_out = s.wait_timeout(16, 0, || Ok(RawHandle::new(0x77)), |_, _| Ok(()), |_, _| 258);
    assert_eq!(timed_out, Ok(false));
}

#[test]
fn wait_timeout_returns_the_first_error() {
    let mut f = fence();
    let s = Signal::new(&mut f);
    let r = s.wait_timeout(
        1,
        0,
        || Err(Error::new(-1)),
        |_,
        _| unreachable!(),
        |_,
        _| unreachable!(),
    );
    assert_eq!(r, Err(Error::new(-1)));
    let r = s.wait_timeout(
        1,
        0,
        || Ok(RawHandle::new(3)),
        |_,
        _| Err(Error::new(-2)),
        |_,
        _| unreachable!(),
    );
    assert_eq!(r, Err(Error::new(-2)));
}

#[test]
fn fence_signal_sets_the_fence_only_when_it_is_behind() {
    let mut f = fence();
    let s = Signal::new(&mut f);
    assert_eq!(f.signal(&s, 1, |_| unreachable!()), Ok(()));
    let called = Cell::new(0u64);
    assert_eq!(
        f.signal(&s, 0, |v| {
            called.set(v);
            Ok(())
        }),
        Ok(())
    );
    assert_eq!(called.get(), 1);
    assert_eq!(f.signal(&s, 0, |_| Err(Error::new(-9))), Err(Error::new(-9)));
    assert!(f.same(&f));
}
