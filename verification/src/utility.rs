use vstd::arithmetic::power2::{lemma2_to64, pow2};
use vstd::bits::{lemma_u64_low_bits_mask_is_mod, lemma_u64_pow2_no_overflow, low_bits_mask};
use crate::d3d12::D3D12_CONSTANT_BUFFER_DATA_PLACEMENT_ALIGNMENT;
use crate::foundation::{INFINITE, WAIT_OBJECT_0};
use vstd::prelude::*;

verus! {

/// A failed native call, carrying the status code that the call returned.
#[derive(Clone, Copy, PartialEq, Eq, Structural, Debug, Hash)]
pub struct Error {
    pub code: i32,
}

impl Error {
    pub fn new(code: i32) -> (r: Self)
        ensures
            r.code == code,
    {
        Error { code }
    }

    pub fn code(&self) -> (r: i32)
        ensures
            r == self.code,
    {
        self.code
    }
}

/// A 32-bit IEEE 754 number held by its bit pattern.
#[derive(Clone, Copy, PartialEq, Eq, Structural, Debug, Hash)]
pub struct Float {
    pub bits: u32,
}

impl Float {
    /// The bit pattern of `0.0`.
    pub const ZERO_BITS: u32 = 0;

    /// The bit pattern of `1.0`.
    pub const ONE_BITS: u32 = 0x3F80_0000;

    /// The bit pattern of the largest finite value.
    pub const MAX_BITS: u32 = 0x7F7F_FFFF;

    pub fn from_bits(bits: u32) -> (r: Self)
        ensures
            r.bits == bits,
    {
        Float { bits }
    }

    pub fn to_bits(self) -> (r: u32)
        ensures
            r == self.bits,
    {
        self.bits
    }

    pub fn zero() -> (r: Self)
        ensures
            r.bits == Self::ZERO_BITS,
    {
        Float { bits: Self::ZERO_BITS }
    }

    pub fn one() -> (r: Self)
        ensures
            r.bits == Self::ONE_BITS,
    {
        Float { bits: Self::ONE_BITS }
    }

    pub fn max() -> (r: Self)
        ensures
            r.bits == Self::MAX_BITS,
    {
        Float { bits: Self::MAX_BITS }
    }
}

/// The identity of a native object: two wrappers denote the same object
/// exactly when their raw handles are equal.
#[derive(Clone, Copy, PartialEq, Eq, Structural, Debug, Hash)]
pub struct RawHandle {
    pub addr: usize,
}

impl RawHandle {
    pub fn new(addr: usize) -> (r: Self)
        ensures
            r.addr == addr,
    {
        RawHandle { addr }
    }

    pub fn addr(&self) -> (r: usize)
        ensures
            r == self.addr,
    {
        self.addr
    }
}

#[derive(Clone, Copy, PartialEq, Eq, Structural, Debug)]
pub struct Rect {
    pub left: i32,
    pub top: i32,
    pub right: i32,
    pub bottom: i32,
}

impl Rect {
    pub fn new() -> (r: Self)
        ensures
            r == (Rect { left: 0, top: 0, right: 0, bottom: 0 }),
    {
        Rect { left: 0, top: 0, right: 0, bottom: 0 }
    }

    pub fn left(self, v: i32) -> (r: Self)
        ensures
            r == (Rect { left: v, ..self }),
    {
        Rect { left: v, ..self }
    }

    pub fn top(self, v: i32) -> (r: Self)
        ensures
            r == (Rect { top: v, ..self }),
    {
        Rect { top: v, ..self }
    }

    pub fn right(self, v: i32) -> (r: Self)
        ensures
            r == (Rect { right: v, ..self }),
    {
        Rect { right: v, ..self }
    }

    pub fn bottom(self, v: i32) -> (r: Self)
        ensures
            r == (Rect { bottom: v, ..self }),
    {
        Rect { bottom: v, ..self }
    }
}

/// The debug name that a native object was given.
#[derive(Clone, PartialEq, Eq, Debug)]
pub struct Name {
    pub text: String,
}

impl Name {
    pub fn new(name: &str) -> (r: Self)
        ensures
            r.text@ == name@,
    {
        Name { text: name.to_owned() }
    }

    pub fn as_str(&self) -> (r: &str)
        ensures
            r@ == self.text@,
    {
        self.text.as_str()
    }
}

/// The view of an optional debug name: the characters, where there are any.
pub open spec fn name_view(name: Option<Name>) -> Option<Seq<char>> {
    match name {
        Some(n) => Some(n.text@),
        None => None,
    }
}

/// The view of an optional string.
pub open spec fn text_view(text: Option<String>) -> Option<Seq<char>> {
    match text {
        Some(t) => Some(t@),
        None => None,
    }
}

/// Reads an optional debug name.
pub fn name_as_str(name: &Option<Name>) -> (r: Option<&str>)
    ensures
        r.is_some() == name.is_some(),
        r.is_some() ==> r.unwrap()@ == name.unwrap().text@,
{
    match name {
        Some(n) => Some(n.as_str()),
        None => None,
    }
}

/// Turns the name that a builder carries into the debug name of the object built.
pub fn name_from_text(text: &Option<String>) -> (r: Option<Name>)
    ensures
        name_view(r) == text_view(*text),
{
    match text {
        Some(t) => Some(Name::new(t.as_str())),
        None => None,
    }
}

#[derive(Clone, Copy, PartialEq, Eq, Structural, Debug)]
pub struct SampleDesc {
    pub count: u32,
    pub quality: u32,
}

impl SampleDesc {
    pub fn new(count: u32, quality: u32) -> (r: Self)
        ensures
            r == (SampleDesc { count, quality }),
    {
        SampleDesc { count, quality }
    }
}

impl Default for SampleDesc {
    fn default() -> (r: Self)
        ensures
            r == (SampleDesc { count: 1, quality: 0 }),
    {
        SampleDesc::new(1, 0)
    }
}

#[derive(Clone, Copy, PartialEq, Eq, Structural, PartialOrd, Ord, Debug)]
pub struct GpuVirtualAddress(pub u64);

impl GpuVirtualAddress {
    /// Moves the address by `v` bytes, forwards or backwards.
    pub fn offset(self, v: i64) -> (r: Self)
        requires
            0 <= self.0 + v <= u64::MAX,
        ensures
            r.0 == self.0 + v,
    {
        if v < 0 {
            let back: u64 = ((-(v + 1)) as u64) + 1;
            GpuVirtualAddress(self.0 - back)
        } else {
            GpuVirtualAddress(self.0 + (v as u64))
        }
    }
}

impl From<u64> for GpuVirtualAddress {
    fn from(value: u64) -> (r: Self) {
        GpuVirtualAddress(value)
    }
}

impl vstd::std_specs::convert::FromSpecImpl<u64> for GpuVirtualAddress {
    open spec fn obeys_from_spec() -> bool {
        true
    }

    open spec fn from_spec(value: u64) -> Self {
        GpuVirtualAddress(value)
    }
}

impl Default for GpuVirtualAddress {
    fn default() -> (r: Self)
        ensures
            r.0 == 0,
    {
        GpuVirtualAddress(0)
    }
}

#[derive(Clone, Copy, PartialEq, Eq, Structural, Debug)]
pub struct GpuVirtualAddressRange {
    pub start_address: u64,
    pub size_in_bytes: u64,
}

impl GpuVirtualAddressRange {
    pub fn new() -> (r: Self)
        ensures
            r == (GpuVirtualAddressRange { start_address: 0, size_in_bytes: 0 }),
    {
        GpuVirtualAddressRange { start_address: 0, size_in_bytes: 0 }
    }

    pub fn start_address(self, addr: GpuVirtualAddress) -> (r: Self)
        ensures
            r == (GpuVirtualAddressRange { start_address: addr.0, ..self }),
    {
        GpuVirtualAddressRange { start_address: addr.0, ..self }
    }

    pub fn size_in_bytes(self, size: u64) -> (r: Self)
        ensures
            r == (GpuVirtualAddressRange { size_in_bytes: size, ..self }),
    {
        GpuVirtualAddressRange { size_in_bytes: size, ..self }
    }
}

impl Default for GpuVirtualAddressRange {
    fn default() -> (r: Self)
        ensures
            r == (GpuVirtualAddressRange { start_address: 0, size_in_bytes: 0 }),
    {
        GpuVirtualAddressRange::new()
    }
}

#[derive(Clone, Copy, PartialEq, Eq, Structural, Debug)]
pub struct GpuVirtualAddressRangeAndStride {
    pub start_address: u64,
    pub size_in_bytes: u64,
    pub stride_in_bytes: u64,
}

impl GpuVirtualAddressRangeAndStride {
    pub fn new() -> (r: Self)
        ensures
            r == (GpuVirtualAddressRangeAndStride {
                start_address: 0,
                size_in_bytes: 0,
                stride_in_bytes: 0,
            }),
    {
        GpuVirtualAddressRangeAndStride { start_address: 0, size_in_bytes: 0, stride_in_bytes: 0 }
    }

    pub fn start_address(self, addr: GpuVirtualAddress) -> (r: Self)
        ensures
            r == (GpuVirtualAddressRangeAndStride { start_address: addr.0, ..self }),
    {
        GpuVirtualAddressRangeAndStride { start_address: addr.0, ..self }
    }

    pub fn size_in_bytes(self, size: u64) -> (r: Self)
        ensures
            r == (GpuVirtualAddressRangeAndStride { size_in_bytes: size, ..self }),
    {
        GpuVirtualAddressRangeAndStride { size_in_bytes: size, ..self }
    }

    pub fn stride_in_bytes(self, size: u64) -> (r: Self)
        ensures
            r == (GpuVirtualAddressRangeAndStride { stride_in_bytes: size, ..self }),
    {
        GpuVirtualAddressRangeAndStride { stride_in_bytes: size, ..self }
    }
}

impl Default for GpuVirtualAddressRangeAndStride {
    fn default() -> (r: Self)
        ensures
            r == (GpuVirtualAddressRangeAndStride {
                start_address: 0,
                size_in_bytes: 0,
                stride_in_bytes: 0,
            }),
    {
        GpuVirtualAddressRangeAndStride::new()
    }
}

#[derive(Clone, Copy, PartialEq, Eq, Structural, Debug)]
pub struct GpuVirtualAddressAndStride {
    pub start_address: u64,
    pub stride_in_bytes: u64,
}

impl GpuVirtualAddressAndStride {
    pub fn new() -> (r: Self)
        ensures
            r == (GpuVirtualAddressAndStride { start_address: 0, stride_in_bytes: 0 }),
    {
        GpuVirtualAddressAndStride { start_address: 0, stride_in_bytes: 0 }
    }

    pub fn start_address(self, addr: GpuVirtualAddress) -> (r: Self)
        ensures
            r == (GpuVirtualAddressAndStride { start_address: addr.0, ..self }),
    {
        GpuVirtualAddressAndStride { start_address: addr.0, ..self }
    }

    pub fn stride_in_bytes(self, stride: u64) -> (r: Self)
        ensures
            r == (GpuVirtualAddressAndStride { stride_in_bytes: stride, ..self }),
    {
        GpuVirtualAddressAndStride { stride_in_bytes: stride, ..self }
    }
}

impl Default for GpuVirtualAddressAndStride {
    fn default() -> (r: Self)
        ensures
            r == (GpuVirtualAddressAndStride { start_address: 0, stride_in_bytes: 0 }),
    {
        GpuVirtualAddressAndStride::new()
    }
}

/// What a wait on an operating-system handle is given and what it reports.
///
/// The wait itself is done by the caller; this type decides the timeout that
/// the wait is given and reads the code that the wait returned.
#[derive(Clone, Copy, PartialEq, Eq, Structural, Debug)]
pub struct Handle {
    pub raw: RawHandle,
}

impl Handle {
    pub fn new(handle: RawHandle) -> (r: Self)
        ensures
            r.raw == handle,
    {
        Handle { raw: handle }
    }

    /// The timeout of a wait without a limit.
    pub fn wait(&self) -> (timeout: u32)
        ensures
            timeout == INFINITE,
    {
        INFINITE
    }

    /// The timeout, in milliseconds, of a wait that lasts `millis` at most.
    pub fn timeout_millis(millis: u128) -> (timeout: u32)
        requires
            millis <= u32::MAX,
        ensures
            timeout == millis,
    {
        millis as u32
    }

    /// Whether the wait that returned `wait_code` found the object signaled.
    pub fn wait_timeout(&self, wait_code: u32) -> (r: Result<bool, Error>)
        ensures
            r == Ok::<bool, Error>(wait_code == WAIT_OBJECT_0),
    {
        Ok(wait_code == WAIT_OBJECT_0)
    }

    pub fn handle(&self) -> (r: RawHandle)
        ensures
            r == self.raw,
    {
        self.raw
    }
}

/// A private event object that a wait with a timeout is registered on.
#[derive(Clone, Copy, PartialEq, Eq, Structural, Debug)]
pub struct EventHandle {
    pub raw: RawHandle,
}

impl EventHandle {
    /// Takes the outcome of the native call that creates the event.
    pub fn new(created: Result<RawHandle, Error>) -> (r: Result<Self, Error>)
        ensures
            r == match created {
                Ok(raw) => Ok::<EventHandle, Error>(EventHandle { raw }),
                Err(e) => Err::<EventHandle, Error>(e),
            },
    {
        match created {
            Ok(raw) => Ok(EventHandle { raw }),
            Err(e) => Err(e),
        }
    }

    /// Whether the wait that returned `wait_code` found the event signaled.
    pub fn wait_timeout(&self, wait_code: u32) -> (r: Result<bool, Error>)
        ensures
            r == Ok::<bool, Error>(wait_code == WAIT_OBJECT_0),
    {
        Ok(wait_code == WAIT_OBJECT_0)
    }

    pub fn handle(&self) -> (r: RawHandle)
        ensures
            r == self.raw,
    {
        self.raw
    }
}

/// Whether `align` is a power of two.
pub open spec fn is_power_of_two(align: u64) -> bool {
    exists|n: nat| n < 64 && align == #[trigger] pow2(n)
}

/// The smallest multiple of `align` that is not below `size`.
pub open spec fn round_up(size: int, align: int) -> int
    recommends
        align > 0,
{
    ((size + align - 1) / align) * align
}

/// Rounds `size` up to a multiple of `align`, for an `align` that is a power of two.
///
/// For any other `align` the result is the masked sum that the first clause states.
pub fn align_size(size: u64, align: u64) -> (r: u64)
    requires
        align >= 1,
        size + (align - 1) <= u64::MAX,
    ensures
        r == ((size + (align - 1)) as u64) & !((align - 1) as u64),
        is_power_of_two(align) ==> r == round_up(size as int, align as int),
        is_power_of_two(align) ==> r % align == 0 && size <= r < size + align,
{
    let mask: u64 = align - 1;
    let sum: u64 = size + mask;
    let r: u64 = sum & !mask;
    proof {
        if is_power_of_two(align) {
            lemma_mask_rounds_down(sum, align);
            lemma_round_up(size as int, align as int);
        }
    }
    r
}

/// Rounds `size` up to the placement alignment of constant buffer data.
pub fn align_size_for_constant_buffer(size: u64) -> (r: u64)
    requires
        size + 255 <= u64::MAX,
    ensures
        r == round_up(size as int, 256),
        r % 256 == 0,
        size <= r < size + 256,
{
    proof {
        lemma2_to64();
        assert(256 == pow2(8));
    }
    align_size(size, D3D12_CONSTANT_BUFFER_DATA_PLACEMENT_ALIGNMENT as u64)
}

/// Clearing the bits below a power of two rounds down to a multiple of it.
pub proof fn lemma_mask_rounds_down(x: u64, align: u64)
    requires
        is_power_of_two(align),
    ensures
        (x & !((align - 1) as u64)) == x - (x % align),
{
    let n = choose|n: nat| n < 64 && align == #[trigger] pow2(n);
    lemma_u64_pow2_no_overflow(n);
    lemma_u64_low_bits_mask_is_mod(x, n);
    let m: u64 = (align - 1) as u64;
    assert(low_bits_mask(n) == m);
    assert((x & !m) == x - (x & m)) by (bit_vector);
}

/// Rounding down `size + align - 1` gives the smallest multiple of `align` from `size` on.
pub proof fn lemma_round_up(size: int, align: int)
    requires
        size >= 0,
        align > 0,
    ensures
        (size + align - 1) - ((size + align - 1) % align) == round_up(size, align),
        round_up(size, align) % align == 0,
        size <= round_up(size, align) < size + align,
{
    let s = size + align - 1;
    assert(s == (s / align) * align + s % align) by (nonlinear_arith)
        requires
            align > 0,
    ;
    assert(0 <= s % align < align) by (nonlinear_arith)
        requires
            align > 0,
    ;
    assert(((s / align) * align) % align == 0) by (nonlinear_arith)
        requires
            align > 0,
    ;
}

} // verus!
