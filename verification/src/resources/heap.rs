use crate::d3d12::D3D12_HEAP_FLAG_NONE;
use crate::device::Device;
use crate::resources::{Heap, HeapProperties};
use crate::utility::{name_from_text, name_view, text_view, Error, RawHandle};
use vstd::prelude::*;

verus! {

/// Collects what a heap is created from. The heap can be built once its size,
/// its properties and its alignment are set.
#[derive(Debug)]
pub struct Builder<Size = (), HeapProps = (), Align = ()> {
    pub device: RawHandle,
    pub size: Size,
    pub heap_properties: HeapProps,
    pub alignment: Align,
    pub flags: i32,
    pub name: Option<String>,
}

impl Builder<(), (), ()> {
    pub(crate) fn new(device: &Device) -> (r: Self)
        ensures
            r.device == device.raw,
            r.flags == D3D12_HEAP_FLAG_NONE,
            r.name.is_none(),
    {
        Builder {
            device: device.raw,
            size: (),
            heap_properties: (),
            alignment: (),
            flags: D3D12_HEAP_FLAG_NONE,
            name: None,
        }
    }
}

impl<Size, HeapProps, Align> Builder<Size, HeapProps, Align> {
    pub fn size(self, size: u64) -> (r: Builder<u64, HeapProps, Align>)
        ensures
            r.size == size,
            r.device == self.device,
            r.heap_properties == self.heap_properties,
            r.alignment == self.alignment,
            r.flags == self.flags,
            r.name == self.name,
    {
        Builder {
            device: self.device,
            size,
            heap_properties: self.heap_properties,
            alignment: self.alignment,
            flags: self.flags,
            name: self.name,
        }
    }

    pub fn heap_properties(self, heap_properties: &HeapProperties) -> (r: Builder<
        Size,
        HeapProperties,
        Align,
    >)
        ensures
            r.heap_properties == *heap_properties,
            r.device == self.device,
            r.size == self.size,
            r.alignment == self.alignment,
            r.flags == self.flags,
            r.name == self.name,
    {
        Builder {
            device: self.device,
            size: self.size,
            heap_properties: *heap_properties,
            alignment: self.alignment,
            flags: self.flags,
            name: self.name,
        }
    }

    pub fn alignment(self, alignment: u64) -> (r: Builder<Size, HeapProps, u64>)
        ensures
            r.alignment == alignment,
            r.device == self.device,
            r.size == self.size,
            r.heap_properties == self.heap_properties,
            r.flags == self.flags,
            r.name == self.name,
    {
        Builder {
            device: self.device,
            size: self.size,
            heap_properties: self.heap_properties,
            alignment,
            flags: self.flags,
            name: self.name,
        }
    }

    pub fn flags(self, flags: i32) -> (r: Self)
        ensures
            r == (Builder { flags, ..self }),
    {
        Builder { flags, ..self }
    }

    pub fn name(self, name: &str) -> (r: Self)
        ensures
            text_view(r.name) == Some(name@),
            r.device == self.device,
            r.size == self.size,
            r.heap_properties == self.heap_properties,
            r.alignment == self.alignment,
            r.flags == self.flags,
    {
        Builder { name: Some(name.to_owned()), ..self }
    }
}

/// What the native call that creates a heap is handed.
#[derive(Clone, Copy, PartialEq, Eq, Structural, Debug)]
pub struct HeapDesc {
    pub size_in_bytes: u64,
    pub properties: HeapProperties,
    pub alignment: u64,
    pub flags: i32,
}

impl Builder<u64, HeapProperties, u64> {
    /// The description that the native call is handed.
    pub fn desc(&self) -> (r: HeapDesc)
        ensures
            r == (HeapDesc {
                size_in_bytes: self.size,
                properties: self.heap_properties,
                alignment: self.alignment,
                flags: self.flags,
            }),
    {
        HeapDesc {
            size_in_bytes: self.size,
            properties: self.heap_properties,
            alignment: self.alignment,
            flags: self.flags,
        }
    }

    /// Takes the outcome of the native call that creates the heap, which was
    /// given `desc()`.
    pub fn build(self, created: Result<RawHandle, Error>) -> (r: Result<Heap, Error>)
        ensures
            match created {
                Ok(raw) => r.is_ok() && r.unwrap().raw == raw && name_view(r.unwrap().name)
                    == text_view(self.name),
                Err(e) => r == Err::<Heap, Error>(e),
            },
    {
        match created {
            Ok(raw) => Ok(Heap { raw, name: name_from_text(&self.name) }),
            Err(e) => Err(e),
        }
    }
}

} // verus!
