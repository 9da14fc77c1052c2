use crate::d3d12::D3D12_RESOURCE_STATE_COMMON;
use crate::device::Device;
use crate::resources::{ClearValue, Heap, Resource, ResourceDesc};
use crate::utility::{name_from_text, name_view, text_view, Error, RawHandle};
use vstd::prelude::*;

verus! {

/// Collects what a placed resource is created from. The resource can be built
/// once a heap and a description are set. The heap is not owned by the resource:
/// it has to outlive every resource placed in it.
#[derive(Debug)]
pub struct Builder<H = (), Rd = ()> {
    pub device: RawHandle,
    pub heap: H,
    pub offset: u64,
    pub resource_desc: Rd,
    pub init_state: i32,
    pub clear_value: Option<ClearValue>,
    pub name: Option<String>,
}

impl Builder<()> {
    pub(crate) fn new(device: &Device) -> (r: Self)
        ensures
            r.device == device.raw,
            r.offset == 0,
            r.init_state == D3D12_RESOURCE_STATE_COMMON,
            r.clear_value.is_none(),
            r.name.is_none(),
    {
        Builder {
            device: device.raw,
            heap: (),
            offset: 0,
            resource_desc: (),
            init_state: D3D12_RESOURCE_STATE_COMMON,
            clear_value: None,
            name: None,
        }
    }
}

impl<H, Rd> Builder<H, Rd> {
    /// Chooses the heap, which is kept by its handle.
    pub fn heap(self, heap: &Heap) -> (r: Builder<RawHandle, Rd>)
        ensures
            r.heap == heap.raw,
            r.device == self.device,
            r.offset == self.offset,
            r.resource_desc == self.resource_desc,
            r.init_state == self.init_state,
            r.clear_value == self.clear_value,
            r.name == self.name,
    {
        Builder {
            device: self.device,
            heap: heap.raw,
            offset: self.offset,
            resource_desc: self.resource_desc,
            init_state: self.init_state,
            clear_value: self.clear_value,
            name: self.name,
        }
    }

    pub fn offset(self, offset: u64) -> (r: Self)
        ensures
            r == (Builder { offset, ..self }),
    {
        Builder { offset, ..self }
    }

    pub fn resource_desc(self, resource_desc: &ResourceDesc) -> (r: Builder<H, ResourceDesc>)
        ensures
            r.resource_desc == *resource_desc,
            r.device == self.device,
            r.heap == self.heap,
            r.offset == self.offset,
            r.init_state == self.init_state,
            r.clear_value == self.clear_value,
            r.name == self.name,
    {
        Builder {
            device: self.device,
            heap: self.heap,
            offset: self.offset,
            resource_desc: ResourceDesc { _t: core::marker::PhantomData, ..*resource_desc },
            init_state: self.init_state,
            clear_value: self.clear_value,
            name: self.name,
        }
    }

    pub fn init_state(self, state: i32) -> (r: Self)
        ensures
            r == (Builder { init_state: state, ..self }),
    {
        Builder { init_state: state, ..self }
    }

    pub fn clear_value(self, value: ClearValue) -> (r: Self)
        ensures
            r == (Builder { clear_value: Some(value), ..self }),
    {
        Builder { clear_value: Some(value), ..self }
    }

    pub fn name(self, name: &str) -> (r: Self)
        ensures
            text_view(r.name) == Some(name@),
            r.device == self.device,
            r.heap == self.heap,
            r.offset == self.offset,
            r.resource_desc == self.resource_desc,
            r.init_state == self.init_state,
            r.clear_value == self.clear_value,
    {
        Builder { name: Some(name.to_owned()), ..self }
    }
}

impl Builder<RawHandle, ResourceDesc> {
    /// Takes the outcome of the native call that creates the placed resource,
    /// which was given what this builder holds.
    pub fn build(self, created: Result<RawHandle, Error>) -> (r: Result<Resource, Error>)
        ensures
            match created {
                Ok(raw) => r.is_ok() && r.unwrap().raw == raw && name_view(r.unwrap().name)
                    == text_view(self.name),
                Err(e) => r == Err::<Resource, Error>(e),
            },
    {
        match created {
            Ok(raw) => Ok(Resource { raw, name: name_from_text(&self.name) }),
            Err(e) => Err(e),
        }
    }
}

} // verus!
