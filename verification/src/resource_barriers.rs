use crate::d3d12::{
    D3D12_RESOURCE_BARRIER_FLAG_NONE, D3D12_RESOURCE_BARRIER_TYPE_ALIASING,
    D3D12_RESOURCE_BARRIER_TYPE_TRANSITION, D3D12_RESOURCE_BARRIER_TYPE_UAV,
    D3D12_RESOURCE_STATE_COMMON,
};
use crate::resources::Resource;
use crate::utility::RawHandle;
use vstd::prelude::*;

verus! {

/// A barrier in a command stream.
#[derive(Clone, Copy, PartialEq, Eq, Structural, Debug)]
pub enum Barrier {
    /// A subresource passes from one state to another.
    Transition {
        resource: Option<RawHandle>,
        subresource: u32,
        state_before: i32,
        state_after: i32,
        flags: i32,
    },
    /// One resource takes the place of another in the same memory.
    Aliasing { resource_before: Option<RawHandle>, resource_after: Option<RawHandle>, flags: i32 },
    /// All unordered accesses to a resource end before the next begin.
    Uav { resource: Option<RawHandle>, flags: i32 },
}

impl Barrier {
    /// The value by which the native layer knows the kind of the barrier.
    pub fn type_value(&self) -> (r: i32)
        ensures
            r == match *self {
                Barrier::Transition { .. } => D3D12_RESOURCE_BARRIER_TYPE_TRANSITION,
                Barrier::Aliasing { .. } => D3D12_RESOURCE_BARRIER_TYPE_ALIASING,
                Barrier::Uav { .. } => D3D12_RESOURCE_BARRIER_TYPE_UAV,
            },
    {
        match *self {
            Barrier::Transition { .. } => D3D12_RESOURCE_BARRIER_TYPE_TRANSITION,
            Barrier::Aliasing { .. } => D3D12_RESOURCE_BARRIER_TYPE_ALIASING,
            Barrier::Uav { .. } => D3D12_RESOURCE_BARRIER_TYPE_UAV,
        }
    }
}

/// What can be recorded as a barrier.
pub trait ResourceBarrier {
    /// The barrier that the value stands for.
    spec fn barrier(&self) -> Barrier;

    fn as_raw(&self) -> (r: Barrier)
        ensures
            r == self.barrier(),
    ;
}

#[derive(Clone, Copy, PartialEq, Eq, Structural, Debug)]
pub struct TransitionBarrier {
    pub resource: Option<RawHandle>,
    pub subresource: u32,
    pub state_before: i32,
    pub state_after: i32,
    pub flags: i32,
}

impl TransitionBarrier {
    pub fn new() -> (r: Self)
        ensures
            r.resource == None::<RawHandle>,
            r.subresource == 0,
            r.state_before == D3D12_RESOURCE_STATE_COMMON,
            r.state_after == D3D12_RESOURCE_STATE_COMMON,
            r.flags == D3D12_RESOURCE_BARRIER_FLAG_NONE,
    {
        TransitionBarrier {
            resource: None::<RawHandle>,
            subresource: 0,
            state_before: D3D12_RESOURCE_STATE_COMMON,
            state_after: D3D12_RESOURCE_STATE_COMMON,
            flags: D3D12_RESOURCE_BARRIER_FLAG_NONE,
        }
    }
    pub fn resource(self, resource: &Resource) -> (r: Self)
        ensures
            r == (TransitionBarrier { resource: Some(resource.raw), ..self }),
    {
        TransitionBarrier { resource: Some(resource.raw), ..self }
    }
    pub fn subresource(self, subresource: u32) -> (r: Self)
        ensures
            r == (TransitionBarrier { subresource, ..self }),
    {
        TransitionBarrier { subresource, ..self }
    }
    pub fn state_before(self, state: i32) -> (r: Self)
        ensures
            r == (TransitionBarrier { state_before: state, ..self }),
    {
        TransitionBarrier { state_before: state, ..self }
    }
    pub fn state_after(self, state: i32) -> (r: Self)
        ensures
            r == (TransitionBarrier { state_after: state, ..self }),
    {
        TransitionBarrier { state_after: state, ..self }
    }
    pub fn flags(self, flags: i32) -> (r: Self)
        ensures
            r == (TransitionBarrier { flags, ..self }),
    {
        TransitionBarrier { flags, ..self }
    }
}

impl ResourceBarrier for TransitionBarrier {
    open spec fn barrier(&self) -> Barrier {
        Barrier::Transition {
            resource: self.resource,
            subresource: self.subresource,
            state_before: self.state_before,
            state_after: self.state_after,
            flags: self.flags,
        }
    }

    fn as_raw(&self) -> (r: Barrier) {
        Barrier::Transition {
            resource: self.resource,
            subresource: self.subresource,
            state_before: self.state_before,
            state_after: self.state_after,
            flags: self.flags,
        }
    }
}

#[derive(Clone, Copy, PartialEq, Eq, Structural, Debug)]
pub struct AliasingBarrier {
    pub resource_before: Option<RawHandle>,
    pub resource_after: Option<RawHandle>,
    pub flags: i32,
}

impl AliasingBarrier {
    pub fn new() -> (r: Self)
        ensures
            r.resource_before == None::<RawHandle>,
            r.resource_after == None::<RawHandle>,
            r.flags == D3D12_RESOURCE_BARRIER_FLAG_NONE,
    {
        AliasingBarrier {
            resource_before: None::<RawHandle>,
            resource_after: None::<RawHandle>,
            flags: D3D12_RESOURCE_BARRIER_FLAG_NONE,
        }
    }
    pub fn resource_before(self, resource: &Resource) -> (r: Self)
        ensures
            r == (AliasingBarrier { resource_before: Some(resource.raw), ..self }),
    {
        AliasingBarrier { resource_before: Some(resource.raw), ..self }
    }
    pub fn resource_after(self, resource: &Resource) -> (r: Self)
        ensures
            r == (AliasingBarrier { resource_after: Some(resource.raw), ..self }),
    {
        AliasingBarrier { resource_after: Some(resource.raw), ..self }
    }
    pub fn flags(self, flags: i32) -> (r: Self)
        ensures
            r == (AliasingBarrier { flags, ..self }),
    {
        AliasingBarrier { flags, ..self }
    }
}

impl ResourceBarrier for AliasingBarrier {
    open spec fn barrier(&self) -> Barrier {
        Barrier::Aliasing {
            resource_before: self.resource_before,
            resource_after: self.resource_after,
            flags: self.flags,
        }
    }

    fn as_raw(&self) -> (r: Barrier) {
        Barrier::Aliasing {
            resource_before: self.resource_before,
            resource_after: self.resource_after,
            flags: self.flags,
        }
    }
}

#[derive(Clone, Copy, PartialEq, Eq, Structural, Debug)]
pub struct UavBarrier {
    pub resource: Option<RawHandle>,
    pub flags: i32,
}

impl UavBarrier {
    pub fn new() -> (r: Self)
        ensures
            r.resource == None::<RawHandle>,
            r.flags == D3D12_RESOURCE_BARRIER_FLAG_NONE,
    {
        UavBarrier { resource: None::<RawHandle>, flags: D3D12_RESOURCE_BARRIER_FLAG_NONE }
    }
    pub fn resource(self, resource: &Resource) -> (r: Self)
        ensures
            r == (UavBarrier { resource: Some(resource.raw), ..self }),
    {
        UavBarrier { resource: Some(resource.raw), ..self }
    }
    pub fn flags(self, flags: i32) -> (r: Self)
        ensures
            r == (UavBarrier { flags, ..self }),
    {
        UavBarrier { flags, ..self }
    }
}

impl ResourceBarrier for UavBarrier {
    open spec fn barrier(&self) -> Barrier {
        Barrier::Uav { resource: self.resource, flags: self.flags }
    }

    fn as_raw(&self) -> (r: Barrier) {
        Barrier::Uav { resource: self.resource, flags: self.flags }
    }
}

} // verus!
