use crate::d3d12;
use crate::descriptor_heap::Type;
use vstd::prelude::*;

verus! {

#[derive(Clone, Copy, PartialEq, Eq, Debug, Hash)]
pub struct CbvSrvUav;

impl Type for CbvSrvUav {
    const VALUE: i32 = d3d12::D3D12_DESCRIPTOR_HEAP_TYPE_CBV_SRV_UAV;
}

#[derive(Clone, Copy, PartialEq, Eq, Debug, Hash)]
pub struct Rtv;

impl Type for Rtv {
    const VALUE: i32 = d3d12::D3D12_DESCRIPTOR_HEAP_TYPE_RTV;
}

#[derive(Clone, Copy, PartialEq, Eq, Debug, Hash)]
pub struct Dsv;

impl Type for Dsv {
    const VALUE: i32 = d3d12::D3D12_DESCRIPTOR_HEAP_TYPE_DSV;
}

#[derive(Clone, Copy, PartialEq, Eq, Debug, Hash)]
pub struct Sampler;

impl Type for Sampler {
    const VALUE: i32 = d3d12::D3D12_DESCRIPTOR_HEAP_TYPE_SAMPLER;
}

} // verus!
