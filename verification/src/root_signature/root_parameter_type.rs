use crate::d3d12;
use crate::root_signature::RootParameterType;
use vstd::prelude::*;

verus! {

#[derive(Clone, Copy, PartialEq, Eq, Debug, Hash)]
pub struct DescriptorTable;

impl RootParameterType for DescriptorTable {
    const VALUE: i32 = d3d12::D3D12_ROOT_PARAMETER_TYPE_DESCRIPTOR_TABLE;
}

#[derive(Clone, Copy, PartialEq, Eq, Debug, Hash)]
pub struct Constants32bit;

impl RootParameterType for Constants32bit {
    const VALUE: i32 = d3d12::D3D12_ROOT_PARAMETER_TYPE_32BIT_CONSTANTS;
}

#[derive(Clone, Copy, PartialEq, Eq, Debug, Hash)]
pub struct Cbv;

impl RootParameterType for Cbv {
    const VALUE: i32 = d3d12::D3D12_ROOT_PARAMETER_TYPE_CBV;
}

#[derive(Clone, Copy, PartialEq, Eq, Debug, Hash)]
pub struct Srv;

impl RootParameterType for Srv {
    const VALUE: i32 = d3d12::D3D12_ROOT_PARAMETER_TYPE_SRV;
}

#[derive(Clone, Copy, PartialEq, Eq, Debug, Hash)]
pub struct Uav;

impl RootParameterType for Uav {
    const VALUE: i32 = d3d12::D3D12_ROOT_PARAMETER_TYPE_UAV;
}

} // verus!
