use vstd::prelude::*;

verus! {

#[derive(Clone, Copy, PartialEq, Eq, Debug, Hash)]
pub struct Buffer;

#[derive(Clone, Copy, PartialEq, Eq, Debug, Hash)]
pub struct Texture1D;

#[derive(Clone, Copy, PartialEq, Eq, Debug, Hash)]
pub struct Texture1DArray;

#[derive(Clone, Copy, PartialEq, Eq, Debug, Hash)]
pub struct Texture2D;

#[derive(Clone, Copy, PartialEq, Eq, Debug, Hash)]
pub struct Texture2DArray;

#[derive(Clone, Copy, PartialEq, Eq, Debug, Hash)]
pub struct Texture2DMs;

#[derive(Clone, Copy, PartialEq, Eq, Debug, Hash)]
pub struct Texture2DMsArray;

#[derive(Clone, Copy, PartialEq, Eq, Debug, Hash)]
pub struct Texture3D;

#[derive(Clone, Copy, PartialEq, Eq, Debug, Hash)]
pub struct TextureCube;

#[derive(Clone, Copy, PartialEq, Eq, Debug, Hash)]
pub struct TextureCubeArray;

#[derive(Clone, Copy, PartialEq, Eq, Debug, Hash)]
pub struct RaytracingAccelerationStructure;

} // verus!
