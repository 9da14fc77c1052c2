use vstd::prelude::*;

verus! {

#[derive(Clone, Copy, PartialEq, Eq, Debug, Hash)]
pub struct Buffer;

#[derive(Clone, Copy, PartialEq, Eq, Debug, Hash)]
pub struct Texture1D;

#[derive(Clone, Copy, PartialEq, Eq, Debug, Hash)]
pub struct Texture2D;

#[derive(Clone, Copy, PartialEq, Eq, Debug, Hash)]
pub struct Texture3D;

} // verus!
