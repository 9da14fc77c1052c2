use crate::d3d12;
use vstd::prelude::*;

verus! {

/// The category of a command list: which engine of the GPU consumes what the list records.
///
/// A category is a marker type. Allocators, lists and queues carry it as a type
/// parameter, so that a list can only be reset against an allocator, and submitted
/// to a queue, of its own category.
pub trait CommandListType {
    /// The value by which the native layer knows the category.
    const VALUE: i32;
}

#[derive(Clone, Copy, PartialEq, Eq, Debug)]
pub struct Direct;

impl CommandListType for Direct {
    const VALUE: i32 = d3d12::D3D12_COMMAND_LIST_TYPE_DIRECT;
}

#[derive(Clone, Copy, PartialEq, Eq, Debug)]
pub struct Bundle;

impl CommandListType for Bundle {
    const VALUE: i32 = d3d12::D3D12_COMMAND_LIST_TYPE_BUNDLE;
}

#[derive(Clone, Copy, PartialEq, Eq, Debug)]
pub struct Compute;

impl CommandListType for Compute {
    const VALUE: i32 = d3d12::D3D12_COMMAND_LIST_TYPE_COMPUTE;
}

#[derive(Clone, Copy, PartialEq, Eq, Debug)]
pub struct Copy;

impl CommandListType for Copy {
    const VALUE: i32 = d3d12::D3D12_COMMAND_LIST_TYPE_COPY;
}

#[derive(Clone, Copy, PartialEq, Eq, Debug)]
pub struct VideoDecode;

impl CommandListType for VideoDecode {
    const VALUE: i32 = d3d12::D3D12_COMMAND_LIST_TYPE_VIDEO_DECODE;
}

#[derive(Clone, Copy, PartialEq, Eq, Debug)]
pub struct VideoProcess;

impl CommandListType for VideoProcess {
    const VALUE: i32 = d3d12::D3D12_COMMAND_LIST_TYPE_VIDEO_PROCESS;
}

#[derive(Clone, Copy, PartialEq, Eq, Debug)]
pub struct VideoEncode;

impl CommandListType for VideoEncode {
    const VALUE: i32 = d3d12::D3D12_COMMAND_LIST_TYPE_VIDEO_ENCODE;
}

} // verus!
