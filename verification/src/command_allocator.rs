use crate::command_list_type;
use crate::command_list_type::{
    Bundle, CommandListType, Compute, Direct, VideoDecode, VideoEncode, VideoProcess,
};
use crate::device::Device;
use crate::utility::{name_as_str, name_from_text, name_view, text_view, Error, Name, RawHandle};
use vstd::prelude::*;

verus! {

/// Collects what a command allocator of the category `T` is created from.
pub struct Builder<T> {
    pub device: RawHandle,
    pub name: Option<String>,
    pub _t: core::marker::PhantomData<T>,
}

impl<T> Builder<T> where T: CommandListType {
    pub(crate) fn new(device: RawHandle) -> (r: Self)
        ensures
            r.device == device,
            r.name.is_none(),
    {
        Builder { device, name: None, _t: core::marker::PhantomData }
    }

    pub fn name(self, name: &str) -> (r: Self)
        ensures
            text_view(r.name) == Some(name@),
            r.device == self.device,
    {
        Builder { name: Some(name.to_owned()), ..self }
    }

    /// The category that the native allocator is created for.
    pub fn list_type(&self) -> (r: i32)
        ensures
            r == T::VALUE,
    {
        T::VALUE
    }

    /// Takes the outcome of the native call that creates the allocator, which
    /// was given `list_type()`.
    pub fn build(self, created: Result<RawHandle, Error>) -> (r: Result<CommandAllocator<T>, Error>)
        ensures
            match created {
                Ok(raw) => r.is_ok() && r.unwrap().raw == raw && name_view(r.unwrap().name)
                    == text_view(self.name),
                Err(e) => r == Err::<CommandAllocator<T>, Error>(e),
            },
    {
        match created {
            Ok(raw) => Ok(
                CommandAllocator {
                    raw,
                    name: name_from_text(&self.name),
                    _t: core::marker::PhantomData,
                },
            ),
            Err(e) => Err(e),
        }
    }
}

/// The memory that the commands of a list are recorded into. `T` is the
/// category of the lists that can record into it.
#[derive(Debug)]
pub struct CommandAllocator<T = ()> {
    pub raw: RawHandle,
    pub name: Option<Name>,
    pub _t: core::marker::PhantomData<T>,
}

impl CommandAllocator<()> {
    pub fn new_direct(device: &Device) -> (r: Builder<Direct>)
        ensures
            r.device == device.raw,
            r.name.is_none(),
    {
        Builder::new(device.raw)
    }

    pub fn new_compute(device: &Device) -> (r: Builder<Compute>)
        ensures
            r.device == device.raw,
            r.name.is_none(),
    {
        Builder::new(device.raw)
    }

    pub fn new_bundle(device: &Device) -> (r: Builder<Bundle>)
        ensures
            r.device == device.raw,
            r.name.is_none(),
    {
        Builder::new(device.raw)
    }

    pub fn new_copy(device: &Device) -> (r: Builder<command_list_type::Copy>)
        ensures
            r.device == device.raw,
            r.name.is_none(),
    {
        Builder::new(device.raw)
    }

    pub fn new_video_encode(device: &Device) -> (r: Builder<VideoEncode>)
        ensures
            r.device == device.raw,
            r.name.is_none(),
    {
        Builder::new(device.raw)
    }

    pub fn new_video_process(device: &Device) -> (r: Builder<VideoProcess>)
        ensures
            r.device == device.raw,
            r.name.is_none(),
    {
        Builder::new(device.raw)
    }

    pub fn new_video_decode(device: &Device) -> (r: Builder<VideoDecode>)
        ensures
            r.device == device.raw,
            r.name.is_none(),
    {
        Builder::new(device.raw)
    }
}

impl<T> CommandAllocator<T> where T: CommandListType {
    /// Resets the allocator by the native call `reset`, which is handed the
    /// allocator.
    pub fn reset<F>(&self, reset: F) -> (r: Result<(), Error>)
        where F: FnOnce(RawHandle) -> Result<(), Error>
        requires
            reset.requires((self.raw,)),
        ensures
            reset.ensures((self.raw,), r),
    {
        reset(self.raw)
    }

    pub fn handle(&self) -> (r: RawHandle)
        ensures
            r == self.raw,
    {
        self.raw
    }

    pub fn name(&self) -> (r: Option<&str>)
        ensures
            r.is_some() == self.name.is_some(),
            r.is_some() ==> r.unwrap()@ == self.name.unwrap().text@,
    {
        name_as_str(&self.name)
    }

}

impl CommandAllocator<command_list_type::Direct> {
    pub fn new(device: &Device) -> (r: Builder<command_list_type::Direct>)
        ensures
            r.device == device.raw,
            r.name.is_none(),
    {
        Builder::new(device.raw)
    }
}

impl CommandAllocator<command_list_type::Compute> {
    pub fn new(device: &Device) -> (r: Builder<command_list_type::Compute>)
        ensures
            r.device == device.raw,
            r.name.is_none(),
    {
        Builder::new(device.raw)
    }
}

impl CommandAllocator<command_list_type::Copy> {
    pub fn new(device: &Device) -> (r: Builder<command_list_type::Copy>)
        ensures
            r.device == device.raw,
            r.name.is_none(),
    {
        Builder::new(device.raw)
    }
}

impl CommandAllocator<command_list_type::Bundle> {
    pub fn new(device: &Device) -> (r: Builder<command_list_type::Bundle>)
        ensures
            r.device == device.raw,
            r.name.is_none(),
    {
        Builder::new(device.raw)
    }
}

impl CommandAllocator<command_list_type::VideoDecode> {
    pub fn new(device: &Device) -> (r: Builder<command_list_type::VideoDecode>)
        ensures
            r.device == device.raw,
            r.name.is_none(),
    {
        Builder::new(device.raw)
    }
}

impl CommandAllocator<command_list_type::VideoEncode> {
    pub fn new(device: &Device) -> (r: Builder<command_list_type::VideoEncode>)
        ensures
            r.device == device.raw,
            r.name.is_none(),
    {
        Builder::new(device.raw)
    }
}

impl CommandAllocator<command_list_type::VideoProcess> {
    pub fn new(device: &Device) -> (r: Builder<command_list_type::VideoProcess>)
        ensures
            r.device == device.raw,
            r.name.is_none(),
    {
        Builder::new(device.raw)
    }
}

pub type DirectCommandAllocator = CommandAllocator<command_list_type::Direct>;

pub type ComputeCommandAllocator = CommandAllocator<command_list_type::Compute>;

pub type CopyCommandAllocator = CommandAllocator<command_list_type::Copy>;

pub type BundleCommandAllocator = CommandAllocator<command_list_type::Bundle>;

pub type VideoDecodeCommandAllocator = CommandAllocator<command_list_type::VideoDecode>;

pub type VideoEncodeCommandAllocator = CommandAllocator<command_list_type::VideoEncode>;

pub type VideoProcessCommandAllocator = CommandAllocator<command_list_type::VideoProcess>;

} // verus!
