use crate::command_list::GraphicsCommandList;
use crate::command_list_type;
use crate::command_list_type::{
    CommandListType, Compute, Direct, VideoDecode, VideoEncode, VideoProcess,
};
use crate::d3d12::D3D12_COMMAND_QUEUE_FLAG_NONE;
use crate::device::Device;
use crate::fence::{Fence, Signal};
use crate::utility::{name_as_str, name_from_text, name_view, text_view, Error, Name, RawHandle};
use vstd::prelude::*;

verus! {

/// The description of a command queue, as the native layer takes it.
#[derive(Clone, Copy, PartialEq, Eq, Structural, Debug)]
pub struct CommandQueueDesc {
    pub ty: i32,
    pub priority: i32,
    pub flags: i32,
    pub node_mask: u32,
}

/// Collects what a command queue of the category `T` is created from.
pub struct Builder<T> {
    pub device: RawHandle,
    pub desc: CommandQueueDesc,
    pub name: Option<String>,
    pub _t: core::marker::PhantomData<T>,
}

impl<T> Builder<T> where T: CommandListType {
    pub(crate) fn new(device: RawHandle) -> (r: Self)
        ensures
            r.device == device,
            r.desc == (CommandQueueDesc {
                ty: T::VALUE,
                priority: 0,
                flags: D3D12_COMMAND_QUEUE_FLAG_NONE,
                node_mask: 0,
            }),
            r.name.is_none(),
    {
        Builder {
            device,
            desc: CommandQueueDesc {
                ty: T::VALUE,
                priority: 0,
                flags: D3D12_COMMAND_QUEUE_FLAG_NONE,
                node_mask: 0,
            },
            name: None,
            _t: core::marker::PhantomData,
        }
    }

    pub fn priority(self, priority: i32) -> (r: Self)
        ensures
            r.device == self.device,
            r.desc == (CommandQueueDesc { priority, ..self.desc }),
            r.name == self.name,
    {
        Builder { desc: CommandQueueDesc { priority, ..self.desc }, ..self }
    }

    pub fn flags(self, flags: i32) -> (r: Self)
        ensures
            r.device == self.device,
            r.desc == (CommandQueueDesc { flags, ..self.desc }),
            r.name == self.name,
    {
        Builder { desc: CommandQueueDesc { flags, ..self.desc }, ..self }
    }

    pub fn node_mask(self, mask: u32) -> (r: Self)
        ensures
            r.device == self.device,
            r.desc == (CommandQueueDesc { node_mask: mask, ..self.desc }),
            r.name == self.name,
    {
        Builder { desc: CommandQueueDesc { node_mask: mask, ..self.desc }, ..self }
    }

    pub fn name(self, name: &str) -> (r: Self)
        ensures
            text_view(r.name) == Some(name@),
            r.device == self.device,
            r.desc == self.desc,
    {
        Builder { name: Some(name.to_owned()), ..self }
    }

    /// Takes the outcome of the native call that creates the queue from the
    /// description of this builder.
    pub fn build(self, created: Result<RawHandle, Error>) -> (r: Result<CommandQueue<T>, Error>)
        ensures
            match created {
                Ok(raw) => r.is_ok() && r.unwrap().raw == raw && name_view(r.unwrap().name)
                    == text_view(self.name),
                Err(e) => r == Err::<CommandQueue<T>, Error>(e),
            },
    {
        match created {
            Ok(raw) => Ok(
                CommandQueue {
                    raw,
                    name: name_from_text(&self.name),
                    _t: core::marker::PhantomData,
                },
            ),
            Err(e) => Err(e),
        }
    }
}

/// A queue that command lists of the category `T` are submitted to.
#[derive(Debug)]
pub struct CommandQueue<T = ()> {
    pub raw: RawHandle,
    pub name: Option<Name>,
    pub _t: core::marker::PhantomData<T>,
}

impl CommandQueue<()> {
    pub fn new_direct(device: &Device) -> (r: Builder<Direct>)
        ensures
            r.device == device.raw,
            r.name.is_none(),
            r.desc.ty == Direct::VALUE,
    {
        Builder::new(device.raw)
    }

    pub fn new_compute(device: &Device) -> (r: Builder<Compute>)
        ensures
            r.device == device.raw,
            r.name.is_none(),
            r.desc.ty == Compute::VALUE,
    {
        Builder::new(device.raw)
    }

    pub fn new_copy(device: &Device) -> (r: Builder<command_list_type::Copy>)
        ensures
            r.device == device.raw,
            r.name.is_none(),
            r.desc.ty == command_list_type::Copy::VALUE,
    {
        Builder::new(device.raw)
    }

    pub fn new_video_encode(device: &Device) -> (r: Builder<VideoEncode>)
        ensures
            r.device == device.raw,
            r.name.is_none(),
            r.desc.ty == VideoEncode::VALUE,
    {
        Builder::new(device.raw)
    }

    pub fn new_video_process(device: &Device) -> (r: Builder<VideoProcess>)
        ensures
            r.device == device.raw,
            r.name.is_none(),
            r.desc.ty == VideoProcess::VALUE,
    {
        Builder::new(device.raw)
    }

    pub fn new_video_decode(device: &Device) -> (r: Builder<VideoDecode>)
        ensures
            r.device == device.raw,
            r.name.is_none(),
            r.desc.ty == VideoDecode::VALUE,
    {
        Builder::new(device.raw)
    }
}

/// What issuing a signal on a queue gives for the outcome of the native call.
pub open spec fn signaled(signal: Signal, issued: Result<(), Error>) -> Result<Signal, Error> {
    match issued {
        Ok(_) => Ok(signal),
        Err(e) => Err(e),
    }
}

impl<T> CommandQueue<T> where T: CommandListType {
    /// The lists that the native layer is handed for execution: the handles of
    /// `cmd_lists`, in their order. Every list is closed, and of the category of
    /// the queue.
    pub fn execute_command_lists(
        &self,
        cmd_lists: &[&GraphicsCommandList<T>],
    ) -> (r: Vec<RawHandle>)
        requires
            forall|i: int| 0 <= i < cmd_lists@.len() ==> (#[trigger] cmd_lists@[i]).is_closed(),
        ensures
            r@.len() == cmd_lists@.len(),
            forall|i: int| 0 <= i < r@.len() ==> #[trigger] r@[i] == cmd_lists@[i].raw,
    {
        let mut out: Vec<RawHandle> = Vec::new();
        let mut i: usize = 0;
        while i < cmd_lists.len()
            invariant
                i <= cmd_lists.len(),
                out@.len() == i,
                forall|j: int| 0 <= j < i ==> #[trigger] out@[j] == cmd_lists@[j].raw,
            decreases cmd_lists.len() - i,
        {
            out.push(cmd_lists[i].handle());
            i += 1;
        }
        out
    }

    /// Issues the next signal of `fence` on the queue.
    ///
    /// The signal is counted first. The native call `signal` is then handed the
    /// fence and the value of the signal; where it fails its error is returned,
    /// and the value stays spent.
    pub fn signal<F>(&self, fence: &mut Fence, signal: F) -> (r: Result<Signal, Error>)
        where F: FnOnce(RawHandle, u64) -> Result<(), Error>
        requires
            forall|value: u64| #[trigger] signal.requires((old(fence).raw, value)),
        ensures
            *final(fence) == old(fence).issue().0,
            exists|issued: Result<(), Error>| #[trigger]
                signal.ensures((old(fence).raw, old(fence).issue().1), issued) && r == signaled(
                    Signal { fence: old(fence).raw, value: old(fence).issue().1 },
                    issued,
                ),
    {
        let s = Signal::new(fence);
        let issued = signal(s.fence(), s.value());
        let r = match issued {
            Ok(_) => Ok(s),
            Err(e) => Err(e),
        };
        assert(signal.ensures((old(fence).raw, old(fence).issue().1), issued));
        r
    }

    /// Makes the queue wait for `signal` by the native call `wait`, which is
    /// handed the fence and the value of the signal.
    pub fn wait<F>(&self, signal: &Signal, wait: F) -> (r: Result<(), Error>)
        where F: FnOnce(RawHandle, u64) -> Result<(), Error>
        requires
            wait.requires((signal.fence, signal.value)),
        ensures
            wait.ensures((signal.fence, signal.value), r),
    {
        wait(signal.fence(), signal.value())
    }

    pub fn handle(&self) -> (r: RawHandle)
        ensures
            r == self.raw,
    {
        self.raw
    }

    pub fn name(&self) -> (r: Option<&str>)
        ensures
            r.is_some() == self.name.is_some(),
            r.is_some() ==> r.unwrap()@ == self.name.unwrap().text@,
    {
        name_as_str(&self.name)
    }

    /// Records the debug name that the native object is given.
    pub fn set_name(&mut self, name: &str)
        ensures
            final(self).raw == old(self).raw,
            name_view(final(self).name) == Some(name@),
    {
        self.name = Some(Name::new(name));
    }

}

impl CommandQueue<command_list_type::Direct> {
    pub fn new(device: &Device) -> (r: Builder<command_list_type::Direct>)
        ensures
            r.device == device.raw,
            r.name.is_none(),
            r.desc.ty == command_list_type::Direct::VALUE,
    {
        Builder::new(device.raw)
    }
}

impl CommandQueue<command_list_type::Compute> {
    pub fn new(device: &Device) -> (r: Builder<command_list_type::Compute>)
        ensures
            r.device == device.raw,
            r.name.is_none(),
            r.desc.ty == command_list_type::Compute::VALUE,
    {
        Builder::new(device.raw)
    }
}

impl CommandQueue<command_list_type::Copy> {
    pub fn new(device: &Device) -> (r: Builder<command_list_type::Copy>)
        ensures
            r.device == device.raw,
            r.name.is_none(),
            r.desc.ty == command_list_type::Copy::VALUE,
    {
        Builder::new(device.raw)
    }
}

impl CommandQueue<command_list_type::VideoDecode> {
    pub fn new(device: &Device) -> (r: Builder<command_list_type::VideoDecode>)
        ensures
            r.device == device.raw,
            r.name.is_none(),
            r.desc.ty == command_list_type::VideoDecode::VALUE,
    {
        Builder::new(device.raw)
    }
}

impl CommandQueue<command_list_type::VideoEncode> {
    pub fn new(device: &Device) -> (r: Builder<command_list_type::VideoEncode>)
        ensures
            r.device == device.raw,
            r.name.is_none(),
            r.desc.ty == command_list_type::VideoEncode::VALUE,
    {
        Builder::new(device.raw)
    }
}

impl CommandQueue<command_list_type::VideoProcess> {
    pub fn new(device: &Device) -> (r: Builder<command_list_type::VideoProcess>)
        ensures
            r.device == device.raw,
            r.name.is_none(),
            r.desc.ty == command_list_type::VideoProcess::VALUE,
    {
        Builder::new(device.raw)
    }
}

pub type DirectCommandQueue = CommandQueue<command_list_type::Direct>;

pub type ComputeCommandQueue = CommandQueue<command_list_type::Compute>;

pub type CopyCommandQueue = CommandQueue<command_list_type::Copy>;

pub type VideoDecodeCommandQueue = CommandQueue<command_list_type::VideoDecode>;

pub type VideoEncodeCommandQueue = CommandQueue<command_list_type::VideoEncode>;

pub type VideoProcessCommandQueue = CommandQueue<command_list_type::VideoProcess>;

} // verus!
