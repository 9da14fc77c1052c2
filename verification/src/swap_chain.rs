use crate::command_list_type::Direct;
use crate::command_queue::{signaled, CommandQueue};
use crate::dxgi::{
    DXGI_ALPHA_MODE_UNSPECIFIED,
    DXGI_FORMAT_UNKNOWN,
    DXGI_SCALING_STRETCH,
    DXGI_SWAP_EFFECT_DISCARD,
};
use crate::fence::{Fence, Signal};
use crate::resources::Resource;
use crate::utility::{Error, Handle, RawHandle, SampleDesc};
use vstd::prelude::*;

verus! {

/// The description of a swap chain, as the native layer takes it.
#[derive(Clone, Copy, PartialEq, Eq, Structural, Debug)]
pub struct SwapChainDesc {
    pub width: u32,
    pub height: u32,
    pub format: i32,
    pub stereo: bool,
    pub sample_desc: SampleDesc,
    pub buffer_usage: u32,
    pub buffer_count: u32,
    pub scaling: i32,
    pub swap_effect: i32,
    pub alpha_mode: i32,
    pub flags: u32,
}

/// The mark of a builder that has not been bound to a queue yet.
#[derive(Clone, Copy, PartialEq, Eq, Debug)]
pub struct NoQueue;

/// The queue that a swap chain is bound to: a queue of the direct category.
#[derive(Clone, Copy, PartialEq, Eq, Structural, Debug)]
pub struct BoundQueue {
    pub raw: RawHandle,
}

/// Collects what a swap chain is created from. The swap chain can be built once
/// it is bound to a queue.
pub struct Builder<Q = NoQueue> {
    pub cmd_queue: Q,
    pub desc: SwapChainDesc,
}

impl Builder<NoQueue> {
    pub(crate) fn new() -> (r: Self)
        ensures
            r.desc == (SwapChainDesc {
                width: 0,
                height: 0,
                format: DXGI_FORMAT_UNKNOWN,
                stereo: false,
                sample_desc: SampleDesc { count: 1, quality: 0 },
                buffer_usage: 0,
                buffer_count: 0,
                scaling: DXGI_SCALING_STRETCH,
                swap_effect: DXGI_SWAP_EFFECT_DISCARD,
                alpha_mode: DXGI_ALPHA_MODE_UNSPECIFIED,
                flags: 0,
            }),
    {
        Builder {
            cmd_queue: NoQueue,
            desc: SwapChainDesc {
                width: 0,
                height: 0,
                format: DXGI_FORMAT_UNKNOWN,
                stereo: false,
                sample_desc: SampleDesc { count: 1, quality: 0 },
                buffer_usage: 0,
                buffer_count: 0,
                scaling: DXGI_SCALING_STRETCH,
                swap_effect: DXGI_SWAP_EFFECT_DISCARD,
                alpha_mode: DXGI_ALPHA_MODE_UNSPECIFIED,
                flags: 0,
            },
        }
    }
}

impl<Q> Builder<Q> {
    /// Binds the swap chain to a queue of the direct category.
    pub fn command_queue(self, cmd_queue: &CommandQueue<Direct>) -> (r: Builder<BoundQueue>)
        ensures
            r.cmd_queue.raw == cmd_queue.raw,
            r.desc == self.desc,
    {
        Builder { cmd_queue: BoundQueue { raw: cmd_queue.raw }, desc: self.desc }
    }

    pub fn width(self, width: u32) -> (r: Self)
        ensures
            r.cmd_queue == self.cmd_queue,
            r.desc == (SwapChainDesc { width, ..self.desc }),
    {
        Builder { desc: SwapChainDesc { width, ..self.desc }, ..self }
    }

    pub fn height(self, height: u32) -> (r: Self)
        ensures
            r.cmd_queue == self.cmd_queue,
            r.desc == (SwapChainDesc { height, ..self.desc }),
    {
        Builder { desc: SwapChainDesc { height, ..self.desc }, ..self }
    }

    pub fn stereo(self, stereo: bool) -> (r: Self)
        ensures
            r.cmd_queue == self.cmd_queue,
            r.desc == (SwapChainDesc { stereo, ..self.desc }),
    {
        Builder { desc: SwapChainDesc { stereo, ..self.desc }, ..self }
    }

    pub fn format(self, format: i32) -> (r: Self)
        ensures
            r.cmd_queue == self.cmd_queue,
            r.desc == (SwapChainDesc { format, ..self.desc }),
    {
        Builder { desc: SwapChainDesc { format, ..self.desc }, ..self }
    }

    pub fn sample_desc(self, desc: SampleDesc) -> (r: Self)
        ensures
            r.cmd_queue == self.cmd_queue,
            r.desc == (SwapChainDesc { sample_desc: desc, ..self.desc }),
    {
        Builder { desc: SwapChainDesc { sample_desc: desc, ..self.desc }, ..self }
    }

    pub fn buffer_usage(self, usage: u32) -> (r: Self)
        ensures
            r.cmd_queue == self.cmd_queue,
            r.desc == (SwapChainDesc { buffer_usage: usage, ..self.desc }),
    {
        Builder { desc: SwapChainDesc { buffer_usage: usage, ..self.desc }, ..self }
    }

    pub fn buffer_count(self, count: u32) -> (r: Self)
        ensures
            r.cmd_queue == self.cmd_queue,
            r.desc == (SwapChainDesc { buffer_count: count, ..self.desc }),
    {
        Builder { desc: SwapChainDesc { buffer_count: count, ..self.desc }, ..self }
    }

    pub fn scaling(self, scaling: i32) -> (r: Self)
        ensures
            r.cmd_queue == self.cmd_queue,
            r.desc == (SwapChainDesc { scaling, ..self.desc }),
    {
        Builder { desc: SwapChainDesc { scaling, ..self.desc }, ..self }
    }

    pub fn swap_effect(self, effect: i32) -> (r: Self)
        ensures
            r.cmd_queue == self.cmd_queue,
            r.desc == (SwapChainDesc { swap_effect: effect, ..self.desc }),
    {
        Builder { desc: SwapChainDesc { swap_effect: effect, ..self.desc }, ..self }
    }

    pub fn alpha_mode(self, mode: i32) -> (r: Self)
        ensures
            r.cmd_queue == self.cmd_queue,
            r.desc == (SwapChainDesc { alpha_mode: mode, ..self.desc }),
    {
        Builder { desc: SwapChainDesc { alpha_mode: mode, ..self.desc }, ..self }
    }

    pub fn flags(self, flags: u32) -> (r: Self)
        ensures
            r.cmd_queue == self.cmd_queue,
            r.desc == (SwapChainDesc { flags, ..self.desc }),
    {
        Builder { desc: SwapChainDesc { flags, ..self.desc }, ..self }
    }
}

/// What building a swap chain gives for the outcome of its creation.
pub open spec fn built(created: Result<RawHandle, Error>, cmd_queue: RawHandle) -> Result<
    SwapChain,
    Error,
> {
    match created {
        Ok(raw) => Ok(SwapChain { raw, cmd_queue }),
        Err(e) => Err(e),
    }
}

impl Builder<BoundQueue> {
    /// Takes the outcome of the native call that creates a swap chain for
    /// composition from the queue and the description of this builder.
    pub fn build_for_composition(self, created: Result<RawHandle, Error>) -> (r: Result<
        SwapChain,
        Error,
    >)
        ensures
            r == built(created, self.cmd_queue.raw),
    {
        match created {
            Ok(raw) => Ok(SwapChain { raw, cmd_queue: self.cmd_queue.raw }),
            Err(e) => Err(e),
        }
    }

    /// Takes the outcome of the native call that creates a swap chain for the
    /// window `hwnd` from the queue and the description of this builder.
    pub fn build_for_hwnd(self, hwnd: usize, created: Result<RawHandle, Error>) -> (r: Result<
        SwapChain,
        Error,
    >)
        ensures
            r == built(created, self.cmd_queue.raw),
    {
        match created {
            Ok(raw) => Ok(SwapChain { raw, cmd_queue: self.cmd_queue.raw }),
            Err(e) => Err(e),
        }
    }
}

/// What of the buffers of a swap chain is to change; what is `None` stays.
#[derive(Clone, Copy, PartialEq, Eq, Structural, Debug)]
pub struct ResizeBuffers {
    pub count: Option<u32>,
    pub width: Option<u32>,
    pub height: Option<u32>,
    pub format: Option<i32>,
    pub flags: Option<i32>,
}

impl Default for ResizeBuffers {
    fn default() -> (r: Self)
        ensures
            r == (
                ResizeBuffers { count: None, width: None, height: None, format: None, flags: None }
            ),
    {
        ResizeBuffers { count: None, width: None, height: None, format: None, flags: None }
    }
}

/// What a change of the buffers hands to the native layer.
#[derive(Clone, Copy, PartialEq, Eq, Structural, Debug)]
pub struct ResizeBuffersArgs {
    pub count: u32,
    pub width: u32,
    pub height: u32,
    pub format: i32,
    pub flags: i32,
}

/// A value, or the one that stands for none.
pub open spec fn or_default<T>(value: Option<T>, default: T) -> T {
    match value {
        Some(v) => v,
        None => default,
    }
}

/// A presentation surface, bound to one queue of the direct category. It owns
/// no buffers: they are fetched as resources when they are needed.
#[derive(Clone, Copy, PartialEq, Eq, Structural, Debug)]
pub struct SwapChain {
    pub raw: RawHandle,
    pub cmd_queue: RawHandle,
}

impl SwapChain {
    pub fn new() -> (r: Builder)
        ensures
            r.desc.scaling == DXGI_SCALING_STRETCH,
            r.desc.sample_desc == (SampleDesc { count: 1, quality: 0 }),
            r.desc.width == 0 && r.desc.height == 0 && r.desc.buffer_count == 0,
    {
        Builder::new()
    }

    /// The index that the native layer is asked for.
    pub fn buffer_index(index: usize) -> (r: u32)
        requires
            index <= u32::MAX,
        ensures
            r == index,
    {
        index as u32
    }

    /// Takes the outcome of the native call that fetches the buffer at `index`.
    pub fn get_buffer(&self, index: usize, fetched: Result<RawHandle, Error>) -> (r: Result<
        Resource,
        Error,
    >)
        ensures
            match fetched {
                Ok(raw) => r.is_ok() && r.unwrap().raw == raw && r.unwrap().name.is_none(),
                Err(e) => r == Err::<Resource, Error>(e),
            },
    {
        match fetched {
            Ok(raw) => Ok(Resource::from_raw(raw)),
            Err(e) => Err(e),
        }
    }

    /// The index of the current back buffer, as the native layer reports it.
    pub fn get_current_back_buffer_index(&self, reported: u32) -> (r: usize)
        ensures
            r == reported,
    {
        reported as usize
    }

    /// Wraps the waitable object that the native layer hands out.
    pub fn get_frame_latency_waitable_object(&self, object: RawHandle) -> (r: Handle)
        ensures
            r.raw == object,
    {
        Handle::new(object)
    }

    /// Decides what a change of the buffers hands to the native layer: for what
    /// is not to change, 0 or the unknown format.
    pub fn resize_buffers(&self, params: &ResizeBuffers) -> (r: ResizeBuffersArgs)
        ensures
            r == (ResizeBuffersArgs {
                count: or_default(params.count, 0u32),
                width: or_default(params.width, 0u32),
                height: or_default(params.height, 0u32),
                format: or_default(params.format, DXGI_FORMAT_UNKNOWN),
                flags: or_default(params.flags, 0i32),
            }),
    {
        ResizeBuffersArgs {
            count: match params.count {
                Some(v) => v,
                None => 0,
            },
            width: match params.width {
                Some(v) => v,
                None => 0,
            },
            height: match params.height {
                Some(v) => v,
                None => 0,
            },
            format: match params.format {
                Some(v) => v,
                None => DXGI_FORMAT_UNKNOWN,
            },
            flags: match params.flags {
                Some(v) => v,
                None => 0,
            },
        }
    }

    /// Presents a frame, and issues a signal for it.
    ///
    /// The native call `present` is handed the interval and the flags. Where it
    /// fails, its error is returned and no signal is issued: the fence stays as
    /// it is. Else the next signal of `fence` is issued on the queue that the
    /// swap chain is bound to, by `signal`, which is handed the queue, the fence
    /// and the value.
    pub fn present<P, S>(&self, fence: &mut Fence, interval: u32, flags: u32, present: P, signal: S) -> (r:
        Result<Signal, Error>)
        where P: FnOnce(
            u32,
            u32,
        ) -> Result<(), Error>, S: FnOnce(RawHandle, RawHandle, u64) -> Result<(), Error>
        requires
            present.requires((interval, flags)),
            forall|value: u64| #[trigger] signal.requires((self.cmd_queue, old(fence).raw, value)),
        ensures
            exists|presented: Result<(), Error>| #[trigger]
                present.ensures((interval, flags), presented) && match presented {
                    Err(e) => r == Err::<Signal, Error>(e) && *final(fence) == *old(fence),
                    Ok(_) => *final(fence) == old(fence).issue().0 && exists|
                        issued: Result<(), Error>,
                    | #[trigger]
                        signal.ensures(
                            (self.cmd_queue, old(fence).raw, old(fence).issue().1),
                            issued,
                        ) && r == signaled(
                            Signal { fence: old(fence).raw, value: old(fence).issue().1 },
                            issued,
                        ),
                },
    {
        let presented = present(interval, flags);
        match presented {
            Err(e) => Err(e),
            Ok(_) => {
                let s = Signal::new(fence);
                let issued = signal(self.cmd_queue, s.fence(), s.value());
                let r = match issued {
                    Ok(_) => Ok(s),
                    Err(e) => Err(e),
                };
                assert(signal.ensures(
                    (self.cmd_queue, old(fence).raw, old(fence).issue().1),
                    issued,
                ));
                r
            },
        }
    }

    pub fn handle(&self) -> (r: RawHandle)
        ensures
            r == self.raw,
    {
        self.raw
    }
}

} // verus!
