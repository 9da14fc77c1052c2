use crate::d3d12::D3D12_FENCE_FLAG_NONE;
use crate::device::Device;
use crate::utility::{
    name_as_str, name_from_text, name_view, text_view, Error, EventHandle, Name, RawHandle,
};
use vstd::prelude::*;

verus! {

pub struct Builder {
    pub device: RawHandle,
    pub flags: i32,
    pub name: Option<String>,
}

impl Builder {
    pub(crate) fn new(device: RawHandle) -> (r: Self)
        ensures
            r.device == device,
            r.flags == D3D12_FENCE_FLAG_NONE,
            r.name.is_none(),
    {
        Builder { device, flags: D3D12_FENCE_FLAG_NONE, name: None }
    }

    pub fn flags(self, flags: i32) -> (r: Self)
        ensures
            r == (Builder { flags, ..self }),
    {
        Builder { flags, ..self }
    }

    pub fn name(self, name: &str) -> (r: Self)
        ensures
            text_view(r.name) == Some(name@),
            r.device == self.device,
            r.flags == self.flags,
    {
        Builder { name: Some(name.to_owned()), ..self }
    }

    /// The completed value that the native fence is created with.
    pub fn initial_value(&self) -> (r: u64)
        ensures
            r == 0,
    {
        0
    }

    /// Takes the outcome of the native call that creates the fence, which was
    /// given `initial_value()` and the flags of this builder. No signal of the
    /// fence has been issued yet.
    pub fn build(self, created: Result<RawHandle, Error>) -> (r: Result<Fence, Error>)
        ensures
            match created {
                Ok(raw) => r.is_ok() && r.unwrap().raw == raw && r.unwrap().issued == 0
                    && name_view(r.unwrap().name) == text_view(self.name),
                Err(e) => r == Err::<Fence, Error>(e),
            },
    {
        match created {
            Ok(raw) => Ok(Fence { raw, issued: 0, name: name_from_text(&self.name) }),
            Err(e) => Err(e),
        }
    }
}

/// A native fence, together with the count of the signals issued for it.
///
/// The count is the value of the signal issued last. It is held by the fence
/// alone: whoever issues a signal has the fence to itself for that step, so no
/// two signals of one fence get the same value.
#[derive(Debug)]
pub struct Fence {
    pub raw: RawHandle,
    pub issued: u64,
    pub name: Option<Name>,
}

/// What waiting for a value decides from the value that the fence has completed:
/// the value to be told of on completion, or nothing where it is reached already.
pub open spec fn pending(completed_value: u64, value: u64) -> Option<u64> {
    if completed_value < value {
        Some(value)
    } else {
        None
    }
}

impl Fence {
    pub fn new(device: &Device) -> (r: Builder)
        ensures
            r.device == device.raw,
            r.flags == D3D12_FENCE_FLAG_NONE,
            r.name.is_none(),
    {
        Builder::new(device.raw)
    }

    /// The fence after one more signal was issued, and the value of that signal.
    pub open spec fn issue(self) -> (Fence, u64) {
        let value = if self.issued == u64::MAX {
            0u64
        } else {
            (self.issued + 1) as u64
        };
        (Fence { issued: value, ..self }, value)
    }

    /// The fence after `n` more signals were issued.
    pub open spec fn issue_many(self, n: nat) -> Fence
        decreases n,
    {
        if n == 0 {
            self
        } else {
            self.issue_many((n - 1) as nat).issue().0
        }
    }

    /// The value of the `i`-th signal issued from now on, counted from 0.
    pub open spec fn value_of_signal(self, i: nat) -> u64 {
        self.issue_many(i).issue().1
    }

    /// Sets the fence to the value of `signal` from the CPU side, unless the
    /// fence has completed that value already.
    ///
    /// `completed_value` is the value that the fence has completed; `set` is the
    /// native call that sets the fence to a value.
    pub fn signal<F>(&self, signal: &Signal, completed_value: u64, set: F) -> (r: Result<(), Error>)
        where F: FnOnce(u64) -> Result<(), Error>
        requires
            set.requires((signal.value,)),
        ensures
            completed_value >= signal.value ==> r == Ok::<(), Error>(()),
            completed_value < signal.value ==> set.ensures((signal.value,), r),
    {
        if completed_value < signal.value {
            set(signal.value)
        } else {
            Ok(())
        }
    }

    pub fn handle(&self) -> (r: RawHandle)
        ensures
            r == self.raw,
    {
        self.raw
    }

    pub fn name(&self) -> (r: Option<&str>)
        ensures
            r.is_some() == self.name.is_some(),
            r.is_some() ==> r.unwrap()@ == self.name.unwrap().text@,
    {
        name_as_str(&self.name)
    }

    /// Whether two fences are the same native object.
    pub fn same(&self, other: &Fence) -> (r: bool)
        ensures
            r == (self.raw == other.raw),
    {
        self.raw == other.raw
    }
}

/// A value of a fence to wait for.
#[derive(Clone, Copy, PartialEq, Eq, Structural, Debug)]
pub struct Signal {
    pub fence: RawHandle,
    pub value: u64,
}

/// The handle that stands for no event: a completion registered on it blocks the
/// caller until the value is reached.
pub open spec fn no_event() -> RawHandle {
    RawHandle { addr: 0 }
}

impl Signal {
    /// Issues the next signal of `fence`: counts it, and captures the count.
    pub fn new(fence: &mut Fence) -> (r: Self)
        ensures
            r.fence == old(fence).raw,
            r.value == old(fence).issue().1,
            *final(fence) == old(fence).issue().0,
            old(fence).issued < u64::MAX ==> r.value == old(fence).issued + 1,
    {
        let value: u64 = if fence.issued == u64::MAX {
            0
        } else {
            fence.issued + 1
        };
        fence.issued = value;
        Signal { fence: fence.raw, value }
    }

    /// Blocks until the fence reaches the value, unless it has reached it already.
    ///
    /// `completed_value` is the value that the fence has completed; `on_completion`
    /// is the native call that registers an event for a value, and blocks where the
    /// event is the null handle.
    pub fn wait<F>(&self, completed_value: u64, on_completion: F) -> (r: Result<(), Error>)
        where F: FnOnce(u64, RawHandle) -> Result<(), Error>
        requires
            on_completion.requires((self.value, no_event())),
        ensures
            completed_value >= self.value ==> r == Ok::<(), Error>(()),
            completed_value < self.value ==> on_completion.ensures((self.value, no_event()), r),
    {
        if completed_value < self.value {
            on_completion(self.value, RawHandle { addr: 0 })
        } else {
            Ok(())
        }
    }

    /// Waits `millis` milliseconds at most for the fence to reach the value.
    ///
    /// Where the fence has reached it already the answer is `true` and no native
    /// call is made. Else a private event is created, registered for the value,
    /// and waited on; the answer is whether the wait found it signaled. An error
    /// of the creation or of the registration ends the wait.
    pub fn wait_timeout<C, F, W>(
        &self,
        millis: u128,
        completed_value: u64,
        create_event: C,
        on_completion: F,
        wait: W,
    ) -> (r: Result<bool, Error>)
        where
            C: FnOnce() -> Result<RawHandle, Error>,
            F: FnOnce(u64, RawHandle) -> Result<(), Error>,
            W: FnOnce(RawHandle, u32) -> u32,
        requires
            completed_value < self.value ==> millis <= u32::MAX,
            create_event.requires(()),
            forall|event: RawHandle| #[trigger] on_completion.requires((self.value, event)),
            forall|event: RawHandle| #[trigger] wait.requires((event, millis as u32)),
        ensures
            completed_value >= self.value ==> r == Ok::<bool, Error>(true),
            completed_value < self.value ==> exists|created: Result<RawHandle, Error>| #[trigger]
                create_event.ensures((), created) && match created {
                    Err(e) => r == Err::<bool, Error>(e),
                    Ok(event) => exists|registered: Result<(), Error>| #[trigger]
                        on_completion.ensures((self.value, event), registered)
                            && match registered {
                            Err(e) => r == Err::<bool, Error>(e),
                            Ok(_) => exists|code: u32| #[trigger]
                                wait.ensures((event, millis as u32), code) && r == Ok::<
                                    bool,
                                    Error,
                                >(code == crate::foundation::WAIT_OBJECT_0),
                        },
                },
    {
        if completed_value < self.value {
            let created = create_event();
            match EventHandle::new(created) {
                Err(e) => Err(e),
                Ok(event) => {
                    let registered = on_completion(self.value, event.handle());
                    match registered {
                        Err(e) => {
                            assert(on_completion.ensures((self.value, event.raw), registered));
                            Err(e)
                        },
                        Ok(_) => {
                            let timeout = crate::utility::Handle::timeout_millis(millis);
                            let code = wait(event.handle(), timeout);
                            let r = event.wait_timeout(code);
                            assert(wait.ensures((event.raw, millis as u32), code));
                            assert(on_completion.ensures((self.value, event.raw), registered));
                            r
                        },
                    }
                },
            }
        } else {
            Ok(true)
        }
    }

    /// Whether the fence, having completed `completed_value`, has reached the value.
    pub fn is_completed(&self, completed_value: u64) -> (r: bool)
        ensures
            r == (completed_value >= self.value),
    {
        completed_value >= self.value
    }

    pub fn fence(&self) -> (r: RawHandle)
        ensures
            r == self.fence,
    {
        self.fence
    }

    pub fn value(&self) -> (r: u64)
        ensures
            r == self.value,
    {
        self.value
    }
}

/// After `n` signals the count of a fence has grown by `n`, as long as it stays
/// within 64 bits.
pub proof fn lemma_issue_many(fence: Fence, n: nat)
    requires
        fence.issued + n <= u64::MAX,
    ensures
        fence.issue_many(n).issued == fence.issued + n,
        fence.issue_many(n).raw == fence.raw,
    decreases n,
{
    if n > 0 {
        lemma_issue_many(fence, (n - 1) as nat);
    }
}

/// The signals of one fence carry strictly increasing values: of `n` signals
/// issued in a row, as long as the count stays within 64 bits, the `i`-th has the
/// value `issued + 1 + i`, so that an earlier one is below a later one and no
/// two are equal.
pub proof fn lemma_signals_strictly_increase(fence: Fence, n: nat, i: nat, j: nat)
    requires
        fence.issued + n <= u64::MAX,
        i < j < n,
    ensures
        fence.value_of_signal(i) == fence.issued + 1 + i,
        fence.value_of_signal(j) == fence.issued + 1 + j,
        fence.value_of_signal(i) < fence.value_of_signal(j),
        fence.value_of_signal(i) != fence.value_of_signal(j),
{
    lemma_issue_many(fence, i);
    lemma_issue_many(fence, j);
}

/// A signal is completed exactly from the moment the completed value of its
/// fence reaches its value: it is not completed below it, and stays completed
/// as the completed value grows.
pub proof fn lemma_completed_iff_reached(signal: Signal, completed_value: u64, later: u64)
    requires
        completed_value <= later,
    ensures
        pending(completed_value, signal.value).is_none() <==> completed_value >= signal.value,
        pending(completed_value, signal.value).is_none() ==> pending(later, signal.value).is_none(),
{
}

} // verus!
