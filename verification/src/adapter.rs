use crate::dxgi::DXGI_ERROR_NOT_FOUND;
use crate::utility::{Error, RawHandle};
use vstd::prelude::*;

verus! {

/// The characters that decoding `units` as UTF-16 gives, each unpaired surrogate
/// replaced by U+FFFD.
pub uninterp spec fn utf16_lossy(units: Seq<u16>) -> Seq<char>;

/// `String::from_utf16_lossy` of std: decodes `units` as UTF-16 and replaces what
/// is invalid. The result is named by `utf16_lossy`; nothing more is claimed of it.
#[verifier::external_body]
pub(crate) fn string_from_utf16_lossy(units: &[u16]) -> (s: String)
    ensures
        s@ == utf16_lossy(units@),
{
    String::from_utf16_lossy(units)
}

#[derive(Clone, Copy, PartialEq, Eq, Structural, Debug)]
pub struct AdapterId {
    pub vendor_id: u32,
    pub device_id: u32,
    pub sub_sys_id: u32,
    pub revision: u32,
}

#[derive(Clone, Copy, PartialEq, Eq, Structural, Debug)]
pub struct AdapterMemoryInfo {
    pub dedicate_video_memory: usize,
    pub dedicate_system_memory: usize,
    pub shared_system_memory: usize,
}

/// A locally unique identifier.
#[derive(Clone, Copy, PartialEq, Eq, Structural, Debug)]
pub struct Luid {
    pub low_part: u32,
    pub high_part: i32,
}

/// What the native layer reports of an adapter.
#[derive(Clone, Copy, PartialEq, Eq, Debug)]
pub struct AdapterDesc {
    pub description: [u16; 128],
    pub vendor_id: u32,
    pub device_id: u32,
    pub sub_sys_id: u32,
    pub revision: u32,
    pub dedicated_video_memory: usize,
    pub dedicated_system_memory: usize,
    pub shared_system_memory: usize,
    pub adapter_luid: Luid,
    pub flags: i32,
    pub graphics_preemption_granularity: i32,
    pub compute_preemption_granularity: i32,
}

/// An adapter, with the description that was read when it was enumerated.
#[derive(Clone, Copy, PartialEq, Eq, Debug)]
pub struct Adapter {
    pub raw: RawHandle,
    pub desc: AdapterDesc,
}

/// Whether `len` is the length of the text in `units`: the place of the first
/// zero, or the length of `units` where there is none.
pub open spec fn is_text_len(units: Seq<u16>, len: int) -> bool {
    &&& 0 <= len <= units.len()
    &&& forall|i: int| 0 <= i < len ==> #[trigger] units[i] != 0
    &&& len < units.len() ==> units[len] == 0
}

/// The length of the text in `units`.
pub fn text_len(units: &[u16]) -> (len: usize)
    ensures
        is_text_len(units@, len as int),
{
    let mut i: usize = 0;
    while i < units.len()
        invariant
            i <= units.len(),
            forall|j: int| 0 <= j < i ==> #[trigger] units@[j] != 0,
        decreases units.len() - i,
    {
        if units[i] == 0 {
            return i;
        }
        i += 1;
    }
    i
}

impl Adapter {
    /// The name of the adapter: the description up to its first zero, decoded
    /// as UTF-16.
    pub fn description(&self) -> (r: String)
        ensures
            exists|len: int|
                is_text_len(self.desc.description@, len) && r@ == utf16_lossy(
                    #[trigger] self.desc.description@.take(len),
                ),
    {
        let units = self.desc.description.as_slice();
        let len = text_len(units);
        let text = vstd::slice::slice_subrange(units, 0, len);
        assert(text@ =~= self.desc.description@.take(len as int));
        string_from_utf16_lossy(text)
    }

    pub fn id(&self) -> (r: AdapterId)
        ensures
            r == (AdapterId {
                vendor_id: self.desc.vendor_id,
                device_id: self.desc.device_id,
                sub_sys_id: self.desc.sub_sys_id,
                revision: self.desc.revision,
            }),
    {
        AdapterId {
            vendor_id: self.desc.vendor_id,
            device_id: self.desc.device_id,
            sub_sys_id: self.desc.sub_sys_id,
            revision: self.desc.revision,
        }
    }

    pub fn memory_info(&self) -> (r: AdapterMemoryInfo)
        ensures
            r == (AdapterMemoryInfo {
                dedicate_video_memory: self.desc.dedicated_video_memory,
                dedicate_system_memory: self.desc.dedicated_system_memory,
                shared_system_memory: self.desc.shared_system_memory,
            }),
    {
        AdapterMemoryInfo {
            dedicate_video_memory: self.desc.dedicated_video_memory,
            dedicate_system_memory: self.desc.dedicated_system_memory,
            shared_system_memory: self.desc.shared_system_memory,
        }
    }

    pub fn flags(&self) -> (r: i32)
        ensures
            r == self.desc.flags,
    {
        self.desc.flags
    }

    pub fn luid(&self) -> (r: Luid)
        ensures
            r == self.desc.adapter_luid,
    {
        self.desc.adapter_luid
    }

    pub fn graphics_preemption_granularity(&self) -> (r: i32)
        ensures
            r == self.desc.graphics_preemption_granularity,
    {
        self.desc.graphics_preemption_granularity
    }

    pub fn compute_preemption_granularity(&self) -> (r: i32)
        ensures
            r == self.desc.compute_preemption_granularity,
    {
        self.desc.compute_preemption_granularity
    }

    pub fn handle(&self) -> (r: RawHandle)
        ensures
            r == self.raw,
    {
        self.raw
    }
}

/// What the enumeration read at one index: the adapter, and, where there was
/// one, its description.
pub struct AdapterRead {
    pub adapter: Result<RawHandle, Error>,
    pub desc: Option<Result<AdapterDesc, Error>>,
}

impl AdapterRead {
    /// The adapter that the read gives, where it gives one.
    pub open spec fn found(self) -> Option<Adapter> {
        match (self.adapter, self.desc) {
            (Ok(raw), Some(Ok(desc))) => Some(Adapter { raw, desc }),
            _ => None,
        }
    }

    /// The error that the read ends the enumeration with, where it is one: any
    /// error but the one that says that there is no adapter at the index.
    pub open spec fn failure(self) -> Option<Error> {
        match (self.adapter, self.desc) {
            (Err(e), _) => if e.code == DXGI_ERROR_NOT_FOUND {
                None
            } else {
                Some(e)
            },
            (Ok(_), Some(Err(e))) => Some(e),
            _ => None,
        }
    }
}

/// Whether `reads` is what an enumeration reads, the read at position `i` being
/// that of index `i`: every read but the last finds an adapter.
pub open spec fn is_enumeration(reads: Seq<AdapterRead>) -> bool {
    forall|i: int| 0 <= i < reads.len() - 1 ==> (#[trigger] reads[i]).found().is_some()
}

/// Whether `adapters` holds the adapters that the first `n` of `reads` found.
pub open spec fn found_in(reads: Seq<AdapterRead>, n: int, adapters: Seq<Adapter>) -> bool {
    adapters.len() == n && forall|i: int|
        0 <= i < n ==> reads[i].found() == Some(#[trigger] adapters[i])
}

/// Whether `reads` is what `enum_adapter` and `get_desc` gave index by index,
/// and `r` what the enumeration makes of it.
pub open spec fn enumerated<E, D>(
    enum_adapter: E,
    get_desc: D,
    reads: Seq<AdapterRead>,
    r: Result<Vec<Adapter>, Error>,
) -> bool where E: Fn(u32) -> Result<RawHandle, Error>, D: Fn(RawHandle) -> Result<AdapterDesc, Error> {
    &&& reads.len() <= u32::MAX
    &&& is_enumeration(reads)
    &&& forall|i: int|
        0 <= i < reads.len() ==> enum_adapter.ensures((i as u32,), (#[trigger] reads[i]).adapter)
    &&& forall|i: int|
        0 <= i < reads.len() ==> match (#[trigger] reads[i]).desc {
            Some(d) => reads[i].adapter.is_ok() && get_desc.ensures(
                (reads[i].adapter.unwrap(),),
                d,
            ),
            None => reads[i].adapter.is_err(),
        }
    &&& match r {
        Ok(adapters) => if reads.len() > 0 && reads.last().found().is_none() {
            reads.last().failure().is_none() && found_in(reads, reads.len() - 1, adapters@)
        } else {
            reads.len() == u32::MAX && found_in(reads, reads.len() as int, adapters@)
        },
        Err(e) => reads.len() > 0 && reads.last().failure() == Some(e),
    }
}

/// Lists the adapters of the machine.
///
/// The adapters are read index by index from 0 on, by `enum_adapter`, and the
/// description of each by `get_desc`. The first index at which there is no
/// adapter ends the list. Any other error, of either call, is returned. No more
/// than `u32::MAX` indices are read.
pub fn enum_adapters<E, D>(enum_adapter: E, get_desc: D) -> (r: Result<Vec<Adapter>, Error>)
    where E: Fn(u32) -> Result<RawHandle, Error>, D: Fn(RawHandle) -> Result<AdapterDesc, Error>
    requires
        forall|index: u32| #[trigger] enum_adapter.requires((index,)),
        forall|raw: RawHandle| #[trigger] get_desc.requires((raw,)),
    ensures
        exists|reads: Seq<AdapterRead>| #[trigger] enumerated(enum_adapter, get_desc, reads, r),
{
    let mut adapters: Vec<Adapter> = Vec::new();
    let mut index: u32 = 0;
    let ghost mut reads: Seq<AdapterRead> = Seq::empty();
    while index < u32::MAX
        invariant
            reads.len() == index,
            forall|i: u32| #[trigger] enum_adapter.requires((i,)),
            forall|raw: RawHandle| #[trigger] get_desc.requires((raw,)),
            forall|i: int| 0 <= i < reads.len() ==> (#[trigger] reads[i]).found().is_some(),
            forall|i: int|
                0 <= i < reads.len() ==> enum_adapter.ensures(
                    (i as u32,),
                    (#[trigger] reads[i]).adapter,
                ),
            forall|i: int|
                0 <= i < reads.len() ==> match (#[trigger] reads[i]).desc {
                    Some(d) => reads[i].adapter.is_ok() && get_desc.ensures(
                        (reads[i].adapter.unwrap(),),
                        d,
                    ),
                    None => reads[i].adapter.is_err(),
                },
            found_in(reads, reads.len() as int, adapters@),
        decreases u32::MAX - index,
    {
        let ret = enum_adapter(index);
        let ghost before = reads;
        let ghost found_before = adapters@;
        match ret {
            Ok(raw) => {
                let desc = get_desc(raw);
                proof {
                    reads = reads.push(AdapterRead { adapter: ret, desc: Some(desc) });
                    assert(forall|i: int| 0 <= i < before.len() ==> reads[i] == before[i]);
                    assert(reads.last() == AdapterRead { adapter: ret, desc: Some(desc) });
                }
                match desc {
                    Ok(d) => {
                        adapters.push(Adapter { raw, desc: d });
                        index += 1;
                        proof {
                            assert(forall|i: int|
                                0 <= i < found_before.len() ==> adapters@[i] == found_before[i]);
                        }
                    },
                    Err(e) => {
                        let r = Err(e);
                        proof {
                            assert(reads.last().failure() == Some(e));
                            assert(enumerated(enum_adapter, get_desc, reads, r));
                        }
                        return r;
                    },
                }
            },
            Err(e) => {
                proof {
                    reads = reads.push(AdapterRead { adapter: ret, desc: None });
                    assert(forall|i: int| 0 <= i < before.len() ==> reads[i] == before[i]);
                    assert(reads.last() == AdapterRead { adapter: ret, desc: None });
                    assert(reads.last().found().is_none());
                }
                if e.code == DXGI_ERROR_NOT_FOUND {
                    let r = Ok(adapters);
                    proof {
                        assert(found_in(reads, reads.len() - 1, adapters@));
                        assert(enumerated(enum_adapter, get_desc, reads, r));
                    }
                    return r;
                } else {
                    let r = Err(e);
                    proof {
                        assert(enumerated(enum_adapter, get_desc, reads, r));
                    }
                    return r;
                }
            },
        }
    }
    let r = Ok(adapters);
    proof {
        assert(enumerated(enum_adapter, get_desc, reads, r));
    }
    r
}

/// What reading the software adapter gives for the outcome of reading its
/// description.
pub open spec fn described(raw: RawHandle, desc: Result<AdapterDesc, Error>) -> Result<
    Adapter,
    Error,
> {
    match desc {
        Ok(d) => Ok(Adapter { raw, desc: d }),
        Err(e) => Err(e),
    }
}

/// Reads the software adapter, by `enum_warp`, and its description, by `get_desc`.
pub fn enum_warp_adapter<E, D>(enum_warp: E, get_desc: D) -> (r: Result<Adapter, Error>)
    where E: FnOnce() -> Result<RawHandle, Error>, D: FnOnce(RawHandle) -> Result<AdapterDesc, Error>
    requires
        enum_warp.requires(()),
        forall|raw: RawHandle| #[trigger] get_desc.requires((raw,)),
    ensures
        exists|found: Result<RawHandle, Error>| #[trigger]
            enum_warp.ensures((), found) && match found {
                Err(e) => r == Err::<Adapter, Error>(e),
                Ok(raw) => exists|desc: Result<AdapterDesc, Error>| #[trigger]
                    get_desc.ensures((raw,), desc) && r == described(raw, desc),
            },
{
    let found = enum_warp();
    match found {
        Err(e) => Err(e),
        Ok(raw) => {
            let desc = get_desc(raw);
            let r = match desc {
                Ok(d) => Ok(Adapter { raw, desc: d }),
                Err(e) => Err(e),
            };
            assert(get_desc.ensures((raw,), desc) && r == described(raw, desc));
            r
        },
    }
}

} // verus!
