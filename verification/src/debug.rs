use crate::d3d12::{
    D3D12_DRED_ENABLEMENT_FORCED_OFF, D3D12_DRED_ENABLEMENT_FORCED_ON,
    D3D12_DRED_ENABLEMENT_SYSTEM_CONTROLLED,
};
use crate::foundation::{
    DBG_PRINTEXCEPTION_C, DBG_PRINTEXCEPTION_WIDE_C, EXCEPTION_CONTINUE_EXECUTION,
    EXCEPTION_CONTINUE_SEARCH,
};
use crate::utility::{Error, RawHandle};
use vstd::prelude::*;

verus! {

/// The characters that `bytes` spell in UTF-8, or `None` where they are not
/// valid UTF-8.
pub uninterp spec fn utf8_strict(bytes: Seq<u8>) -> Option<Seq<char>>;

/// The characters that `units` spell in UTF-16, or `None` where they are not
/// valid UTF-16.
pub uninterp spec fn utf16_strict(units: Seq<u16>) -> Option<Seq<char>>;

/// The view of an optional string.
pub open spec fn message_view(message: Option<String>) -> Option<Seq<char>> {
    match message {
        Some(m) => Some(m@),
        None => None,
    }
}

/// `core::str::from_utf8` of std: the text of `bytes` where they are valid UTF-8.
/// The result is named by `utf8_strict`; nothing more is claimed of it.
#[verifier::external_body]
pub(crate) fn string_from_utf8(bytes: &[u8]) -> (s: Option<String>)
    ensures
        message_view(s) == utf8_strict(bytes@),
{
    match core::str::from_utf8(bytes) {
        Ok(text) => Some(text.to_owned()),
        Err(_) => None,
    }
}

/// `String::from_utf16` of std: the text of `units` where they are valid UTF-16.
/// The result is named by `utf16_strict`; nothing more is claimed of it.
#[verifier::external_body]
pub(crate) fn string_from_utf16(units: &[u16]) -> (s: Option<String>)
    ensures
        message_view(s) == utf16_strict(units@),
{
    match String::from_utf16(units) {
        Ok(text) => Some(text),
        Err(_) => None,
    }
}

/// What enabling the debug layer gives for the outcome of fetching its interface.
pub open spec fn enabled(fetched: Result<RawHandle, Error>) -> Result<(), Error> {
    match fetched {
        Ok(_) => Ok(()),
        Err(e) => Err(e),
    }
}

/// Enables the debug layer: fetches its interface by `get_debug_interface`, and,
/// where that succeeds, enables it by `enable`, which is handed the interface.
pub fn enable_debug_layer<G, E>(get_debug_interface: G, enable: E) -> (r: Result<(), Error>)
    where G: FnOnce() -> Result<RawHandle, Error>, E: FnOnce(RawHandle) -> ()
    requires
        get_debug_interface.requires(()),
        forall|debug: RawHandle| #[trigger] enable.requires((debug,)),
    ensures
        exists|fetched: Result<RawHandle, Error>| #[trigger]
            get_debug_interface.ensures((), fetched) && r == enabled(fetched),
{
    let fetched = get_debug_interface();
    match fetched {
        Ok(debug) => {
            enable(debug);
            Ok(())
        },
        Err(e) => Err(e),
    }
}

/// What an exception record says, as far as a debug string is read from it: the
/// code, the number of its parameters, and its first two parameters.
#[derive(Clone, Copy, PartialEq, Eq, Structural, Debug)]
pub struct ExceptionRecord {
    pub code: i32,
    pub number_parameters: u32,
    pub information0: usize,
    pub information1: usize,
}

/// What the handler is handed: nothing where the pointers are null, no record
/// where the pointer to the record is null, else the record.
#[derive(Clone, Copy, PartialEq, Eq, Structural, Debug)]
pub enum ExceptionPointers {
    Null,
    NullRecord,
    Record(ExceptionRecord),
}

/// The debug string that a record carries: where it lies and how many units of
/// it are text. The length that the record gives counts the zero behind the text.
#[derive(Clone, Copy, PartialEq, Eq, Structural, Debug)]
pub enum DebugText {
    /// The record carries no debug string.
    Absent,
    /// Bytes at `data`, `len` of them.
    Ansi { data: usize, len: usize },
    /// 16-bit units at `data`, `len` of them.
    Wide { data: usize, len: usize },
}

/// The debug string that `pointers` carry.
pub open spec fn debug_text(pointers: ExceptionPointers) -> DebugText {
    match pointers {
        ExceptionPointers::Record(record) => if record.number_parameters < 2
            || record.information0 < 2 {
            DebugText::Absent
        } else if record.code == DBG_PRINTEXCEPTION_C {
            DebugText::Ansi { data: record.information1, len: (record.information0 - 1) as usize }
        } else if record.code == DBG_PRINTEXCEPTION_WIDE_C {
            DebugText::Wide { data: record.information1, len: (record.information0 - 1) as usize }
        } else {
            DebugText::Absent
        },
        _ => DebugText::Absent,
    }
}

/// What the handler answers: to go on with the execution where it was handed
/// no record, else to go on with the search for a handler.
pub open spec fn disposition(pointers: ExceptionPointers) -> i32 {
    match pointers {
        ExceptionPointers::Record(_) => EXCEPTION_CONTINUE_SEARCH,
        _ => EXCEPTION_CONTINUE_EXECUTION,
    }
}

/// Whether `message` is what the debug string `text` decodes to, its memory read
/// by `read_ansi` or by `read_wide`: nothing where there is no debug string or
/// where it is no valid text.
pub open spec fn decoded<A, W>(
    read_ansi: A,
    read_wide: W,
    text: DebugText,
    message: Option<String>,
) -> bool
    where A: FnOnce(usize, usize) -> Vec<u8>, W: FnOnce(usize, usize) -> Vec<u16> {
    match text {
        DebugText::Absent => message.is_none(),
        DebugText::Ansi { data, len } => exists|bytes: Vec<u8>| #[trigger]
            read_ansi.ensures((data, len), bytes) && message_view(message) == utf8_strict(bytes@),
        DebugText::Wide { data, len } => exists|units: Vec<u16>| #[trigger]
            read_wide.ensures((data, len), units) && message_view(message) == utf16_strict(units@),
    }
}

/// Handles an exception that may carry a debug string.
///
/// The answer is the disposition and, where the exception carries a debug
/// string that is valid text, the message that the registered handlers are to
/// be called with. The memory of the string is read by `read_ansi` or by
/// `read_wide`, which are handed its address and its length.
pub fn exception_handler_proc<A, W>(pointers: ExceptionPointers, read_ansi: A, read_wide: W) -> (r: (
    i32,
    Option<String>,
))
    where A: FnOnce(usize, usize) -> Vec<u8>, W: FnOnce(usize, usize) -> Vec<u16>
    requires
        forall|data: usize, len: usize| #[trigger] read_ansi.requires((data, len)),
        forall|data: usize, len: usize| #[trigger] read_wide.requires((data, len)),
    ensures
        r.0 == disposition(pointers),
        decoded(read_ansi, read_wide, debug_text(pointers), r.1),
{
    match pointers {
        ExceptionPointers::Null => (EXCEPTION_CONTINUE_EXECUTION, None),
        ExceptionPointers::NullRecord => (EXCEPTION_CONTINUE_EXECUTION, None),
        ExceptionPointers::Record(record) => {
            if record.number_parameters < 2 {
                return (EXCEPTION_CONTINUE_SEARCH, None);
            }
            let len = record.information0;
            if record.code == DBG_PRINTEXCEPTION_C {
                if len >= 2 {
                    let bytes = read_ansi(record.information1, len - 1);
                    let message = string_from_utf8(bytes.as_slice());
                    proof {
                        let text = debug_text(pointers);
                        assert(text matches DebugText::Ansi { data: d, len: l }
                            && read_ansi.ensures((d, l), bytes));
                    }
                    return (EXCEPTION_CONTINUE_SEARCH, message);
                }
            } else if record.code == DBG_PRINTEXCEPTION_WIDE_C {
                if len >= 2 {
                    let units = read_wide(record.information1, len - 1);
                    let message = string_from_utf16(units.as_slice());
                    proof {
                        let text = debug_text(pointers);
                        assert(text matches DebugText::Wide { data: d, len: l }
                            && read_wide.ensures((d, l), units));
                    }
                    return (EXCEPTION_CONTINUE_SEARCH, message);
                }
            }
            (EXCEPTION_CONTINUE_SEARCH, None)
        },
    }
}

/// Whether extended data about a removed device is gathered.
#[derive(Clone, Copy, PartialEq, Eq, Structural, Debug, Hash)]
pub enum DredEnablement {
    SystemControlled,
    ForceOn,
    ForceOff,
}

impl Default for DredEnablement {
    fn default() -> (r: Self)
        ensures
            r == DredEnablement::SystemControlled,
    {
        DredEnablement::SystemControlled
    }
}

impl DredEnablement {
    /// The value by which the native layer knows the setting.
    pub open spec fn native(self) -> i32 {
        match self {
            DredEnablement::SystemControlled => D3D12_DRED_ENABLEMENT_SYSTEM_CONTROLLED,
            DredEnablement::ForceOn => D3D12_DRED_ENABLEMENT_FORCED_ON,
            DredEnablement::ForceOff => D3D12_DRED_ENABLEMENT_FORCED_OFF,
        }
    }
}

impl From<DredEnablement> for i32 {
    fn from(value: DredEnablement) -> (r: Self) {
        match value {
            DredEnablement::SystemControlled => D3D12_DRED_ENABLEMENT_SYSTEM_CONTROLLED,
            DredEnablement::ForceOn => D3D12_DRED_ENABLEMENT_FORCED_ON,
            DredEnablement::ForceOff => D3D12_DRED_ENABLEMENT_FORCED_OFF,
        }
    }
}

impl vstd::std_specs::convert::FromSpecImpl<DredEnablement> for i32 {
    open spec fn obeys_from_spec() -> bool {
        true
    }

    open spec fn from_spec(value: DredEnablement) -> Self {
        value.native()
    }
}

/// The settings of the extended data about a removed device. Each setter hands
/// the native layer the value of the setting by the call that it is given.
#[derive(Clone, Copy, PartialEq, Eq, Structural, Debug)]
pub struct DeviceRemovedExtendedDataSettings {
    pub raw: RawHandle,
}

impl DeviceRemovedExtendedDataSettings {
    /// Takes the outcome of the native call that fetches the settings interface.
    pub fn new(fetched: Result<RawHandle, Error>) -> (r: Result<Self, Error>)
        ensures
            r == match fetched {
                Ok(raw) => Ok::<DeviceRemovedExtendedDataSettings, Error>(
                    DeviceRemovedExtendedDataSettings { raw },
                ),
                Err(e) => Err::<DeviceRemovedExtendedDataSettings, Error>(e),
            },
    {
        match fetched {
            Ok(raw) => Ok(DeviceRemovedExtendedDataSettings { raw }),
            Err(e) => Err(e),
        }
    }

    pub fn set_auto_breadcrumbs_enablement<F>(self, enablement: DredEnablement, set: F) -> (r: Self)
        where F: FnOnce(RawHandle, i32) -> ()
        requires
            set.requires((self.raw, enablement.native())),
        ensures
            r == self,
            set.ensures((self.raw, enablement.native()), ()),
    {
        set(self.raw, i32::from(enablement));
        self
    }

    pub fn set_page_fault_enablement<F>(self, enablement: DredEnablement, set: F) -> (r: Self)
        where F: FnOnce(RawHandle, i32) -> ()
        requires
            set.requires((self.raw, enablement.native())),
        ensures
            r == self,
            set.ensures((self.raw, enablement.native()), ()),
    {
        set(self.raw, i32::from(enablement));
        self
    }

    pub fn set_watson_dump_enablement<F>(self, enablement: DredEnablement, set: F) -> (r: Self)
        where F: FnOnce(RawHandle, i32) -> ()
        requires
            set.requires((self.raw, enablement.native())),
        ensures
            r == self,
            set.ensures((self.raw, enablement.native()), ()),
    {
        set(self.raw, i32::from(enablement));
        self
    }

    pub fn set_breadcrumb_context_enablement<F>(
        self,
        enablement: DredEnablement,
        set: F,
    ) -> (r: Self)
        where F: FnOnce(RawHandle, i32) -> ()
        requires
            set.requires((self.raw, enablement.native())),
        ensures
            r == self,
            set.ensures((self.raw, enablement.native()), ()),
    {
        set(self.raw, i32::from(enablement));
        self
    }
}

} // verus!
