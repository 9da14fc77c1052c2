use vstd::prelude::*;

verus! {

// Status and exception codes of the operating system that the library reads.

pub const E_ABORT: i32 = -2147467260;

pub const E_POINTER: i32 = -2147467261;

pub const E_FAIL: i32 = -2147467259;

pub const WAIT_OBJECT_0: u32 = 0;

pub const INFINITE: u32 = 4294967295;

pub const DBG_PRINTEXCEPTION_C: i32 = 1073807366;

pub const DBG_PRINTEXCEPTION_WIDE_C: i32 = 1073807370;

pub const EXCEPTION_CONTINUE_EXECUTION: i32 = -1;

pub const EXCEPTION_CONTINUE_SEARCH: i32 = 0;

} // verus!
