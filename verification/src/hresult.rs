use vstd::prelude::*;

verus! {

/// A COM status code, bit for bit as the ABI passes it.
#[derive(Clone, Copy, Debug, PartialEq, Eq, Structural)]
pub struct HResult(pub u32);

/// Success.
pub const S_OK: u32 = 0;

/// Success, with nothing more to report (a filter uses it to end a walk).
pub const S_FALSE: u32 = 1;

/// The method is not implemented.
pub const E_NOTIMPL: u32 = 0x8000_4001;

/// The object does not support the requested interface.
pub const E_NOINTERFACE: u32 = 0x8000_4002;

/// One or more arguments are not valid.
pub const E_INVALIDARG: u32 = 0x8007_0057;

/// The class factory cannot supply the requested class.
pub const CLASS_E_CLASSNOTAVAILABLE: u32 = 0x8004_0111;

} // verus!
