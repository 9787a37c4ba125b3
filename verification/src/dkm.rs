use vstd::prelude::*;

verus! {

/// How the debug engine is asked to format a frame's name, as it lays the
/// options out.
#[derive(Clone, Copy, Debug, PartialEq, Eq, Structural)]
pub struct DkmFrameFormatOptions {
    pub argument_flags: i32,
    pub frame_name_format: i32,
    pub evaluation_flags: i32,
    pub timeout: u32,
    pub radix: u32,
}

} // verus!
