use vstd::prelude::*;
use crate::hresult::{HResult, S_OK, S_FALSE};

verus! {

/// The stack-walk frame that the filter asks the debug engine to create.
/// The frame is created on the thread of the stack context being walked,
/// with no instruction address, no registers and no annotations.
#[derive(Clone, Copy, Debug)]
pub struct FrameSpec {
    pub frame_base: u64,
    pub frame_size: u32,
    /// `DkmStackWalkFrameFlags`; 0 is `None`.
    pub flags: u32,
    pub description: &'static str,
}

/// The code page in which a frame's description is handed to the debug
/// engine: UTF-8.
pub const DESCRIPTION_CODE_PAGE: u32 = 65001;

/// The text of the frame that the filter inserts.
pub open spec fn hello_description() -> Seq<char> {
    "[hello from rust]"@
}

/// The frame that the filter inserts at the top of a walk: base and size 0,
/// no flags, and the description above.
pub open spec fn is_hello_frame(f: FrameSpec) -> bool {
    &&& f.frame_base == 0
    &&& f.frame_size == 0
    &&& f.flags == 0
    &&& f.description@ == hello_description()
}

/// Builds the frame that the filter inserts.
pub fn hello_frame() -> (f: FrameSpec)
    ensures
        is_hello_frame(f),
{
    FrameSpec {
        frame_base: 0,
        frame_size: 0,
        flags: 0,
        description: "[hello from rust]",
    }
}

/// An array of frame pointers handed back to the debug engine: the members
/// and the length field that the engine reads.
pub struct DkmArray<T> {
    pub members: Vec<T>,
    pub length: u32,
}

/// Turns a filter's answer into what `FilterNextFrame` reports: `S_FALSE`
/// and no array when the filter has nothing to say; otherwise `S_OK`, the
/// number of bytes to allocate (one pointer-sized slot per frame), and an
/// array holding the frames in order, with their number truncated to `u32`
/// as the length field.
pub fn marshal_frames<T: Copy>(result: Option<Vec<T>>) -> (r: (HResult, Option<(usize, DkmArray<T>)>))
    requires
        result matches Some(frames) ==> vstd::layout::size_of::<usize>() * frames.len() <= usize::MAX,
    ensures
        result is None ==> r.0 == HResult(S_FALSE) && r.1 is None,
        result matches Some(frames) ==> {
            &&& r.0 == HResult(S_OK)
            &&& r.1 matches Some(reply) && {
                &&& reply.0 == vstd::layout::size_of::<usize>() * frames.len()
                &&& reply.1.length == frames.len() as u32
                &&& reply.1.members@ == frames@
            }
        },
{
    match result {
        None => (HResult(S_FALSE), None),
        Some(frames) => {
            let slot = core::mem::size_of::<usize>();
            let bytes = slot * frames.len();
            let length = frames.len() as u32;
            let mut members: Vec<T> = Vec::new();
            let mut n: usize = 0;
            while n < frames.len()
                invariant
                    n <= frames.len(),
                    members@ == frames@.subrange(0, n as int),
                decreases frames.len() - n,
            {
                members.push(frames[n]);
                n = n + 1;
            }
            assert(members@ =~= frames@);
            (HResult(S_OK), Some((bytes, DkmArray { members, length })))
        },
    }
}

} // verus!
