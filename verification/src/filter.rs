use vstd::prelude::*;
use crate::guid::{
    Guid, GuidView, component_clsid, component_clsid_view, iclassfactory_iid,
    iclassfactory_iid_view, idkm_call_stack_filter_iid, idkm_call_stack_filter_iid_view,
    is_iunknown_iid, iunknown_iid_view,
};
use crate::refcount::{apply_ref_op, RefOp};
use crate::hresult::{HResult, CLASS_E_CLASSNOTAVAILABLE, E_NOINTERFACE, E_NOTIMPL, S_OK};
use crate::frames::{hello_frame, marshal_frames, DkmArray, FrameSpec};

verus! {

/// Whether a call-stack filter object answers a query for `iid`: it is
/// both an `IUnknown` and an `IDkmCallStackFilter`.
pub open spec fn filter_supports(iid: GuidView) -> bool {
    iid == iunknown_iid_view() || iid == idkm_call_stack_filter_iid_view()
}

/// Whether the class factory answers a query for `iid`: it is both an
/// `IUnknown` and an `IClassFactory`.
pub open spec fn class_factory_supports(iid: GuidView) -> bool {
    iid == iunknown_iid_view() || iid == iclassfactory_iid_view()
}

/// What a `QueryInterface` reports: `S_OK` when the interface is there,
/// `E_NOINTERFACE` when it is not.
pub open spec fn query_status(supported: bool) -> HResult {
    if supported { HResult(S_OK) } else { HResult(E_NOINTERFACE) }
}

/// A call-stack filter object, counting the references that are held to it.
/// When a release leaves no reference, its owner frees it.
pub struct MyFrameFilter {
    count: u32,
}

impl MyFrameFilter {
    /// The number of references held to the object.
    pub closed spec fn ref_count(&self) -> nat {
        self.count as nat
    }

    /// A new object, with the one reference that its creator holds.
    pub fn new() -> (f: MyFrameFilter)
        ensures
            f.ref_count() == 1,
    {
        MyFrameFilter { count: 1 }
    }

    /// The number of references held to the object, so that a caller can
    /// check it before `AddRef` or `Relese`.
    pub fn count(&self) -> (r: u32)
        ensures
            r == self.ref_count(),
    {
        self.count
    }

    /// Takes one more reference and returns the new count.
    pub fn AddRef(&mut self) -> (r: u32)
        requires
            old(self).ref_count() < u32::MAX,
        ensures
            final(self).ref_count() == apply_ref_op(old(self).ref_count() as int, RefOp::AddRef),
            r == final(self).ref_count(),
    {
        self.count = self.count + 1;
        self.count
    }

    /// Gives one reference back and returns what remains; at 0 the object
    /// is to be freed.
    pub fn Relese(&mut self) -> (r: u32)
        requires
            old(self).ref_count() >= 1,
        ensures
            final(self).ref_count() == apply_ref_op(old(self).ref_count() as int, RefOp::Release),
            r == final(self).ref_count(),
    {
        self.count = self.count - 1;
        self.count
    }

    /// Answers a query for `iid`: on success the caller's out-pointer gets
    /// the object and one reference is taken for it.
    pub fn QueryInterface(&mut self, iid: &Guid) -> (hr: HResult)
        requires
            filter_supports(iid@) ==> old(self).ref_count() < u32::MAX,
        ensures
            hr == query_status(filter_supports(iid@)),
            final(self).ref_count() == if filter_supports(iid@) {
                apply_ref_op(old(self).ref_count() as int, RefOp::AddRef)
            } else {
                old(self).ref_count() as int
            },
    {
        if is_iunknown_iid(iid) || iid.same_as(&idkm_call_stack_filter_iid()) {
            self.AddRef();
            HResult(S_OK)
        } else {
            HResult(E_NOINTERFACE)
        }
    }
}

/// `QueryInterface` of the component's class factory: the factory hands
/// itself out for `IUnknown` and `IClassFactory`.
pub fn class_factory_query_interface(riid: &Guid) -> (hr: HResult)
    ensures
        hr == query_status(class_factory_supports(riid@)),
{
    if is_iunknown_iid(riid) || riid.same_as(&iclassfactory_iid()) {
        HResult(S_OK)
    } else {
        HResult(E_NOINTERFACE)
    }
}

/// `AddRef` of the class factory, which lives as long as the module and so
/// always reports one reference.
pub fn class_factory_addref() -> (r: u32)
    ensures
        r == 1,
{
    1
}

/// `Release` of the class factory, which lives as long as the module and so
/// always reports one reference.
pub fn class_factory_release() -> (r: u32)
    ensures
        r == 1,
{
    1
}

/// `CreateInstance` of the class factory: for an interface that a filter
/// supports, a new filter object whose single reference goes to the caller;
/// otherwise `E_NOINTERFACE` and nothing.
pub fn class_factory_create_instance(riid: &Guid) -> (r: (HResult, Option<MyFrameFilter>))
    ensures
        r.0 == query_status(filter_supports(riid@)),
        filter_supports(riid@) ==> (r.1 matches Some(f) && f.ref_count() == 1),
        !filter_supports(riid@) ==> r.1 is None,
{
    if is_iunknown_iid(riid) || riid.same_as(&idkm_call_stack_filter_iid()) {
        let mut f = MyFrameFilter::new();
        // the reference that the caller's out-pointer takes
        f.AddRef();
        // the temporary interface pointer that goes out of scope
        f.Relese();
        (HResult(S_OK), Some(f))
    } else {
        (HResult(E_NOINTERFACE), None)
    }
}

/// `LockServer` of the class factory, which the component does not implement.
pub fn class_factory_lock_server(flock: i32) -> (hr: HResult)
    ensures
        hr == HResult(E_NOTIMPL),
{
    HResult(E_NOTIMPL)
}

/// `DllGetClassObject`: the class factory is handed out for this
/// component's class identifier and for no other.
pub fn dll_get_class_object(rclsid: &Guid) -> (hr: HResult)
    ensures
        hr == if rclsid@ == component_clsid_view() {
            HResult(S_OK)
        } else {
            HResult(CLASS_E_CLASSNOTAVAILABLE)
        },
{
    if rclsid.same_as(&component_clsid()) {
        HResult(S_OK)
    } else {
        HResult(CLASS_E_CLASSNOTAVAILABLE)
    }
}

/// `FilterNextFrame` of the filter object: at the start of a walk (no input
/// frame) it reports one frame, the hello frame, in an array of one
/// pointer-sized slot; for any input frame it reports `S_FALSE` and nothing.
pub fn filter_next_frame(input_is_null: bool) -> (r: (HResult, Option<(usize, DkmArray<FrameSpec>)>))
    ensures
        !input_is_null ==> r.0 == HResult(crate::hresult::S_FALSE) && r.1 is None,
        input_is_null ==> {
            &&& r.0 == HResult(S_OK)
            &&& r.1 matches Some(reply) && {
                &&& reply.0 == vstd::layout::size_of::<usize>()
                &&& reply.1.length == 1
                &&& reply.1.members@.len() == 1
                &&& crate::frames::is_hello_frame(reply.1.members@[0])
            }
        },
{
    if input_is_null {
        let mut frames: Vec<FrameSpec> = Vec::new();
        frames.push(hello_frame());
        marshal_frames(Some(frames))
    } else {
        marshal_frames(None)
    }
}

} // verus!
