use vstd::prelude::*;
use crate::guid::{
    Guid, GuidView, component_clsid, component_clsid_view, idkm_call_stack_filter_iid,
    idkm_call_stack_filter_iid_view, is_iunknown_iid, iunknown_iid_view,
};
use crate::hresult::{HResult, CLASS_E_CLASSNOTAVAILABLE, E_INVALIDARG, E_NOINTERFACE, E_NOTIMPL, S_OK};
use crate::frames::{hello_frame, is_hello_frame, FrameSpec};
use crate::refcount::{apply_ref_op, count_can_grow, count_fits, strong_count, RefOp, weak_ref_count_add_ref, weak_ref_count_new, weak_ref_count_release};

verus! {

/// Which of the object's interface pointers a query hands out.
#[derive(Clone, Copy, Debug, PartialEq, Eq, Structural)]
pub enum InterfaceSlot {
    /// The identity pointer, which answers `IUnknown`.
    Identity,
    /// The `IDkmCallStackFilter` pointer.
    CallStackFilter,
}

/// The interface pointer that a query for `iid` hands out, if any.
pub open spec fn slot_for(iid: GuidView) -> Option<InterfaceSlot> {
    if iid == iunknown_iid_view() {
        Some(InterfaceSlot::Identity)
    } else if iid == idkm_call_stack_filter_iid_view() {
        Some(InterfaceSlot::CallStackFilter)
    } else {
        None
    }
}

/// The call-stack filter itself.
#[derive(Clone, Copy, Debug)]
pub struct MyFrameFilter;

impl MyFrameFilter {
    /// Asked for the frame after `input` (none at the start of a walk): at the
    /// start it inserts one frame, the hello frame; after any frame it has
    /// nothing to add.
    pub fn FilterNextFrame<T>(&self, input: &Option<T>) -> (r: Option<Vec<FrameSpec>>)
        ensures
            input is Some ==> r is None,
            input is None ==> (r matches Some(frames) && frames@.len() == 1 && is_hello_frame(frames@[0])),
    {
        match input {
            Some(_) => None,
            None => {
                let mut frames: Vec<FrameSpec> = Vec::new();
                frames.push(hello_frame());
                Some(frames)
            },
        }
    }
}

/// A COM object that wraps a filter, with the reference count kept by the
/// `windows` crate.  When a release leaves no reference, its owner frees it.
pub struct MyFrameFilter_box {
    implementation: MyFrameFilter,
    count: windows::WeakRefCount,
}

impl MyFrameFilter_box {
    /// The number of references held to the object.
    pub closed spec fn ref_count(&self) -> nat {
        strong_count(self.count)
    }

    /// A new object around `implementation`, with the one reference that its
    /// creator holds.
    pub fn new(implementation: MyFrameFilter) -> (b: MyFrameFilter_box)
        ensures
            b.ref_count() == 1,
    {
        MyFrameFilter_box { implementation, count: weak_ref_count_new() }
    }

    /// Answers a query for `iid`: the identity pointer for `IUnknown`, the
    /// filter pointer for `IDkmCallStackFilter`, one more reference for either;
    /// `E_NOINTERFACE` and no reference for anything else.
    pub fn QueryInterface(&mut self, iid: &Guid) -> (r: (HResult, Option<InterfaceSlot>))
        requires
            slot_for(iid@) is Some ==> count_can_grow(old(self).ref_count()),
        ensures
            r.1 == slot_for(iid@),
            r.1 is Some ==> r.0 == HResult(S_OK) && final(self).ref_count() == apply_ref_op(old(self).ref_count() as int, RefOp::AddRef),
            r.1 is None ==> r.0 == HResult(E_NOINTERFACE) && final(self).ref_count() == old(self).ref_count(),
    {
        let slot = if is_iunknown_iid(iid) {
            Some(InterfaceSlot::Identity)
        } else if iid.same_as(&idkm_call_stack_filter_iid()) {
            Some(InterfaceSlot::CallStackFilter)
        } else {
            None
        };
        match slot {
            Some(_) => {
                self.AddRef();
                (HResult(S_OK), slot)
            },
            None => (HResult(E_NOINTERFACE), None),
        }
    }

    /// Takes one more reference and returns the new count.
    pub fn AddRef(&mut self) -> (r: u32)
        requires
            count_can_grow(old(self).ref_count()),
        ensures
            final(self).ref_count() == apply_ref_op(old(self).ref_count() as int, RefOp::AddRef),
            r == final(self).ref_count(),
    {
        weak_ref_count_add_ref(&mut self.count)
    }

    /// Gives one reference back and returns what remains; at 0 the object is
    /// to be freed.
    pub fn Release(&mut self) -> (r: u32)
        requires
            old(self).ref_count() >= 1,
            count_fits(old(self).ref_count()),
        ensures
            final(self).ref_count() == apply_ref_op(old(self).ref_count() as int, RefOp::Release),
            r == final(self).ref_count(),
    {
        weak_ref_count_release(&mut self.count)
    }
}

/// The component's class factory.
#[derive(Clone, Copy, Debug)]
pub struct ComponentClassFactory;

impl ComponentClassFactory {
    /// Creates a filter object and queries it for `riid`.  Aggregation is not
    /// supported: with an outer object the answer is `E_INVALIDARG`.  A
    /// successful query leaves the caller the object's only reference; a
    /// failed one releases the new object's last reference, so that it is
    /// freed, and answers `E_NOINTERFACE`.
    pub fn CreateInstance<T>(&self, outer: &Option<T>, riid: &Guid) -> (r: (
        HResult,
        Option<(MyFrameFilter_box, InterfaceSlot)>,
    ))
        ensures
            outer is Some ==> r.0 == HResult(E_INVALIDARG) && r.1 is None,
            outer is None && slot_for(riid@) is None ==> r.0 == HResult(E_NOINTERFACE) && r.1 is None,
            outer is None && slot_for(riid@) is Some ==> {
                &&& r.0 == HResult(S_OK)
                &&& r.1 matches Some(created) && {
                    &&& Some(created.1) == slot_for(riid@)
                    &&& created.0.ref_count() == 1
                }
            },
    {
        if outer.is_some() {
            return (HResult(E_INVALIDARG), None);
        }
        let mut object = MyFrameFilter_box::new(MyFrameFilter);
        let (hr, slot) = object.QueryInterface(riid);
        // the creator's own interface pointer goes out of scope
        let _remaining = object.Release();
        match slot {
            Some(s) => (hr, Some((object, s))),
            None => (hr, None),
        }
    }

    /// `LockServer`, which the component does not implement.
    pub fn LockServer(&self, flock: i32) -> (hr: HResult)
        ensures
            hr == HResult(E_NOTIMPL),
    {
        HResult(E_NOTIMPL)
    }
}

/// `DllGetClassObject`: the class factory for this component's class
/// identifier, which the caller then queries; `CLASS_E_CLASSNOTAVAILABLE`
/// for any other class.
pub fn get_class_object(rclsid: &Guid) -> (r: Result<ComponentClassFactory, HResult>)
    ensures
        r is Ok <==> rclsid@ == component_clsid_view(),
        r is Err ==> r == Err::<ComponentClassFactory, HResult>(HResult(CLASS_E_CLASSNOTAVAILABLE)),
{
    if rclsid.same_as(&component_clsid()) {
        Ok(ComponentClassFactory)
    } else {
        Err(HResult(CLASS_E_CLASSNOTAVAILABLE))
    }
}

} // verus!
