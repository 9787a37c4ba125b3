use vstd::prelude::*;
use crate::guid::{GuidView, iclassfactory_iid_view, idkm_call_stack_filter_iid_view, iunknown_iid_view};
use crate::guid::component_clsid_view;
use crate::filter::{class_factory_supports, filter_supports, query_status};
use crate::frames::{is_hello_frame, FrameSpec};
use crate::hresult::{HResult, CLASS_E_CLASSNOTAVAILABLE, E_INVALIDARG, E_NOINTERFACE, E_NOTIMPL, S_FALSE, S_OK};
use crate::component::{slot_for, InterfaceSlot};
use crate::refcount::{apply_ref_op, apply_ref_ops, net_refs, RefOp};

verus! {

/// The trailing eight bytes shared by the identifiers of the standard OLE
/// interfaces: `C000-000000000046`.
pub open spec fn ole_tail() -> Seq<u8> {
    seq![0xC0u8, 0x00u8, 0x00u8, 0x00u8, 0x00u8, 0x00u8, 0x00u8, 0x46u8]
}

/// The class factory answers a query for exactly two interfaces, whatever
/// is asked: `IUnknown` (`00000000-0000-0000-C000-000000000046`) and
/// `IClassFactory` (`00000001-0000-0000-C000-000000000046`).  Any other
/// identifier, among them every other standard OLE interface such as
/// `IMarshal` (`00000003-...`), is refused.
pub proof fn lemma_class_factory_answers_exactly_its_interfaces(iid: GuidView)
    ensures
        class_factory_supports(iid) <==> {
            &&& iid.0 == 0u32 || iid.0 == 1u32
            &&& iid.1 == 0u16
            &&& iid.2 == 0u16
            &&& iid.3 == ole_tail()
        },
{
    assert(iunknown_iid_view().3 =~= ole_tail());
    assert(iclassfactory_iid_view().3 =~= ole_tail());
}

/// A filter object answers a query for exactly two interfaces, whatever is
/// asked: `IUnknown` and `IDkmCallStackFilter`
/// (`56f90ba7-54a6-001e-c419-0c8b60821376`).
pub proof fn lemma_filter_answers_exactly_its_interfaces(iid: GuidView)
    ensures
        filter_supports(iid) <==> {
            ||| iid == (0u32, 0u16, 0u16, ole_tail())
            ||| iid == (0x56f90ba7u32, 0x54a6u16, 0x001eu16,
                seq![0xc4u8, 0x19u8, 0x0cu8, 0x8bu8, 0x60u8, 0x82u8, 0x13u8, 0x76u8])
        },
{
    assert(iunknown_iid_view().3 =~= ole_tail());
    let t = seq![0xc4u8, 0x19u8, 0x0cu8, 0x8bu8, 0x60u8, 0x82u8, 0x13u8, 0x76u8];
    assert(idkm_call_stack_filter_iid_view().3 =~= t);
}

/// The wrapped filter object hands out a pointer for exactly two
/// identifiers: its identity pointer for `IUnknown`, its filter pointer for
/// `IDkmCallStackFilter`, and nothing for any other.
pub proof fn lemma_wrapped_filter_slots(iid: GuidView)
    ensures
        slot_for(iid) == Some(InterfaceSlot::Identity) <==> iid == (0u32, 0u16, 0u16, ole_tail()),
        slot_for(iid) == Some(InterfaceSlot::CallStackFilter) <==> iid == (
            0x56f90ba7u32,
            0x54a6u16,
            0x001eu16,
            seq![0xc4u8, 0x19u8, 0x0cu8, 0x8bu8, 0x60u8, 0x82u8, 0x13u8, 0x76u8],
        ),
        slot_for(iid) is None <==> !filter_supports(iid),
{
    assert(iunknown_iid_view().3 =~= ole_tail());
    let t = seq![0xc4u8, 0x19u8, 0x0cu8, 0x8bu8, 0x60u8, 0x82u8, 0x13u8, 0x76u8];
    assert(idkm_call_stack_filter_iid_view().3 =~= t);
}

/// The component's class factory is handed out for exactly one class
/// identifier, `9010c723-0091-47af-b287-5d529d29107b`.
pub proof fn lemma_component_class_identifier(rclsid: GuidView)
    ensures
        rclsid == component_clsid_view() <==> rclsid == (
            0x9010c723u32,
            0x0091u16,
            0x47afu16,
            seq![0xb2u8, 0x87u8, 0x5du8, 0x52u8, 0x9du8, 0x29u8, 0x10u8, 0x7bu8],
        ),
{
    let t = seq![0xb2u8, 0x87u8, 0x5du8, 0x52u8, 0x9du8, 0x29u8, 0x10u8, 0x7bu8];
    assert(component_clsid_view().3 =~= t);
}

/// A query reports `S_OK` (0) when the interface is there and
/// `E_NOINTERFACE` (`0x80004002`) when it is not, and the two never coincide.
pub proof fn lemma_query_status_codes(supported: bool)
    ensures
        query_status(supported) == HResult(if supported { 0u32 } else { 0x8000_4002u32 }),
        query_status(supported) == query_status(true) <==> supported,
{
}

/// Each `AddRef` takes exactly one reference and each `Release` gives exactly
/// one back, from any count.
pub proof fn lemma_one_reference_per_call(count: int)
    ensures
        apply_ref_op(count, RefOp::AddRef) == count + 1,
        apply_ref_op(count, RefOp::Release) == count - 1,
        apply_ref_op(apply_ref_op(count, RefOp::AddRef), RefOp::Release) == count,
{
}

/// The frame the filter inserts is, in full: base 0, size 0, no flags, and
/// the description `[hello from rust]`.
pub proof fn lemma_hello_frame_is_fixed(f: FrameSpec)
    ensures
        is_hello_frame(f) <==> {
            &&& f.frame_base == 0u64
            &&& f.frame_size == 0u32
            &&& f.flags == 0u32
            &&& f.description@ == "[hello from rust]"@
        },
{
}

/// The status codes the component reports are the COM values: `S_OK` 0,
/// `S_FALSE` 1, `E_NOTIMPL` `0x80004001`, `E_NOINTERFACE` `0x80004002`,
/// `E_INVALIDARG` `0x80070057`, `CLASS_E_CLASSNOTAVAILABLE` `0x80040111`.
pub proof fn lemma_status_codes_are_the_com_values()
    ensures
        S_OK == 0u32,
        S_FALSE == 1u32,
        E_NOTIMPL == 0x8000_4001u32,
        E_NOINTERFACE == 0x8000_4002u32,
        E_INVALIDARG == 0x8007_0057u32,
        CLASS_E_CLASSNOTAVAILABLE == 0x8004_0111u32,
{
}

/// Every object of the component answers a query for `IUnknown`: the filter
/// object, the class factory, and the wrapped filter object, which hands out
/// its identity pointer for it.
pub proof fn lemma_every_object_answers_iunknown()
    ensures
        filter_supports(iunknown_iid_view()),
        class_factory_supports(iunknown_iid_view()),
        slot_for(iunknown_iid_view()) == Some(InterfaceSlot::Identity),
{
}

/// Each object answers exactly its own interfaces: the class factory is no
/// call-stack filter, and a filter is no class factory.
pub proof fn lemma_objects_keep_their_interfaces()
    ensures
        !class_factory_supports(idkm_call_stack_filter_iid_view()),
        !filter_supports(iclassfactory_iid_view()),
{
}

/// The wrapped filter object hands out its identity pointer exactly for
/// `IUnknown` and its filter pointer exactly for `IDkmCallStackFilter`.
pub proof fn lemma_slots_name_one_interface_each(iid: GuidView)
    ensures
        slot_for(iid) == Some(InterfaceSlot::Identity) <==> iid == iunknown_iid_view(),
        slot_for(iid) == Some(InterfaceSlot::CallStackFilter) <==> iid == idkm_call_stack_filter_iid_view(),
{
}

/// Both filter objects answer the same interfaces: a query that the plain
/// filter object answers is one that the wrapped object answers, and back.
pub proof fn lemma_filter_objects_agree(iid: GuidView)
    ensures
        filter_supports(iid) <==> slot_for(iid) is Some,
{
}

/// Whatever the order of the calls (a successful `QueryInterface` counts as
/// an `AddRef`), the count moves by the number of
/// references taken less the number given back; so an object whose every
/// `AddRef` is matched by a `Release` is back at its starting count.
pub proof fn lemma_ref_ops_balance(count: int, ops: Seq<RefOp>)
    ensures
        apply_ref_ops(count, ops) == count + net_refs(ops),
        net_refs(ops) == 0 ==> apply_ref_ops(count, ops) == count,
    decreases ops.len(),
{
    if ops.len() > 0 {
        lemma_ref_ops_balance(apply_ref_op(count, ops[0]), ops.drop_first());
    }
}

} // verus!
