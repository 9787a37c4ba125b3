use vsdbg_rs::component::{get_class_object, ComponentClassFactory, InterfaceSlot, MyFrameFilter, MyFrameFilter_box};
use vsdbg_rs::frames::marshal_frames;
use vsdbg_rs::guid::{component_clsid, iclassfactory_iid, idkm_call_stack_filter_iid, Guid};
use vsdbg_rs::hresult::{HResult, CLASS_E_CLASSNOTAVAILABLE, E_INVALIDARG, E_NOINTERFACE, E_NOTIMPL, S_FALSE, S_OK};

fn iunknown() -> Guid {
    Guid::from_values(0, 0, 0, [0xC0, 0, 0, 0, 0, 0, 0, 0x46])
}

#[test]
fn box_reference_count() {
    let mut b = MyFrameFilter_box::new(MyFrameFilter);
    assert_eq!(b.AddRef(), 2);
    assert_eq!(b.AddRef(), 3);
    assert_eq!(b.Release(), 2);
    assert_eq!(b.Release(), 1);
    assert_eq!(b.Release(), 0);
}

#[test]
fn box_query_interface_slots() {
    let mut b = MyFrameFilter_box::new(MyFrameFilter);
    assert_eq!(b.QueryInterface(&iunknown()), (HResult(S_OK), Some(InterfaceSlot::Identity)));
    assert_eq!(
        b.QueryInterface(&idkm_call_stack_filter_iid()),
        (HResult(S_OK), Some(InterfaceSlot::CallStackFilter))
    );
    assert_eq!(b.QueryInterface(&iclassfactory_iid()), (HResult(E_NOINTERFACE), None));
    // one reference for the creator, two for the successful queries
    assert_eq!(b.Release(), 2);
}

#[test]
fn create_instance_hands_out_one_reference() {
    let factory = ComponentClassFactory;
    let (hr, created) = factory.CreateInstance::<u32>(&None, &idkm_call_stack_filter_iid());
    assert_eq!(hr, HResult(S_OK));
    let (mut object, slot) = created.unwrap();
    assert_eq!(slot, InterfaceSlot::CallStackFilter);
    assert_eq!(object.AddRef(), 2);
    assert_eq!(object.Release(), 1);
    assert_eq!(object.Release(), 0);

    let (hr, created) = factory.CreateInstance::<u32>(&None, &iunknown());
    assert_eq!(hr, HResult(S_OK));
    assert_eq!(created.unwrap().1, InterfaceSlot::Identity);
}

#[test]
fn create_instance_refusals() {
    let factory = ComponentClassFactory;
    let (hr, created) = factory.CreateInstance(&Some(7u32), &iunknown());
    assert_eq!(hr, HResult(E_INVALIDARG));
    assert!(created.is_none());
    let (hr, created) = factory.CreateInstance::<u32>(&None, &iclassfactory_iid());
    assert_eq!(hr, HResult(E_NOINTERFACE));
    assert!(created.is_none());
    assert_eq!(factory.LockServer(1), HResult(E_NOTIMPL));
}

#[test]
fn class_object_lookup() {
    assert!(get_class_object(&component_clsid()).is_ok());
    match get_class_object(&iunknown()) {
        Err(hr) => assert_eq!(hr, HResult(CLASS_E_CLASSNOTAVAILABLE)),
        Ok(_) => panic!("no class factory for IUnknown"),
    }
}

#[test]
fn filter_next_frame_walk() {
    let filter = MyFrameFilter;
    let first = filter.FilterNextFrame::<u64>(&None).unwrap();
    assert_eq!(first.len(), 1);
    assert_eq!(first[0].description, "[hello from rust]");
    assert_eq!(first[0].frame_base, 0);
    assert!(filter.FilterNextFrame(&Some(first[0])).is_none());
}

#[test]
fn marshal_frames_in_order() {
    let (hr, reply) = marshal_frames(Some(vec![11u64, 22, 33]));
    assert_eq!(hr, HResult(S_OK));
    let (bytes, array) = reply.unwrap();
    assert_eq!(bytes, 3 * std::mem::size_of::<usize>());
    assert_eq!(array.length, 3);
    assert_eq!(array.members, vec![11, 22, 33]);

    let (hr, reply) = marshal_frames::<u64>(Some(Vec::new()));
    assert_eq!(hr, HResult(S_OK));
    let (bytes, array) = reply.unwrap();
    assert_eq!(bytes, 0);
    assert_eq!(array.length, 0);

    let (hr, reply) = marshal_frames::<u64>(None);
    assert_eq!(hr, HResult(S_FALSE));
    assert!(reply.is_none());
}
