use vsdbg_rs::filter::{
    class_factory_addref, class_factory_create_instance, class_factory_lock_server,
    class_factory_query_interface, class_factory_release, dll_get_class_object, filter_next_frame,
    MyFrameFilter,
};
use vsdbg_rs::guid::{component_clsid, iclassfactory_iid, idkm_call_stack_filter_iid, Guid};
use vsdbg_rs::hresult::{HResult, CLASS_E_CLASSNOTAVAILABLE, E_NOINTERFACE, E_NOTIMPL, S_FALSE, S_OK};

fn iunknown() -> Guid {
    Guid::from_values(0, 0, 0, [0xC0, 0, 0, 0, 0, 0, 0, 0x46])
}

fn other() -> Guid {
    Guid::from_values(0x12345678, 1, 2, [3, 4, 5, 6, 7, 8, 9, 10])
}

#[test]
fn new_filter_add_ref_and_release() {
    let mut f = MyFrameFilter::new();
    assert_eq!(f.count(), 1);
    assert_eq!(f.AddRef(), 2);
    assert_eq!(f.count(), 2);
    assert_eq!(f.AddRef(), 3);
    assert_eq!(f.Relese(), 2);
    assert_eq!(f.Relese(), 1);
    assert_eq!(f.Relese(), 0);
}

#[test]
fn filter_query_interface() {
    let mut f = MyFrameFilter::new();
    assert_eq!(f.QueryInterface(&iunknown()), HResult(S_OK));
    assert_eq!(f.QueryInterface(&idkm_call_stack_filter_iid()), HResult(S_OK));
    assert_eq!(f.QueryInterface(&iclassfactory_iid()), HResult(E_NOINTERFACE));
    assert_eq!(f.QueryInterface(&other()), HResult(E_NOINTERFACE));
    // two successful queries took two references
    assert_eq!(f.Relese(), 2);
}

#[test]
fn class_factory_answers_its_interfaces() {
    assert_eq!(class_factory_query_interface(&iunknown()), HResult(S_OK));
    assert_eq!(class_factory_query_interface(&iclassfactory_iid()), HResult(S_OK));
    assert_eq!(class_factory_query_interface(&idkm_call_stack_filter_iid()), HResult(E_NOINTERFACE));
    assert_eq!(class_factory_query_interface(&other()), HResult(E_NOINTERFACE));
    assert_eq!(class_factory_addref(), 1);
    assert_eq!(class_factory_release(), 1);
    assert_eq!(class_factory_lock_server(1), HResult(E_NOTIMPL));
    assert_eq!(class_factory_lock_server(0), HResult(0x8000_4001));
}

#[test]
fn class_factory_creates_filters() {
    let (hr, f) = class_factory_create_instance(&idkm_call_stack_filter_iid());
    assert_eq!(hr, HResult(S_OK));
    let mut f = f.unwrap();
    // the caller holds the only reference
    assert_eq!(f.Relese(), 0);
    let (hr, f) = class_factory_create_instance(&iunknown());
    assert_eq!(hr, HResult(S_OK));
    assert!(f.is_some());
    let (hr, f) = class_factory_create_instance(&iclassfactory_iid());
    assert_eq!(hr, HResult(E_NOINTERFACE));
    assert!(f.is_none());
}

#[test]
fn class_object_only_for_the_component() {
    assert_eq!(dll_get_class_object(&component_clsid()), HResult(S_OK));
    assert_eq!(dll_get_class_object(&other()), HResult(CLASS_E_CLASSNOTAVAILABLE));
    assert_eq!(dll_get_class_object(&iunknown()), HResult(0x8004_0111));
}

#[test]
fn next_frame_at_start_and_after() {
    let (hr, reply) = filter_next_frame(true);
    assert_eq!(hr, HResult(S_OK));
    let (bytes, array) = reply.unwrap();
    assert_eq!(bytes, std::mem::size_of::<usize>());
    assert_eq!(array.length, 1);
    assert_eq!(array.members.len(), 1);
    let frame = array.members[0];
    assert_eq!(frame.description, "[hello from rust]");
    assert_eq!(frame.frame_base, 0);
    assert_eq!(frame.frame_size, 0);
    assert_eq!(frame.flags, 0);
    let (hr, reply) = filter_next_frame(false);
    assert_eq!(hr, HResult(S_FALSE));
    assert!(reply.is_none());
}
