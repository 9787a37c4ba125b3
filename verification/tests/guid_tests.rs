use vsdbg_rs::guid::{
    component_clsid, iclassfactory_iid, idkm_call_stack_filter_iid, idkm_disposable_data_item_iid, Guid,
};

fn iunknown() -> Guid {
    Guid::from_values(0, 0, 0, [0xC0, 0, 0, 0, 0, 0, 0, 0x46])
}

#[test]
fn from_values_keeps_the_parts() {
    let g = Guid::from_values(0x9010c723, 0x91, 0x47af, [0xb2, 0x87, 0x5d, 0x52, 0x9d, 0x29, 0x10, 0x7b]);
    assert_eq!(g.data1, 0x9010c723);
    assert_eq!(g.data2, 0x91);
    assert_eq!(g.data3, 0x47af);
    assert_eq!(g.data4, [0xb2, 0x87, 0x5d, 0x52, 0x9d, 0x29, 0x10, 0x7b]);
}

#[test]
fn component_clsid_value() {
    let g = Guid::from_values(0x9010c723, 0x91, 0x47af, [0xb2, 0x87, 0x5d, 0x52, 0x9d, 0x29, 0x10, 0x7b]);
    assert!(component_clsid().same_as(&g));
}

#[test]
fn known_interface_identifiers() {
    let f = idkm_call_stack_filter_iid();
    assert_eq!((f.data1, f.data2, f.data3), (0x56f90ba7, 0x54a6, 0x001e));
    assert_eq!(f.data4, [0xc4, 0x19, 0x0c, 0x8b, 0x60, 0x82, 0x13, 0x76]);
    let c = iclassfactory_iid();
    assert_eq!((c.data1, c.data2, c.data3), (1, 0, 0));
    assert_eq!(c.data4, [0xC0, 0, 0, 0, 0, 0, 0, 0x46]);
    let d = idkm_disposable_data_item_iid();
    assert_eq!((d.data1, d.data2, d.data3), (0x39738b1d, 0x2e90, 0x4164));
    assert_eq!(d.data4, [0xa2, 0x1c, 0x74, 0x9b, 0xe0, 0x2f, 0x9a, 0x96]);
}

#[test]
fn same_as_compares_every_part() {
    let a = iunknown();
    assert!(a.same_as(&a));
    assert!(a.same_as(&iunknown()));
    assert!(!a.same_as(&iclassfactory_iid()));
    let mut b = iunknown();
    b.data4[7] = 0x47;
    assert!(!a.same_as(&b));
    let mut c = iunknown();
    c.data3 = 1;
    assert!(!a.same_as(&c));
    let mut d = iunknown();
    d.data2 = 1;
    assert!(!a.same_as(&d));
    let mut e = iunknown();
    e.data4[0] = 0;
    assert!(!e.same_as(&a));
}
