use vstd::prelude::*;

verus! {

/// What a GUID is, as a mathematical value: its three leading words and
/// its eight trailing bytes.
pub type GuidView = (u32, u16, u16, Seq<u8>);

/// A 128-bit globally unique identifier, laid out as COM lays it out.
#[derive(Clone, Copy, Debug)]
pub struct Guid {
    pub data1: u32,
    pub data2: u16,
    pub data3: u16,
    pub data4: [u8; 8],
}

impl View for Guid {
    type V = GuidView;

    open spec fn view(&self) -> GuidView {
        (self.data1, self.data2, self.data3, self.data4@)
    }
}

/// The identifier of `IUnknown`, `00000000-0000-0000-C000-000000000046`.
pub open spec fn iunknown_iid_view() -> GuidView {
    (0u32, 0u16, 0u16, seq![0xC0u8, 0x00u8, 0x00u8, 0x00u8, 0x00u8, 0x00u8, 0x00u8, 0x46u8])
}

/// The identifier of `IClassFactory`, `00000001-0000-0000-C000-000000000046`.
pub open spec fn iclassfactory_iid_view() -> GuidView {
    (1u32, 0u16, 0u16, seq![0xC0u8, 0x00u8, 0x00u8, 0x00u8, 0x00u8, 0x00u8, 0x00u8, 0x46u8])
}

/// The identifier of `IDkmCallStackFilter`, `56f90ba7-54a6-001e-c419-0c8b60821376`.
pub open spec fn idkm_call_stack_filter_iid_view() -> GuidView {
    (0x56f90ba7u32, 0x54a6u16, 0x001eu16, seq![0xc4u8, 0x19u8, 0x0cu8, 0x8bu8, 0x60u8, 0x82u8, 0x13u8, 0x76u8])
}

/// The identifier of `IDkmDisposableDataItem`, `39738b1d-2e90-4164-a21c-749be02f9a96`.
pub open spec fn idkm_disposable_data_item_iid_view() -> GuidView {
    (0x39738b1du32, 0x2e90u16, 0x4164u16, seq![0xa2u8, 0x1cu8, 0x74u8, 0x9bu8, 0xe0u8, 0x2fu8, 0x9au8, 0x96u8])
}

/// The class identifier under which this component registers its class factory.
pub open spec fn component_clsid_view() -> GuidView {
    (0x9010c723u32, 0x0091u16, 0x47afu16, seq![0xb2u8, 0x87u8, 0x5du8, 0x52u8, 0x9du8, 0x29u8, 0x10u8, 0x7bu8])
}

impl Guid {
    /// Builds a GUID from its four parts.
    pub fn from_values(data1: u32, data2: u16, data3: u16, data4: [u8; 8]) -> (g: Guid)
        ensures
            g@ == (data1, data2, data3, data4@),
    {
        Guid { data1, data2, data3, data4 }
    }

    /// Whether two GUIDs are the same identifier.
    pub fn same_as(&self, other: &Guid) -> (r: bool)
        ensures
            r == (self@ == other@),
    {
        if self.data1 != other.data1 || self.data2 != other.data2 || self.data3 != other.data3 {
            return false;
        }
        let mut i: usize = 0;
        while i < 8
            invariant
                0 <= i <= 8,
                self.data4@.len() == 8,
                other.data4@.len() == 8,
                forall|j: int| 0 <= j < i ==> self.data4@[j] == other.data4@[j],
            decreases 8 - i,
        {
            if self.data4[i] != other.data4[i] {
                return false;
            }
            i = i + 1;
        }
        assert(self.data4@ =~= other.data4@);
        true
    }
}

/// The class identifier of this component.
pub fn component_clsid() -> (g: Guid)
    ensures
        g@ == component_clsid_view(),
{
    let g = Guid::from_values(0x9010c723, 0x0091, 0x47af, [0xb2, 0x87, 0x5d, 0x52, 0x9d, 0x29, 0x10, 0x7b]);
    assert(g.data4@ =~= component_clsid_view().3);
    g
}

/// The identifier of `IClassFactory`.
pub fn iclassfactory_iid() -> (g: Guid)
    ensures
        g@ == iclassfactory_iid_view(),
{
    let g = Guid::from_values(0x0000_0001, 0x0000, 0x0000, [0xC0, 0x00, 0x00, 0x00, 0x00, 0x00, 0x00, 0x46]);
    assert(g.data4@ =~= iclassfactory_iid_view().3);
    g
}

/// The identifier of `IDkmCallStackFilter`.
pub fn idkm_call_stack_filter_iid() -> (g: Guid)
    ensures
        g@ == idkm_call_stack_filter_iid_view(),
{
    let g = Guid::from_values(0x56f90ba7, 0x54a6, 0x001e, [0xc4, 0x19, 0x0c, 0x8b, 0x60, 0x82, 0x13, 0x76]);
    assert(g.data4@ =~= idkm_call_stack_filter_iid_view().3);
    g
}

/// The identifier of `IDkmDisposableDataItem`.
pub fn idkm_disposable_data_item_iid() -> (g: Guid)
    ensures
        g@ == idkm_disposable_data_item_iid_view(),
{
    let g = Guid::from_values(0x39738b1d, 0x2e90, 0x4164, [0xa2, 0x1c, 0x74, 0x9b, 0xe0, 0x2f, 0x9a, 0x96]);
    assert(g.data4@ =~= idkm_disposable_data_item_iid_view().3);
    g
}

/// Whether `g` is the identifier of `IUnknown`, as the `windows` crate
/// defines it: the body builds a `windows::Guid` with
/// `windows::Guid::from_values` (which stores the four parts) and compares it,
/// with `windows::Guid`'s derived `==` (field by field), to
/// `<windows::IUnknown as windows::Interface>::IID`, which the source writes
/// as `00000000-0000-0000-C000-000000000046`.
#[verifier::external_body]
pub(crate) fn is_iunknown_iid(g: &Guid) -> (r: bool)
    ensures
        r == (g@ == iunknown_iid_view()),
{
    windows::Guid::from_values(g.data1, g.data2, g.data3, g.data4) == <windows::IUnknown as windows::Interface>::IID
}

} // verus!
