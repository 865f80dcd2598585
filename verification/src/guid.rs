//! Globally unique identifiers of interface and class contracts.

use vstd::prelude::*;

verus! {

/// A 128-bit identifier in its four groups: one of 32 bits, two of 16 bits,
/// and one of eight bytes. An identifier is a constant: it is built once and
/// only ever compared.
#[derive(Clone, Copy, Debug)]
pub struct GUID {
    pub data1: u32,
    pub data2: u16,
    pub data3: u16,
    pub data4: [u8; 8],
}

pub type CLSID = GUID;

pub type FMTID = GUID;

pub type IID = GUID;

impl GUID {
    /// The four groups as mathematical values.
    pub open spec fn groups(self) -> (int, int, int, Seq<u8>) {
        (self.data1 as int, self.data2 as int, self.data3 as int, self.data4@)
    }

    /// Builds an identifier from its four groups.
    pub fn new(data1: u32, data2: u16, data3: u16, data4: [u8; 8]) -> (id: GUID)
        ensures
            id.data1 == data1,
            id.data2 == data2,
            id.data3 == data3,
            id.data4 == data4,
            id.groups() == (data1 as int, data2 as int, data3 as int, data4@),
    {
        GUID { data1, data2, data3, data4 }
    }

    /// Whether two identifiers agree in all four groups.
    pub fn same(&self, other: &GUID) -> (equal: bool)
        ensures
            equal == (self.groups() == other.groups()),
            equal == (*self == *other),
    {
        proof {
            lemma_equal_by_groups(*self, *other);
        }
        let mut agree: bool = self.data1 == other.data1 && self.data2 == other.data2
            && self.data3 == other.data3;
        let mut i: usize = 0;
        while i < 8
            invariant
                i <= 8,
                agree == (self.data1 == other.data1 && self.data2 == other.data2 && self.data3
                    == other.data3 && forall|j: int| 0 <= j < i ==> self.data4@[j] == other.data4@[j]),
            decreases 8 - i,
        {
            if self.data4[i] != other.data4[i] {
                agree = false;
            }
            i += 1;
        }
        assert(agree ==> self.data4@ =~= other.data4@);
        agree
    }
}

impl PartialEq for GUID {
    fn eq(&self, other: &GUID) -> (equal: bool) {
        self.same(other)
    }
}

impl Eq for GUID {

}

impl vstd::std_specs::cmp::PartialEqSpecImpl for GUID {
    open spec fn obeys_eq_spec() -> bool {
        true
    }

    open spec fn eq_spec(&self, other: &GUID) -> bool {
        *self == *other
    }
}

/// Identifier equality is structural: two identifiers are the same value
/// exactly when each of the four groups is the same.
pub proof fn lemma_equal_by_groups(a: GUID, b: GUID)
    ensures
        (a == b) <==> (a.data1 == b.data1 && a.data2 == b.data2 && a.data3 == b.data3
            && forall|i: int| 0 <= i < 8 ==> a.data4@[i] == b.data4@[i]),
        (a == b) <==> a.groups() == b.groups(),
{
    if a.data1 == b.data1 && a.data2 == b.data2 && a.data3 == b.data3 && (forall|i: int|
        0 <= i < 8 ==> a.data4@[i] == b.data4@[i]) {
        assert(a.data4@ =~= b.data4@);
        assert(a.data4 == b.data4);
    }
}

/// The class of the shell's application object,
/// `{13709620-C279-11CE-A49E-444553540000}`.
pub open spec fn clsid_shapp_spec() -> GUID {
    GUID {
        data1: 0x13709620,
        data2: 0xC279,
        data3: 0x11CE,
        data4: [0xA4u8, 0x9E, 0x44, 0x45, 0x53, 0x54, 0x00, 0x00],
    }
}

/// The class of the shell's application object.
#[verifier::when_used_as_spec(clsid_shapp_spec)]
pub fn clsid_shapp() -> (id: CLSID)
    ensures
        id == clsid_shapp_spec(),
{
    GUID::new(0x13709620, 0xC279, 0x11CE, [0xA4u8, 0x9E, 0x44, 0x45, 0x53, 0x54, 0x00, 0x00])
}

} // verus!
