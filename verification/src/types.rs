//! Identifiers and records, each with its mathematical view.

use vstd::prelude::*;

verus! {

/// Identifier of an asset in the catalog.
pub type AssetId = u32;

/// Identifier of a part that an asset is composed of.
pub type PartId = u32;

/// Identifier of a group of assets that can be equipped into the same slots.
pub type EquippableGroupId = u32;

/// An account: 32 opaque bytes, compared byte by byte.
#[derive(Clone, Copy, Debug, PartialEq, Eq, Hash)]
pub struct AccountId(pub [u8; 32]);

impl View for AccountId {
    type V = AccountId;

    open spec fn view(&self) -> AccountId {
        *self
    }
}

/// A token identifier. Identifiers of different variants are different
/// tokens, also where they hold the same number.
#[derive(Clone, Debug, PartialEq, Eq, Hash)]
pub enum Id {
    U8(u8),
    U16(u16),
    U32(u32),
    U64(u64),
    U128(u128),
    Bytes(Vec<u8>),
}

/// The view of an [`Id`]: the same variants, with a sequence for the bytes.
pub enum IdView {
    U8(u8),
    U16(u16),
    U32(u32),
    U64(u64),
    U128(u128),
    Bytes(Seq<u8>),
}

impl View for Id {
    type V = IdView;

    open spec fn view(&self) -> IdView {
        match self {
            Id::U8(n) => IdView::U8(*n),
            Id::U16(n) => IdView::U16(*n),
            Id::U32(n) => IdView::U32(*n),
            Id::U64(n) => IdView::U64(*n),
            Id::U128(n) => IdView::U128(*n),
            Id::Bytes(b) => IdView::Bytes(b@),
        }
    }
}

/// The condition of a pet as it was stored at its last meal.
#[derive(Clone, Copy, Debug, PartialEq, Eq, Structural)]
pub struct Status {
    pub hungry: u32,
    pub health: u32,
    pub happy: u32,
}

impl View for Status {
    type V = Status;

    open spec fn view(&self) -> Status {
        *self
    }
}

/// An entry of the asset catalog.
#[derive(Clone, Debug, PartialEq, Eq)]
pub struct Asset {
    pub equippable_group_id: EquippableGroupId,
    pub asset_uri: Vec<u8>,
    pub part_ids: Vec<PartId>,
}

/// The view of an [`Asset`].
pub struct AssetView {
    pub equippable_group_id: EquippableGroupId,
    pub asset_uri: Seq<u8>,
    pub part_ids: Seq<PartId>,
}

impl View for Asset {
    type V = AssetView;

    open spec fn view(&self) -> AssetView {
        AssetView {
            equippable_group_id: self.equippable_group_id,
            asset_uri: self.asset_uri@,
            part_ids: self.part_ids@,
        }
    }
}

/// A type whose values can serve as keys of a [`crate::table::Table`]: two
/// keys are the same key when their views are equal.
pub trait Key: View + Sized {
    /// Whether `self` and `other` are the same key.
    fn same(&self, other: &Self) -> (b: bool)
        ensures
            b == (self@ == other@),
    ;

    /// A copy of the key.
    fn duplicate(&self) -> (copy: Self)
        ensures
            copy@ == self@,
    ;
}

impl Key for AssetId {
    fn same(&self, other: &Self) -> (b: bool) {
        *self == *other
    }

    fn duplicate(&self) -> (copy: Self) {
        *self
    }
}

impl Key for AccountId {
    fn same(&self, other: &Self) -> (b: bool) {
        let mut i: usize = 0;
        while i < 32
            invariant
                i <= 32,
                forall|j: int| 0 <= j < i ==> self.0[j] == other.0[j],
            decreases 32 - i,
        {
            if self.0[i] != other.0[i] {
                return false;
            }
            i = i + 1;
        }
        assert(self.0 =~= other.0);
        true
    }

    fn duplicate(&self) -> (copy: Self) {
        *self
    }
}

/// Whether two byte strings hold the same bytes.
pub fn bytes_equal(a: &Vec<u8>, b: &Vec<u8>) -> (same: bool)
    ensures
        same == (a@ == b@),
{
    if a.len() != b.len() {
        return false;
    }
    let mut i: usize = 0;
    while i < a.len()
        invariant
            i <= a.len(),
            a.len() == b.len(),
            forall|j: int| 0 <= j < i ==> a[j] == b[j],
        decreases a.len() - i,
    {
        if a[i] != b[i] {
            return false;
        }
        i = i + 1;
    }
    assert(a@ =~= b@);
    true
}

/// A copy of a byte string.
pub fn bytes_copy(a: &Vec<u8>) -> (copy: Vec<u8>)
    ensures
        copy@ == a@,
{
    let mut copy: Vec<u8> = Vec::new();
    let mut i: usize = 0;
    while i < a.len()
        invariant
            i <= a.len(),
            copy@ == a@.subrange(0, i as int),
        decreases a.len() - i,
    {
        copy.push(a[i]);
        assert(copy@ =~= a@.subrange(0, i + 1));
        i = i + 1;
    }
    assert(copy@ =~= a@);
    copy
}

impl Key for Id {
    fn same(&self, other: &Self) -> (b: bool) {
        match (self, other) {
            (Id::U8(x), Id::U8(y)) => *x == *y,
            (Id::U16(x), Id::U16(y)) => *x == *y,
            (Id::U32(x), Id::U32(y)) => *x == *y,
            (Id::U64(x), Id::U64(y)) => *x == *y,
            (Id::U128(x), Id::U128(y)) => *x == *y,
            (Id::Bytes(x), Id::Bytes(y)) => bytes_equal(x, y),
            _ => false,
        }
    }

    fn duplicate(&self) -> (copy: Self) {
        match self {
            Id::U8(x) => Id::U8(*x),
            Id::U16(x) => Id::U16(*x),
            Id::U32(x) => Id::U32(*x),
            Id::U64(x) => Id::U64(*x),
            Id::U128(x) => Id::U128(*x),
            Id::Bytes(x) => Id::Bytes(bytes_copy(x)),
        }
    }
}

} // verus!
