//! 32-byte identities: signers, authorities, members and record addresses.

use vstd::prelude::*;
use vstd::std_specs::cmp::PartialEqSpecImpl;

verus! {

/// A 32-byte identity. Two identities are equal when their bytes are.
#[derive(Clone, Copy, Debug)]
pub struct Identity {
    pub bytes: [u8; 32],
}

impl View for Identity {
    type V = Seq<u8>;

    open spec fn view(&self) -> Seq<u8> {
        self.bytes@
    }
}

impl PartialEq for Identity {
    fn eq(&self, other: &Self) -> (same: bool) {
        let mut i: usize = 0;
        while i < 32
            invariant
                i <= 32,
                forall|k: int| 0 <= k < i ==> self.bytes[k] == other.bytes[k],
            decreases 32 - i,
        {
            if self.bytes[i] != other.bytes[i] {
                return false;
            }
            i += 1;
        }
        assert(self.bytes =~= other.bytes);
        true
    }
}

impl Eq for Identity {}

impl PartialEqSpecImpl for Identity {
    open spec fn obeys_eq_spec() -> bool {
        true
    }

    open spec fn eq_spec(&self, other: &Self) -> bool {
        *self == *other
    }
}

impl Identity {
    /// The identity with the given bytes.
    pub fn new(bytes: [u8; 32]) -> (id: Identity)
        ensures
            id.bytes == bytes,
    {
        Identity { bytes }
    }

    /// The bytes of the identity.
    pub fn to_bytes(&self) -> (bytes: [u8; 32])
        ensures
            bytes == self.bytes,
    {
        self.bytes
    }
}

/// Identities with the same bytes are the same identity.
pub proof fn lemma_identity_by_bytes(a: Identity, b: Identity)
    ensures
        a@.len() == 32,
        (a@ == b@) <==> (a == b),
{
    if a@ == b@ {
        assert(a.bytes =~= b.bytes);
    }
}

/// The identity with the given bytes.
pub open spec fn identity_from(bytes: Seq<u8>) -> Identity {
    choose|id: Identity| id@ == bytes
}

/// An identity is the identity of its bytes.
pub proof fn lemma_identity_from(id: Identity)
    ensures
        identity_from(id@) == id,
{
    lemma_identity_by_bytes(identity_from(id@), id);
}

/// Whether `items` holds `wanted`.
pub fn contains_identity(items: &Vec<Identity>, wanted: &Identity) -> (found: bool)
    ensures
        found == items@.contains(*wanted),
{
    position_of_identity(items, wanted).is_some()
}

/// The first position of `wanted` in `items`, if it is there.
pub fn position_of_identity(items: &Vec<Identity>, wanted: &Identity) -> (at: Option<usize>)
    ensures
        match at {
            Some(i) => i < items.len() && items[i as int] == *wanted && forall|k: int|
                0 <= k < i ==> items[k] != *wanted,
            None => !items@.contains(*wanted),
        },
{
    let mut i: usize = 0;
    while i < items.len()
        invariant
            i <= items.len(),
            forall|k: int| 0 <= k < i ==> items[k] != *wanted,
        decreases items.len() - i,
    {
        if items[i] == *wanted {
            return Some(i);
        }
        i += 1;
    }
    None
}

/// The position of the first occurrence of `wanted` in `items`.
pub open spec fn first_position(items: Seq<Identity>, wanted: Identity) -> int
    recommends
        items.contains(wanted),
{
    choose|i: int| is_first_position(items, wanted, i)
}

/// `i` is the position of the first occurrence of `wanted` in `items`.
pub open spec fn is_first_position(items: Seq<Identity>, wanted: Identity, i: int) -> bool {
    &&& 0 <= i < items.len()
    &&& items[i] == wanted
    &&& forall|j: int| 0 <= j < i ==> items[j] != wanted
}

/// An entry that occurs has a first occurrence.
pub proof fn lemma_first_position_exists(items: Seq<Identity>, wanted: Identity)
    requires
        items.contains(wanted),
    ensures
        is_first_position(items, wanted, first_position(items, wanted)),
{
    let k = choose|k: int| 0 <= k < items.len() && items[k] == wanted;
    lemma_occurrence_has_first(items, wanted, k);
}

/// At or before an occurrence there is a first occurrence.
proof fn lemma_occurrence_has_first(items: Seq<Identity>, wanted: Identity, at: int)
    requires
        0 <= at < items.len(),
        items[at] == wanted,
    ensures
        exists|i: int| is_first_position(items, wanted, i),
    decreases at,
{
    if exists|j: int| 0 <= j < at && items[j] == wanted {
        let j = choose|j: int| 0 <= j < at && items[j] == wanted;
        lemma_occurrence_has_first(items, wanted, j);
    } else {
        assert(is_first_position(items, wanted, at));
    }
}

/// A first occurrence is the first occurrence.
pub proof fn lemma_first_position(items: Seq<Identity>, wanted: Identity, i: int)
    requires
        is_first_position(items, wanted, i),
    ensures
        first_position(items, wanted) == i,
{
    let c = first_position(items, wanted);
    assert(is_first_position(items, wanted, c));
    if c < i {
        assert(items[c] != wanted);
    } else if i < c {
        assert(items[i] != wanted);
    }
}

/// `items` without the first occurrence of `unwanted`; `items` itself where
/// it does not occur.
pub open spec fn without_first(items: Seq<Identity>, unwanted: Identity) -> Seq<Identity> {
    if items.contains(unwanted) {
        items.remove(first_position(items, unwanted))
    } else {
        items
    }
}

/// Removing one entry of a list without duplicates leaves a list without
/// duplicates, in which the removed entry no longer occurs.
pub proof fn lemma_remove_preserves_uniqueness(items: Seq<Identity>, at: int)
    requires
        0 <= at < items.len(),
    ensures
        items.no_duplicates() ==> items.remove(at).no_duplicates() && !items.remove(at).contains(
            items[at],
        ),
{
    let rest = items.remove(at);
    if items.no_duplicates() {
        assert forall|a: int, b: int| 0 <= a < rest.len() && 0 <= b < rest.len() && a != b implies rest[a]
            != rest[b] by {
            let a0 = if a < at { a } else { a + 1 };
            let b0 = if b < at { b } else { b + 1 };
            assert(rest[a] == items[a0]);
            assert(rest[b] == items[b0]);
        }
        assert forall|a: int| 0 <= a < rest.len() implies rest[a] != items[at] by {
            let a0 = if a < at { a } else { a + 1 };
            assert(rest[a] == items[a0]);
        }
    }
}

} // verus!
