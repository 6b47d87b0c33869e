//! The record store: create, load, mutate and close of fixed-capacity
//! records at derived addresses.
//!
//! The store guarantees exactly-once initialization per address — creating
//! at an occupied address fails, which is what makes the derived-address
//! uniqueness arguments of the social operations sound — and atomic
//! close-and-reclaim.  A record's capacity is fixed at creation and a write
//! above it is refused.  The store's mathematical value is the map from
//! occupied addresses to their entries.

use vstd::prelude::*;
use vstd::slice::slice_to_vec;
use crate::errors::ErrorCode;
use crate::fields::key_eq;

verus! {

/// One live record: its address, type tag, fixed capacity, the identity
/// that paid for its creation, and its current bytes.
pub struct AccountEntry {
    pub address: [u8; 32],
    pub tag: u64,
    pub capacity: usize,
    pub payer: [u8; 32],
    pub data: Vec<u8>,
}

/// Mathematical value of an entry, keyed by its address in the store's map.
pub struct EntryV {
    pub tag: u64,
    pub capacity: usize,
    pub payer: Seq<u8>,
    pub data: Seq<u8>,
}

impl AccountEntry {
    /// The mathematical value of this entry.
    pub open spec fn entry_v(self) -> EntryV {
        EntryV {
            tag: self.tag,
            capacity: self.capacity,
            payer: self.payer@,
            data: self.data@,
        }
    }
}

/// No two entries share an address.
pub open spec fn unique_addresses(s: Seq<AccountEntry>) -> bool {
    forall|i: int, j: int| 0 <= i < j < s.len() ==> s[i].address@ != s[j].address@
}

/// The map from addresses to entries that an entry sequence denotes.
pub open spec fn entries_map(s: Seq<AccountEntry>) -> Map<Seq<u8>, EntryV>
    decreases s.len(),
{
    if s.len() == 0 {
        Map::empty()
    } else {
        entries_map(s.drop_last()).insert(s.last().address@, s.last().entry_v())
    }
}

/// An address is in the map exactly when some entry carries it.
proof fn lemma_map_contains(s: Seq<AccountEntry>, a: Seq<u8>)
    ensures
        entries_map(s).contains_key(a) <==> (exists|i: int|
            0 <= i < s.len() && s[i].address@ == a),
    decreases s.len(),
{
    if s.len() == 0 {
    } else {
        lemma_map_contains(s.drop_last(), a);
        if s.last().address@ == a {
            assert(s[s.len() - 1].address@ == a);
        } else {
            if entries_map(s).contains_key(a) {
                let i = choose|i: int| 0 <= i < s.len() - 1 && s.drop_last()[i].address@ == a;
                assert(s[i].address@ == a);
            }
            if exists|i: int| 0 <= i < s.len() && s[i].address@ == a {
                let i = choose|i: int| 0 <= i < s.len() && s[i].address@ == a;
                assert(s.drop_last()[i].address@ == a);
            }
        }
    }
}

/// With unique addresses, the map sends each entry's address to that entry.
proof fn lemma_map_get(s: Seq<AccountEntry>, i: int)
    requires
        unique_addresses(s),
        0 <= i < s.len(),
    ensures
        entries_map(s).contains_key(s[i].address@),
        entries_map(s)[s[i].address@] == s[i].entry_v(),
    decreases s.len(),
{
    if i == s.len() - 1 {
    } else {
        assert(unique_addresses(s.drop_last()));
        lemma_map_get(s.drop_last(), i);
        assert(s.drop_last()[i] == s[i]);
        assert(s.last().address@ != s[i].address@);
    }
}

/// Replacing the entry at `i` by one with the same address is a map insert.
proof fn lemma_map_update(s: Seq<AccountEntry>, i: int, e: AccountEntry)
    requires
        unique_addresses(s),
        0 <= i < s.len(),
        e.address@ == s[i].address@,
    ensures
        entries_map(s.update(i, e)) == entries_map(s).insert(e.address@, e.entry_v()),
        unique_addresses(s.update(i, e)),
    decreases s.len(),
{
    let a = e.address@;
    let s2 = s.update(i, e);
    assert(forall|k: int| 0 <= k < s.len() ==> s2[k].address@ == s[k].address@);
    if i == s.len() - 1 {
        assert(s2.drop_last() =~= s.drop_last());
        assert(s2.last() == e);
        assert(entries_map(s2) =~= entries_map(s).insert(a, e.entry_v()));
    } else {
        assert(unique_addresses(s.drop_last()));
        lemma_map_update(s.drop_last(), i, e);
        assert(s2.drop_last() =~= s.drop_last().update(i, e));
        assert(s2.last() == s.last());
        assert(s.last().address@ != a);
        assert(entries_map(s2) =~= entries_map(s).insert(a, e.entry_v()));
    }
}

/// Removing the entry at `i` is a map remove of its address.
proof fn lemma_map_remove(s: Seq<AccountEntry>, i: int)
    requires
        unique_addresses(s),
        0 <= i < s.len(),
    ensures
        entries_map(s.remove(i)) == entries_map(s).remove(s[i].address@),
        unique_addresses(s.remove(i)),
    decreases s.len(),
{
    let a = s[i].address@;
    let t = s.remove(i);
    s.remove_ensures(i);
    assert(unique_addresses(t));
    if i == s.len() - 1 {
        assert(t =~= s.drop_last());
        lemma_map_contains(t, a);
        assert(!entries_map(t).contains_key(a));
        assert(entries_map(s).remove(a) =~= entries_map(t));
    } else {
        assert(unique_addresses(s.drop_last()));
        lemma_map_remove(s.drop_last(), i);
        assert(t.drop_last() =~= s.drop_last().remove(i));
        assert(t.last() == s.last());
        assert(s.drop_last()[i] == s[i]);
        assert(s.last().address@ != a);
        assert(entries_map(t) == entries_map(s.drop_last()).remove(a).insert(
            s.last().address@,
            s.last().entry_v(),
        ));
        assert(entries_map(s).remove(a) =~= entries_map(s.drop_last()).remove(a).insert(
            s.last().address@,
            s.last().entry_v(),
        ));
    }
}

/// The record store.
pub struct Ledger {
    entries: Vec<AccountEntry>,
}

impl View for Ledger {
    type V = Map<Seq<u8>, EntryV>;

    closed spec fn view(&self) -> Map<Seq<u8>, EntryV> {
        entries_map(self.entries@)
    }
}

impl Ledger {
    /// Addresses are unique and no entry outgrew its fixed capacity.
    pub closed spec fn wf(self) -> bool {
        &&& unique_addresses(self.entries@)
        &&& forall|i: int|
            0 <= i < self.entries@.len() ==> (#[trigger] self.entries@[i]).data@.len()
                <= self.entries@[i].capacity
    }

    /// Every entry of a well-formed store fits in its capacity.  This
    /// discharges the capacity premise of the cross-operation laws for any
    /// map value that a real store exhibits.
    pub proof fn lemma_wf_capacity(self, a: Seq<u8>)
        requires
            self.wf(),
            self@.contains_key(a),
        ensures
            self@[a].data.len() <= self@[a].capacity,
    {
        lemma_map_contains(self.entries@, a);
        let i = choose|i: int| 0 <= i < self.entries@.len() && self.entries@[i].address@ == a;
        lemma_map_get(self.entries@, i);
    }

    /// An empty store.
    pub fn new() -> (r: Ledger)
        ensures
            r.wf(),
            r@ == Map::<Seq<u8>, EntryV>::empty(),
    {
        Ledger { entries: Vec::new() }
    }

    /// The index of the entry at `address`, if any.
    fn find_index(&self, address: &[u8; 32]) -> (r: Option<usize>)
        ensures
            match r {
                Some(i) => i < self.entries@.len() && self.entries@[i as int].address@
                    == address@,
                None => forall|i: int|
                    0 <= i < self.entries@.len() ==> self.entries@[i].address@ != address@,
            },
    {
        let mut i: usize = 0;
        let n = self.entries.len();
        while i < n
            invariant
                i <= n == self.entries@.len(),
                forall|j: int| 0 <= j < i ==> self.entries@[j].address@ != address@,
            decreases n - i,
        {
            if key_eq(&self.entries[i].address, address) {
                return Some(i);
            }
            i = i + 1;
        }
        None
    }

    /// Whether the store holds a record at `address`.
    pub fn contains(&self, address: &[u8; 32]) -> (r: bool)
        ensures
            r == self@.contains_key(address@),
    {
        proof {
            lemma_map_contains(self.entries@, address@);
        }
        match self.find_index(address) {
            Some(_) => true,
            None => false,
        }
    }

    /// The identity that paid for the record at `address`, if one exists.
    pub fn payer_of(&self, address: &[u8; 32]) -> (r: Option<[u8; 32]>)
        requires
            self.wf(),
        ensures
            match r {
                Some(p) => self@.contains_key(address@) && p@ == self@[address@].payer,
                None => !self@.contains_key(address@),
            },
    {
        proof {
            lemma_map_contains(self.entries@, address@);
        }
        match self.find_index(address) {
            None => None,
            Some(i) => {
                proof {
                    lemma_map_get(self.entries@, i as int);
                }
                Some(self.entries[i].payer)
            },
        }
    }

    /// Creates an empty record of `capacity` bytes at `address`, tagged
    /// `tag` and paid for by `payer`.  Exactly-once: an occupied address is
    /// refused and nothing changes.
    pub fn create(&mut self, address: &[u8; 32], tag: u64, capacity: usize, payer: &[u8; 32]) -> (r:
        Result<(), ErrorCode>)
        requires
            old(self).wf(),
        ensures
            final(self).wf(),
            match r {
                Ok(()) => {
                    &&& !old(self)@.contains_key(address@)
                    &&& final(self)@ == old(self)@.insert(
                        address@,
                        EntryV { tag, capacity, payer: payer@, data: Seq::empty() },
                    )
                },
                Err(e) => {
                    &&& e == ErrorCode::AlreadyExists
                    &&& old(self)@.contains_key(address@)
                    &&& final(self)@ == old(self)@
                },
            },
    {
        proof {
            lemma_map_contains(self.entries@, address@);
        }
        match self.find_index(address) {
            Some(_) => Err(ErrorCode::AlreadyExists),
            None => {
                let entry = AccountEntry {
                    address: *address,
                    tag,
                    capacity,
                    payer: *payer,
                    data: Vec::new(),
                };
                proof {
                    assert(self.entries@.push(entry).drop_last() =~= self.entries@);
                }
                self.entries.push(entry);
                Ok(())
            },
        }
    }

    /// The bytes of the record at `address`, after checking its type tag.
    pub fn load(&self, address: &[u8; 32], expected_tag: u64) -> (r: Result<Vec<u8>, ErrorCode>)
        requires
            self.wf(),
        ensures
            match r {
                Ok(d) => {
                    &&& self@.contains_key(address@)
                    &&& self@[address@].tag == expected_tag
                    &&& d@ == self@[address@].data
                },
                Err(e) => match e {
                    ErrorCode::NotFound => !self@.contains_key(address@),
                    ErrorCode::TypeMismatch => {
                        &&& self@.contains_key(address@)
                        &&& self@[address@].tag != expected_tag
                    },
                    _ => false,
                },
            },
    {
        proof {
            lemma_map_contains(self.entries@, address@);
        }
        match self.find_index(address) {
            None => Err(ErrorCode::NotFound),
            Some(i) => {
                proof {
                    lemma_map_get(self.entries@, i as int);
                }
                if self.entries[i].tag != expected_tag {
                    Err(ErrorCode::TypeMismatch)
                } else {
                    Ok(slice_to_vec(self.entries[i].data.as_slice()))
                }
            },
        }
    }

    /// Replaces the bytes of the record at `address`; a write above the
    /// record's fixed capacity is refused and nothing changes.
    pub fn store(&mut self, address: &[u8; 32], data: Vec<u8>) -> (r: Result<(), ErrorCode>)
        requires
            old(self).wf(),
        ensures
            final(self).wf(),
            match r {
                Ok(()) => {
                    &&& old(self)@.contains_key(address@)
                    &&& data@.len() <= old(self)@[address@].capacity
                    &&& final(self)@ == old(self)@.insert(
                        address@,
                        EntryV {
                            tag: old(self)@[address@].tag,
                            capacity: old(self)@[address@].capacity,
                            payer: old(self)@[address@].payer,
                            data: data@,
                        },
                    )
                },
                Err(e) => {
                    &&& final(self)@ == old(self)@
                    &&& match e {
                        ErrorCode::NotFound => !old(self)@.contains_key(address@),
                        ErrorCode::CapacityExceeded => {
                            &&& old(self)@.contains_key(address@)
                            &&& data@.len() > old(self)@[address@].capacity
                        },
                        _ => false,
                    }
                },
            },
    {
        proof {
            lemma_map_contains(self.entries@, address@);
        }
        match self.find_index(address) {
            None => Err(ErrorCode::NotFound),
            Some(i) => {
                proof {
                    lemma_map_get(self.entries@, i as int);
                }
                if data.len() > self.entries[i].capacity {
                    return Err(ErrorCode::CapacityExceeded);
                }
                let entry = AccountEntry {
                    address: self.entries[i].address,
                    tag: self.entries[i].tag,
                    capacity: self.entries[i].capacity,
                    payer: self.entries[i].payer,
                    data,
                };
                proof {
                    lemma_map_update(self.entries@, i as int, entry);
                }
                self.entries[i] = entry;
                Ok(())
            },
        }
    }

    /// Destroys the record at `address`, reclaiming its storage; a missing
    /// record is reported and nothing changes.
    pub fn close(&mut self, address: &[u8; 32]) -> (r: Result<(), ErrorCode>)
        requires
            old(self).wf(),
        ensures
            final(self).wf(),
            match r {
                Ok(()) => {
                    &&& old(self)@.contains_key(address@)
                    &&& final(self)@ == old(self)@.remove(address@)
                },
                Err(e) => {
                    &&& e == ErrorCode::NotFound
                    &&& !old(self)@.contains_key(address@)
                    &&& final(self)@ == old(self)@
                },
            },
    {
        proof {
            lemma_map_contains(self.entries@, address@);
        }
        match self.find_index(address) {
            None => Err(ErrorCode::NotFound),
            Some(i) => {
                proof {
                    lemma_map_remove(self.entries@, i as int);
                    self.entries@.remove_ensures(i as int);
                }
                let _ = self.entries.remove(i);
                Ok(())
            },
        }
    }
}

} // verus!
