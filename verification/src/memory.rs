//! In-memory store implementations: association lists with unique keys,
//! each viewed as the map its store trait speaks over. These back tests
//! and small deployments, and witness that the store contracts are
//! satisfiable.

use vstd::prelude::*;
use crate::address::Address;
use crate::bytecmp::bytes_eq;
use crate::error::SignalError;
use crate::keys::{spec_serialize_public, KeyPair};
use crate::stores::{IdentityKeyStore, PreKeyStore, SessionStore, SignedPreKeyStore};

verus! {

/// Do the entries carry pairwise distinct ids?
pub open spec fn unique_id_keys(s: Seq<(u32, Vec<u8>)>) -> bool {
    forall|i: int, j: int| 0 <= i < j < s.len() ==> s[i].0 != s[j].0
}

/// The map an id-keyed entry list denotes.
pub open spec fn id_entries_to_map(s: Seq<(u32, Vec<u8>)>) -> Map<u32, Seq<u8>>
    decreases s.len(),
{
    if s.len() == 0 {
        Map::empty()
    } else {
        id_entries_to_map(s.drop_last()).insert(s.last().0, s.last().1@)
    }
}

/// An id is in the denoted map exactly when some entry carries it.
proof fn lemma_id_map_contains(s: Seq<(u32, Vec<u8>)>, k: u32)
    ensures
        id_entries_to_map(s).contains_key(k) <==> (exists|i: int| 0 <= i < s.len() && s[i].0 == k),
    decreases s.len(),
{
    if s.len() > 0 {
        lemma_id_map_contains(s.drop_last(), k);
        if s.last().0 == k {
            assert(s[s.len() - 1].0 == k);
        } else {
            if exists|i: int| 0 <= i < s.len() && s[i].0 == k {
                let i = choose|i: int| 0 <= i < s.len() && s[i].0 == k;
                assert(s.drop_last()[i] == s[i]);
            }
        }
    }
}

/// With unique ids, the denoted map sends each entry's id to its body.
proof fn lemma_id_map_value_at(s: Seq<(u32, Vec<u8>)>, i: int)
    requires
        unique_id_keys(s),
        0 <= i < s.len(),
    ensures
        id_entries_to_map(s).contains_key(s[i].0),
        id_entries_to_map(s)[s[i].0] == s[i].1@,
    decreases s.len(),
{
    if i < s.len() - 1 {
        assert(s.drop_last()[i] == s[i]);
        lemma_id_map_value_at(s.drop_last(), i);
    }
}

/// With unique ids, removing the entry at an index removes exactly its id
/// from the denoted map.
proof fn lemma_id_map_remove_index(s: Seq<(u32, Vec<u8>)>, i: int)
    requires
        unique_id_keys(s),
        0 <= i < s.len(),
    ensures
        id_entries_to_map(s.remove(i)) == id_entries_to_map(s).remove(s[i].0),
    decreases s.len(),
{
    s.remove_ensures(i);
    if i == s.len() - 1 {
        assert(s.remove(i) =~= s.drop_last());
        lemma_id_map_contains(s.drop_last(), s[i].0);
        assert(id_entries_to_map(s.drop_last()) =~= id_entries_to_map(s).remove(s[i].0));
    } else {
        let t = s.remove(i);
        assert(t.drop_last() =~= s.drop_last().remove(i));
        assert(s.drop_last()[i] == s[i]);
        lemma_id_map_remove_index(s.drop_last(), i);
        assert(t.last() == s.last());
        assert(id_entries_to_map(t) =~= id_entries_to_map(s).remove(s[i].0));
    }
}

/// Removing an entry keeps the remaining ids pairwise distinct.
proof fn lemma_unique_id_remove(s: Seq<(u32, Vec<u8>)>, i: int)
    requires
        unique_id_keys(s),
        0 <= i < s.len(),
    ensures
        unique_id_keys(s.remove(i)),
{
    s.remove_ensures(i);
    let t = s.remove(i);
    assert forall|p: int, q: int| 0 <= p < q < t.len() implies t[p].0 != t[q].0 by {
        let p0 = if p < i {
            p
        } else {
            p + 1
        };
        let q0 = if q < i {
            q
        } else {
            q + 1
        };
        assert(t[p] == s[p0]);
        assert(t[q] == s[q0]);
    }
}

/// An id-keyed table of opaque record bodies.
pub struct RecordTable {
    entries: Vec<(u32, Vec<u8>)>,
}

impl RecordTable {
    #[verifier::type_invariant]
    spec fn wf(self) -> bool {
        unique_id_keys(self.entries@)
    }

    /// The map this table denotes.
    pub closed spec fn as_map(&self) -> Map<u32, Seq<u8>> {
        id_entries_to_map(self.entries@)
    }

    /// An empty table.
    pub fn new() -> (r: RecordTable)
        ensures
            r.as_map() == Map::<u32, Seq<u8>>::empty(),
    {
        RecordTable { entries: Vec::new() }
    }

    /// The index of the entry carrying an id, if one does.
    fn find(&self, id: u32) -> (r: Option<usize>)
        ensures
            match r {
                Some(i) => i < self.entries@.len() && self.entries@[i as int].0 == id,
                None => forall|j: int| 0 <= j < self.entries@.len() ==> self.entries@[j].0 != id,
            },
    {
        let mut i: usize = 0;
        while i < self.entries.len()
            invariant
                0 <= i <= self.entries@.len(),
                forall|j: int| 0 <= j < i ==> self.entries@[j].0 != id,
            decreases self.entries@.len() - i,
        {
            if self.entries[i].0 == id {
                return Some(i);
            }
            i = i + 1;
        }
        None
    }

    /// Is a record with this id present?
    pub fn contains(&self, id: u32) -> (r: bool)
        ensures
            r == self.as_map().contains_key(id),
    {
        proof {
            lemma_id_map_contains(self.entries@, id);
        }
        self.find(id).is_some()
    }

    /// A copy of the body stored under an id, or `None` when absent.
    pub fn get(&self, id: u32) -> (r: Option<Vec<u8>>)
        ensures
            match r {
                Some(body) => self.as_map().contains_key(id) && body@ == self.as_map()[id],
                None => !self.as_map().contains_key(id),
            },
    {
        proof {
            use_type_invariant(self);
            lemma_id_map_contains(self.entries@, id);
        }
        match self.find(id) {
            Some(i) => {
                proof {
                    lemma_id_map_value_at(self.entries@, i as int);
                }
                Some(vstd::slice::slice_to_vec(self.entries[i].1.as_slice()))
            },
            None => None,
        }
    }

    /// Store a body under an id, overwriting any present one.
    pub fn put(&mut self, id: u32, body: &[u8])
        ensures
            final(self).as_map() == old(self).as_map().insert(id, body@),
    {
        proof {
            use_type_invariant(&*self);
        }
        let ghost orig = self.entries@;
        let found = self.find(id);
        let mut entries: Vec<(u32, Vec<u8>)> = Vec::new();
        std::mem::swap(&mut entries, &mut self.entries);
        match found {
            Some(i) => {
                proof {
                    lemma_id_map_remove_index(orig, i as int);
                    lemma_unique_id_remove(orig, i as int);
                    orig.remove_ensures(i as int);
                }
                entries.remove(i);
                proof {
                    assert(forall|j: int| 0 <= j < entries@.len() ==> entries@[j].0 != id);
                }
                entries.push((id, vstd::slice::slice_to_vec(body)));
                proof {
                    assert(entries@.drop_last() =~= orig.remove(i as int));
                    assert(id_entries_to_map(entries@) =~= id_entries_to_map(orig).insert(
                        id,
                        body@,
                    ));
                }
            },
            None => {
                entries.push((id, vstd::slice::slice_to_vec(body)));
                proof {
                    assert(entries@.drop_last() =~= orig);
                    assert(id_entries_to_map(entries@) =~= id_entries_to_map(orig).insert(
                        id,
                        body@,
                    ));
                }
            },
        }
        self.entries = entries;
    }

    /// Delete the record with an id; absent ids leave the table unchanged.
    pub fn delete(&mut self, id: u32)
        ensures
            final(self).as_map() == old(self).as_map().remove(id),
    {
        proof {
            use_type_invariant(&*self);
            lemma_id_map_contains(self.entries@, id);
        }
        let ghost orig = self.entries@;
        let found = self.find(id);
        let mut entries: Vec<(u32, Vec<u8>)> = Vec::new();
        std::mem::swap(&mut entries, &mut self.entries);
        match found {
            Some(i) => {
                proof {
                    lemma_id_map_remove_index(orig, i as int);
                    lemma_unique_id_remove(orig, i as int);
                    orig.remove_ensures(i as int);
                }
                entries.remove(i);
            },
            None => {
                proof {
                    assert(id_entries_to_map(orig) =~= id_entries_to_map(orig).remove(id));
                }
            },
        }
        self.entries = entries;
    }
}

/// Do the entries carry pairwise distinct addresses?
pub open spec fn unique_address_keys(s: Seq<(Address, Vec<u8>)>) -> bool {
    forall|i: int, j: int| 0 <= i < j < s.len() ==> s[i].0@ != s[j].0@
}

/// The map an address-keyed entry list denotes.
pub open spec fn address_entries_to_map(s: Seq<(Address, Vec<u8>)>) -> Map<(Seq<u8>, i32), Seq<u8>>
    decreases s.len(),
{
    if s.len() == 0 {
        Map::empty()
    } else {
        address_entries_to_map(s.drop_last()).insert(s.last().0@, s.last().1@)
    }
}

/// An address is in the denoted map exactly when some entry carries it.
proof fn lemma_address_map_contains(s: Seq<(Address, Vec<u8>)>, k: (Seq<u8>, i32))
    ensures
        address_entries_to_map(s).contains_key(k) <==> (exists|i: int|
            0 <= i < s.len() && s[i].0@ == k),
    decreases s.len(),
{
    if s.len() > 0 {
        lemma_address_map_contains(s.drop_last(), k);
        if s.last().0@ == k {
            assert(s[s.len() - 1].0@ == k);
        } else {
            if exists|i: int| 0 <= i < s.len() && s[i].0@ == k {
                let i = choose|i: int| 0 <= i < s.len() && s[i].0@ == k;
                assert(s.drop_last()[i] == s[i]);
            }
        }
    }
}

/// With unique addresses, the denoted map sends each entry's address to
/// its body.
proof fn lemma_address_map_value_at(s: Seq<(Address, Vec<u8>)>, i: int)
    requires
        unique_address_keys(s),
        0 <= i < s.len(),
    ensures
        address_entries_to_map(s).contains_key(s[i].0@),
        address_entries_to_map(s)[s[i].0@] == s[i].1@,
    decreases s.len(),
{
    if i < s.len() - 1 {
        assert(s.drop_last()[i] == s[i]);
        lemma_address_map_value_at(s.drop_last(), i);
    }
}

/// With unique addresses, removing the entry at an index removes exactly
/// its address from the denoted map.
proof fn lemma_address_map_remove_index(s: Seq<(Address, Vec<u8>)>, i: int)
    requires
        unique_address_keys(s),
        0 <= i < s.len(),
    ensures
        address_entries_to_map(s.remove(i)) == address_entries_to_map(s).remove(s[i].0@),
    decreases s.len(),
{
    s.remove_ensures(i);
    if i == s.len() - 1 {
        assert(s.remove(i) =~= s.drop_last());
        lemma_address_map_contains(s.drop_last(), s[i].0@);
        assert(address_entries_to_map(s.drop_last()) =~= address_entries_to_map(s).remove(
            s[i].0@,
        ));
    } else {
        let t = s.remove(i);
        assert(t.drop_last() =~= s.drop_last().remove(i));
        assert(s.drop_last()[i] == s[i]);
        lemma_address_map_remove_index(s.drop_last(), i);
        assert(t.last() == s.last());
        assert(address_entries_to_map(t) =~= address_entries_to_map(s).remove(s[i].0@));
    }
}

/// Removing an entry keeps the remaining addresses pairwise distinct.
proof fn lemma_unique_address_remove(s: Seq<(Address, Vec<u8>)>, i: int)
    requires
        unique_address_keys(s),
        0 <= i < s.len(),
    ensures
        unique_address_keys(s.remove(i)),
{
    s.remove_ensures(i);
    let t = s.remove(i);
    assert forall|p: int, q: int| 0 <= p < q < t.len() implies t[p].0@ != t[q].0@ by {
        let p0 = if p < i {
            p
        } else {
            p + 1
        };
        let q0 = if q < i {
            q
        } else {
            q + 1
        };
        assert(t[p] == s[p0]);
        assert(t[q] == s[q0]);
    }
}

/// An address-keyed table of opaque record bodies.
pub struct AddressTable {
    entries: Vec<(Address, Vec<u8>)>,
}

impl AddressTable {
    #[verifier::type_invariant]
    spec fn wf(self) -> bool {
        unique_address_keys(self.entries@)
    }

    /// The map this table denotes.
    pub closed spec fn as_map(&self) -> Map<(Seq<u8>, i32), Seq<u8>> {
        address_entries_to_map(self.entries@)
    }

    /// An empty table.
    pub fn new() -> (r: AddressTable)
        ensures
            r.as_map() == Map::<(Seq<u8>, i32), Seq<u8>>::empty(),
    {
        AddressTable { entries: Vec::new() }
    }

    /// The index of the entry carrying an address, if one does.
    fn find(&self, address: &Address) -> (r: Option<usize>)
        ensures
            match r {
                Some(i) => i < self.entries@.len() && self.entries@[i as int].0@ == address@,
                None => forall|j: int| 0 <= j < self.entries@.len() ==> self.entries@[j].0@ != address@,
            },
    {
        let mut i: usize = 0;
        while i < self.entries.len()
            invariant
                0 <= i <= self.entries@.len(),
                forall|j: int| 0 <= j < i ==> self.entries@[j].0@ != address@,
            decreases self.entries@.len() - i,
        {
            if self.entries[i].0.matches(address) {
                return Some(i);
            }
            i = i + 1;
        }
        None
    }

    /// Is a record present for this address?
    pub fn contains(&self, address: &Address) -> (r: bool)
        ensures
            r == self.as_map().contains_key(address@),
    {
        proof {
            lemma_address_map_contains(self.entries@, address@);
        }
        self.find(address).is_some()
    }

    /// A copy of the body stored for an address, or `None` when absent.
    pub fn get(&self, address: &Address) -> (r: Option<Vec<u8>>)
        ensures
            match r {
                Some(body) => self.as_map().contains_key(address@) && body@ == self.as_map()[
                    address@
                ],
                None => !self.as_map().contains_key(address@),
            },
    {
        proof {
            use_type_invariant(self);
            lemma_address_map_contains(self.entries@, address@);
        }
        match self.find(address) {
            Some(i) => {
                proof {
                    lemma_address_map_value_at(self.entries@, i as int);
                }
                Some(vstd::slice::slice_to_vec(self.entries[i].1.as_slice()))
            },
            None => None,
        }
    }

    /// Store a body for an address, overwriting any present one.
    pub fn put(&mut self, address: &Address, body: &[u8])
        ensures
            final(self).as_map() == old(self).as_map().insert(address@, body@),
    {
        proof {
            use_type_invariant(&*self);
        }
        let ghost orig = self.entries@;
        let found = self.find(address);
        let mut entries: Vec<(Address, Vec<u8>)> = Vec::new();
        std::mem::swap(&mut entries, &mut self.entries);
        match found {
            Some(i) => {
                proof {
                    lemma_address_map_remove_index(orig, i as int);
                    lemma_unique_address_remove(orig, i as int);
                    orig.remove_ensures(i as int);
                }
                entries.remove(i);
                proof {
                    assert(forall|j: int| 0 <= j < entries@.len() ==> entries@[j].0@ != address@);
                }
                entries.push((address.duplicate(), vstd::slice::slice_to_vec(body)));
                proof {
                    assert(entries@.drop_last() =~= orig.remove(i as int));
                    assert(address_entries_to_map(entries@) =~= address_entries_to_map(
                        orig,
                    ).insert(address@, body@));
                }
            },
            None => {
                entries.push((address.duplicate(), vstd::slice::slice_to_vec(body)));
                proof {
                    assert(entries@.drop_last() =~= orig);
                    assert(address_entries_to_map(entries@) =~= address_entries_to_map(
                        orig,
                    ).insert(address@, body@));
                }
            },
        }
        self.entries = entries;
    }

    /// Delete the record for an address; absent addresses leave the table
    /// unchanged.
    pub fn delete(&mut self, address: &Address)
        ensures
            final(self).as_map() == old(self).as_map().remove(address@),
    {
        proof {
            use_type_invariant(&*self);
            lemma_address_map_contains(self.entries@, address@);
        }
        let ghost orig = self.entries@;
        let found = self.find(address);
        let mut entries: Vec<(Address, Vec<u8>)> = Vec::new();
        std::mem::swap(&mut entries, &mut self.entries);
        match found {
            Some(i) => {
                proof {
                    lemma_address_map_remove_index(orig, i as int);
                    lemma_unique_address_remove(orig, i as int);
                    orig.remove_ensures(i as int);
                }
                entries.remove(i);
            },
            None => {
                proof {
                    assert(address_entries_to_map(orig) =~= address_entries_to_map(orig).remove(
                        address@,
                    ));
                }
            },
        }
        self.entries = entries;
    }

    /// The device ids recorded under one name, each listed once, in
    /// table order.
    pub fn device_ids_with_name(&self, name: &[u8]) -> (r: Vec<i32>)
        ensures
            forall|d: i32| r@.contains(d) <==> self.as_map().contains_key((name@, d)),
            forall|i: int, j: int| 0 <= i < j < r@.len() ==> r@[i] != r@[j],
    {
        proof {
            use_type_invariant(self);
        }
        let mut ids: Vec<i32> = Vec::new();
        let mut i: usize = 0;
        while i < self.entries.len()
            invariant
                0 <= i <= self.entries@.len(),
                unique_address_keys(self.entries@),
                forall|k: int|
                    0 <= k < ids@.len() ==> (exists|j: int|
                        0 <= j < i && self.entries@[j].0@ == (name@, #[trigger] ids@[k])),
                forall|j: int|
                    0 <= j < i && self.entries@[j].0@.0 == name@ ==> ids@.contains(
                        self.entries@[j].0@.1,
                    ),
                forall|p: int, q: int| 0 <= p < q < ids@.len() ==> ids@[p] != ids@[q],
            decreases self.entries@.len() - i,
        {
            let entry = &self.entries[i];
            if bytes_eq(entry.0.name(), name) {
                let d = entry.0.device_id();
                proof {
                    assert(self.entries@[i as int].0@ == (name@, d));
                    if ids@.contains(d) {
                        let k = choose|k: int| 0 <= k < ids@.len() && ids@[k] == d;
                        let j = choose|j: int|
                            0 <= j < i && self.entries@[j].0@ == (name@, ids@[k]);
                        assert(self.entries@[j].0@ == self.entries@[i as int].0@);
                        assert(false);
                    }
                }
                let ghost prev = ids@;
                ids.push(d);
                proof {
                    assert(ids@ == prev.push(d));
                    assert(ids@[ids@.len() - 1] == d);
                    assert forall|k: int|
                        0 <= k < ids@.len() implies (exists|j: int|
                        0 <= j < i + 1 && self.entries@[j].0@ == (name@, #[trigger] ids@[k])) by {
                        if k < prev.len() {
                            assert(ids@[k] == prev[k]);
                        } else {
                            assert(ids@[k] == d);
                            assert(self.entries@[i as int].0@ == (name@, d));
                        }
                    }
                    assert forall|j: int|
                        0 <= j < i + 1 && self.entries@[j].0@.0 == name@ implies ids@.contains(
                        self.entries@[j].0@.1,
                    ) by {
                        if j < i {
                            assert(prev.contains(self.entries@[j].0@.1));
                            let k = choose|k: int|
                                0 <= k < prev.len() && prev[k] == self.entries@[j].0@.1;
                            assert(ids@[k] == self.entries@[j].0@.1);
                        } else {
                            assert(self.entries@[j].0@.1 == d);
                            assert(ids@[ids@.len() - 1] == d);
                        }
                    }
                    assert forall|p: int, q: int|
                        0 <= p < q < ids@.len() implies ids@[p] != ids@[q] by {
                        if q < prev.len() {
                            assert(ids@[p] == prev[p] && ids@[q] == prev[q]);
                        } else {
                            assert(ids@[q] == d);
                            assert(ids@[p] == prev[p]);
                            assert(!prev.contains(d));
                        }
                    }
                }
            }
            i = i + 1;
        }
        proof {
            assert forall|d: i32|
                ids@.contains(d) <==> self.as_map().contains_key((name@, d)) by {
                lemma_address_map_contains(self.entries@, (name@, d));
                if ids@.contains(d) {
                    let k = choose|k: int| 0 <= k < ids@.len() && ids@[k] == d;
                }
            }
        }
        ids
    }
}

/// An in-memory pre-key store.
pub struct InMemoryPreKeyStore {
    table: RecordTable,
}

impl InMemoryPreKeyStore {
    /// An empty pre-key store.
    pub fn new() -> (r: InMemoryPreKeyStore)
        ensures
            r.pre_keys() == Map::<u32, Seq<u8>>::empty(),
    {
        InMemoryPreKeyStore { table: RecordTable::new() }
    }
}

impl PreKeyStore for InMemoryPreKeyStore {
    closed spec fn pre_keys(&self) -> Map<u32, Seq<u8>> {
        self.table.as_map()
    }

    fn store(&mut self, id: u32, body: &[u8]) -> (r: Result<(), SignalError>)
        ensures
            r is Ok,
    {
        self.table.put(id, body);
        Ok(())
    }

    fn load(&self, id: u32) -> (r: Result<Vec<u8>, SignalError>)
        ensures
            self.pre_keys().contains_key(id) ==> r is Ok,
            !self.pre_keys().contains_key(id) ==> r == Err::<Vec<u8>, SignalError>(
                SignalError::NotFound,
            ),
    {
        match self.table.get(id) {
            Some(body) => Ok(body),
            None => Err(SignalError::NotFound),
        }
    }

    fn contains(&self, id: u32) -> (r: bool) {
        self.table.contains(id)
    }

    fn remove(&mut self, id: u32) -> (r: Result<(), SignalError>)
        ensures
            r is Ok,
    {
        self.table.delete(id);
        Ok(())
    }
}

/// An in-memory signed pre-key store.
pub struct InMemorySignedPreKeyStore {
    table: RecordTable,
}

impl InMemorySignedPreKeyStore {
    /// An empty signed pre-key store.
    pub fn new() -> (r: InMemorySignedPreKeyStore)
        ensures
            r.signed_pre_keys() == Map::<u32, Seq<u8>>::empty(),
    {
        InMemorySignedPreKeyStore { table: RecordTable::new() }
    }
}

impl SignedPreKeyStore for InMemorySignedPreKeyStore {
    closed spec fn signed_pre_keys(&self) -> Map<u32, Seq<u8>> {
        self.table.as_map()
    }

    fn load(&self, id: u32) -> (r: Result<Vec<u8>, SignalError>)
        ensures
            self.signed_pre_keys().contains_key(id) ==> r is Ok,
            !self.signed_pre_keys().contains_key(id) ==> r == Err::<Vec<u8>, SignalError>(
                SignalError::NotFound,
            ),
    {
        match self.table.get(id) {
            Some(body) => Ok(body),
            None => Err(SignalError::NotFound),
        }
    }

    fn store(&mut self, id: u32, body: &[u8]) -> (r: Result<(), SignalError>)
        ensures
            r is Ok,
    {
        self.table.put(id, body);
        Ok(())
    }

    fn contains(&self, id: u32) -> (r: bool) {
        self.table.contains(id)
    }

    fn remove(&mut self, id: u32) -> (r: Result<(), SignalError>)
        ensures
            r is Ok,
    {
        self.table.delete(id);
        Ok(())
    }
}

/// An in-memory session store.
pub struct InMemorySessionStore {
    table: AddressTable,
}

impl InMemorySessionStore {
    /// An empty session store.
    pub fn new() -> (r: InMemorySessionStore)
        ensures
            r.sessions() == Map::<(Seq<u8>, i32), Seq<u8>>::empty(),
    {
        InMemorySessionStore { table: AddressTable::new() }
    }
}

impl SessionStore for InMemorySessionStore {
    closed spec fn sessions(&self) -> Map<(Seq<u8>, i32), Seq<u8>> {
        self.table.as_map()
    }

    fn load_session(&self, address: &Address) -> (r: Result<Option<Vec<u8>>, SignalError>)
        ensures
            r is Ok,
    {
        Ok(self.table.get(address))
    }

    fn store_session(&mut self, address: &Address, record: &[u8]) -> (r: Result<(), SignalError>)
        ensures
            r is Ok,
    {
        self.table.put(address, record);
        Ok(())
    }

    fn contains_session(&self, address: &Address) -> (r: Result<bool, SignalError>)
        ensures
            r is Ok,
    {
        Ok(self.table.contains(address))
    }

    fn delete_session(&mut self, address: &Address) -> (r: Result<(), SignalError>)
        ensures
            r is Ok,
    {
        self.table.delete(address);
        Ok(())
    }

    fn sub_device_sessions(&self, name: &[u8]) -> (r: Result<Vec<i32>, SignalError>)
        ensures
            r is Ok,
    {
        Ok(self.table.device_ids_with_name(name))
    }
}

/// An in-memory identity key store: the local key pair and registration
/// id, the recorded remote identity keys, and non-key metadata notes kept
/// alongside them.
pub struct InMemoryIdentityKeyStore {
    public_key: Vec<u8>,
    private_key: Vec<u8>,
    registration: u32,
    keys: AddressTable,
    notes: AddressTable,
}

impl InMemoryIdentityKeyStore {
    /// A store configured with the local key pair and registration id,
    /// with no remote identity on record.
    pub fn new(key_pair: &KeyPair, registration_id: u32) -> (r: InMemoryIdentityKeyStore)
        ensures
            r.local_key_pair() == (spec_serialize_public(key_pair.public@), key_pair.private@),
            r.local_id() == registration_id,
            r.identities() == Map::<(Seq<u8>, i32), Seq<u8>>::empty(),
            r.metadata() == Map::<(Seq<u8>, i32), Seq<u8>>::empty(),
    {
        InMemoryIdentityKeyStore {
            public_key: key_pair.public.serialize(),
            private_key: key_pair.private.serialize(),
            registration: registration_id,
            keys: AddressTable::new(),
            notes: AddressTable::new(),
        }
    }

    /// Keep a non-key metadata note alongside an address. Notes survive
    /// removal of the recorded key for the address.
    pub fn set_metadata(&mut self, address: &Address, note: &[u8])
        ensures
            final(self).metadata() == old(self).metadata().insert(address@, note@),
            final(self).identities() == old(self).identities(),
            final(self).local_key_pair() == old(self).local_key_pair(),
            final(self).local_id() == old(self).local_id(),
    {
        self.notes.put(address, note);
    }

    /// The metadata note kept for an address, if any.
    pub fn get_metadata(&self, address: &Address) -> (r: Option<Vec<u8>>)
        ensures
            match r {
                Some(note) => self.metadata().contains_key(address@) && note@ == self.metadata()[
                    address@
                ],
                None => !self.metadata().contains_key(address@),
            },
    {
        self.notes.get(address)
    }
}

impl IdentityKeyStore for InMemoryIdentityKeyStore {
    closed spec fn identities(&self) -> Map<(Seq<u8>, i32), Seq<u8>> {
        self.keys.as_map()
    }

    closed spec fn metadata(&self) -> Map<(Seq<u8>, i32), Seq<u8>> {
        self.notes.as_map()
    }

    closed spec fn local_key_pair(&self) -> (Seq<u8>, Seq<u8>) {
        (self.public_key@, self.private_key@)
    }

    closed spec fn local_id(&self) -> u32 {
        self.registration
    }

    fn identity_key_pair(&self) -> (r: Result<(Vec<u8>, Vec<u8>), SignalError>)
        ensures
            r is Ok,
    {
        Ok(
            (
                vstd::slice::slice_to_vec(self.public_key.as_slice()),
                vstd::slice::slice_to_vec(self.private_key.as_slice()),
            ),
        )
    }

    fn local_registration_id(&self) -> (r: Result<u32, SignalError>)
        ensures
            r is Ok,
    {
        Ok(self.registration)
    }

    fn is_trusted_identity(&self, address: &Address, identity_key: &[u8]) -> (r: Result<
        bool,
        SignalError,
    >)
        ensures
            r is Ok,
    {
        match self.keys.get(address) {
            None => Ok(true),
            Some(recorded) => Ok(bytes_eq(recorded.as_slice(), identity_key)),
        }
    }

    fn get_identity(&self, address: &Address) -> (r: Result<Option<Vec<u8>>, SignalError>)
        ensures
            r is Ok,
    {
        Ok(self.keys.get(address))
    }

    fn save_identity(&mut self, address: &Address, identity_key: &[u8]) -> (r: Result<
        (),
        SignalError,
    >)
        ensures
            r is Ok,
    {
        if identity_key.len() == 0 {
            self.keys.delete(address);
        } else {
            self.keys.put(address, identity_key);
        }
        Ok(())
    }
}

} // verus!
