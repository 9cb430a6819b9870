//! The database as the service sees it: snapshots, forks, and the indexes opened over them.
use vstd::prelude::*;

use crate::btc::Transaction;
use crate::config::StoredConfiguration;
use crate::crypto;
use crate::data_layout::{InputSignatures, TxInputId};
use crate::table::{Key, Table};

verus! {

/// Where an index lies in the database, as a value of the specifications.
pub struct Address {
    pub name: Seq<char>,
    pub family: Option<Seq<u8>>,
}

/// Where an index lies in the database: its name and, where it belongs to a family of indexes
/// under one name, its member of the family.
#[derive(Clone, Copy, Debug)]
pub struct IndexAddress {
    pub name: &'static str,
    pub family: Option<crypto::PublicKey>,
}

impl View for IndexAddress {
    type V = Address;

    open spec fn view(&self) -> Address {
        Address {
            name: self.name@,
            family: match self.family {
                Some(key) => Some(key@),
                None => None,
            },
        }
    }
}

impl Key for IndexAddress {
    fn is_same(&self, other: &Self) -> (same: bool)
        ensures
            same == (self.name@ == other.name@ && match (self.family, other.family) {
                (Some(key), Some(other_key)) => key.bytes@ == other_key.bytes@,
                (None, None) => true,
                _ => false,
            }),
    {
        let same_family = match (&self.family, &other.family) {
            (Some(key), Some(other_key)) => *key == *other_key,
            (None, None) => true,
            _ => false,
        };
        same_family && self.name.to_owned() == other.name.to_owned()
    }
}

/// The state of the database at one moment.
///
/// An index that was never written to is empty.
pub struct Snapshot {
    lists: Table<IndexAddress, Vec<Transaction>>,
    transactions: Table<IndexAddress, Table<crypto::Hash, Transaction>>,
    signatures: Table<IndexAddress, Table<TxInputId, InputSignatures>>,
    actual: StoredConfiguration,
    following: Option<StoredConfiguration>,
}

impl Snapshot {
    /// The list of transactions at `address`.
    pub closed spec fn list(&self, address: Address) -> Seq<Transaction> {
        if self.lists@.contains_key(address) {
            self.lists@[address]@
        } else {
            Seq::empty()
        }
    }

    /// The map from identifiers to transactions at `address`.
    pub closed spec fn transaction_map(&self, address: Address) -> Map<Seq<u8>, Transaction> {
        if self.transactions@.contains_key(address) {
            self.transactions@[address]@
        } else {
            Map::empty()
        }
    }

    /// The map from transaction inputs to signatures at `address`.
    pub closed spec fn signature_map(&self, address: Address) -> Map<
        (Seq<u8>, u32),
        InputSignatures,
    > {
        if self.signatures@.contains_key(address) {
            self.signatures@[address]@
        } else {
            Map::empty()
        }
    }

    /// The configuration that is in force.
    pub closed spec fn actual(&self) -> StoredConfiguration {
        self.actual
    }

    /// The configuration that comes into force next, where one is scheduled.
    pub closed spec fn following(&self) -> Option<StoredConfiguration> {
        self.following
    }

    /// Whether `self` and `other` hold the same configurations.
    pub open spec fn same_configurations(&self, other: Snapshot) -> bool {
        self.actual() == other.actual() && self.following() == other.following()
    }

    /// Whether `after` is `self` with `items` in the list at `address`, and nothing else changed.
    pub open spec fn list_set(
        &self,
        after: Snapshot,
        address: Address,
        items: Seq<Transaction>,
    ) -> bool {
        &&& after.list(address) == items
        &&& forall|a: Address| a != address ==> #[trigger] after.list(a) == self.list(a)
        &&& forall|a: Address| #[trigger] after.transaction_map(a) == self.transaction_map(a)
        &&& forall|a: Address| #[trigger] after.signature_map(a) == self.signature_map(a)
        &&& self.same_configurations(after)
    }

    /// Whether `after` is `self` with `items` in the map of transactions at `address`, and
    /// nothing else changed.
    pub open spec fn transaction_map_set(
        &self,
        after: Snapshot,
        address: Address,
        items: Map<Seq<u8>, Transaction>,
    ) -> bool {
        &&& after.transaction_map(address) == items
        &&& forall|a: Address|
            a != address ==> #[trigger] after.transaction_map(a) == self.transaction_map(a)
        &&& forall|a: Address| #[trigger] after.list(a) == self.list(a)
        &&& forall|a: Address| #[trigger] after.signature_map(a) == self.signature_map(a)
        &&& self.same_configurations(after)
    }

    /// Whether `after` is `self` with `items` in the map of signatures at `address`, and
    /// nothing else changed.
    pub open spec fn signature_map_set(
        &self,
        after: Snapshot,
        address: Address,
        items: Map<(Seq<u8>, u32), InputSignatures>,
    ) -> bool {
        &&& after.signature_map(address) == items
        &&& forall|a: Address|
            a != address ==> #[trigger] after.signature_map(a) == self.signature_map(a)
        &&& forall|a: Address| #[trigger] after.list(a) == self.list(a)
        &&& forall|a: Address| #[trigger] after.transaction_map(a) == self.transaction_map(a)
        &&& self.same_configurations(after)
    }

    /// A database in which every index is empty.
    pub fn new(
        actual: StoredConfiguration,
        following: Option<StoredConfiguration>,
    ) -> (snapshot: Snapshot)
        ensures
            forall|a: Address| #[trigger] snapshot.list(a) == Seq::<Transaction>::empty(),
            forall|a: Address| #[trigger]
                snapshot.transaction_map(a) == Map::<Seq<u8>, Transaction>::empty(),
            forall|a: Address| #[trigger]
                snapshot.signature_map(a) == Map::<(Seq<u8>, u32), InputSignatures>::empty(),
            snapshot.actual() == actual,
            snapshot.following() == following,
    {
        Snapshot {
            lists: Table::new(),
            transactions: Table::new(),
            signatures: Table::new(),
            actual,
            following,
        }
    }

    /// The configuration that is in force.
    pub fn actual_configuration(&self) -> (configuration: &StoredConfiguration)
        ensures
            *configuration == self.actual(),
    {
        &self.actual
    }

    /// The configuration that comes into force next, where one is scheduled.
    pub fn following_configuration(&self) -> (configuration: Option<&StoredConfiguration>)
        ensures
            match configuration {
                Some(c) => self.following() == Some(*c),
                None => self.following() is None,
            },
    {
        match &self.following {
            Some(configuration) => Some(configuration),
            None => None,
        }
    }
}

/// A database state that is being changed.
pub struct Fork {
    pub state: Snapshot,
}

impl Fork {
    /// Starts from the state `snapshot`.
    pub fn new(snapshot: Snapshot) -> (fork: Fork)
        ensures
            fork.state == snapshot,
    {
        Fork { state: snapshot }
    }

    /// Ends the changes.
    pub fn into_snapshot(self) -> (snapshot: Snapshot)
        ensures
            snapshot == self.state,
    {
        self.state
    }
}

/// Access to a database state for reading.
pub trait SnapshotAccess {
    /// The state that is read.
    spec fn snapshot(&self) -> Snapshot;

    /// The state that is read.
    fn as_snapshot(&self) -> (snapshot: &Snapshot)
        ensures
            *snapshot == self.snapshot(),
    ;
}

impl SnapshotAccess for Snapshot {
    open spec fn snapshot(&self) -> Snapshot {
        *self
    }

    fn as_snapshot(&self) -> (snapshot: &Snapshot)
        ensures
            *snapshot == *self,
    {
        self
    }
}

impl SnapshotAccess for Fork {
    open spec fn snapshot(&self) -> Snapshot {
        self.state
    }

    fn as_snapshot(&self) -> (snapshot: &Snapshot)
        ensures
            *snapshot == self.state,
    {
        &self.state
    }
}

impl<'a, T: SnapshotAccess> SnapshotAccess for &'a T {
    open spec fn snapshot(&self) -> Snapshot {
        (**self).snapshot()
    }

    fn as_snapshot(&self) -> (snapshot: &Snapshot)
        ensures
            *snapshot == (**self).snapshot(),
    {
        (**self).as_snapshot()
    }
}

impl<'a> SnapshotAccess for &'a mut Fork {
    open spec fn snapshot(&self) -> Snapshot {
        (**self).state
    }

    fn as_snapshot(&self) -> (snapshot: &Snapshot)
        ensures
            *snapshot == old(*self).state,
    {
        &(**self).state
    }
}

/// A list of transactions, opened over `access`.
pub struct ListIndex<T> {
    pub address: IndexAddress,
    pub access: T,
}

impl<T: SnapshotAccess> View for ListIndex<T> {
    type V = Seq<Transaction>;

    open spec fn view(&self) -> Seq<Transaction> {
        self.access.snapshot().list(self.address@)
    }
}

impl<T: SnapshotAccess> ListIndex<T> {
    /// The number of transactions.
    pub fn len(&self) -> (len: usize)
        ensures
            len == self@.len(),
    {
        match self.access.as_snapshot().lists.get(&self.address) {
            Some(items) => items.len(),
            None => 0,
        }
    }

    /// The transaction at `index`.
    pub fn get(&self, index: usize) -> (item: Option<&Transaction>)
        ensures
            match item {
                Some(t) => index < self@.len() && *t == self@[index as int],
                None => index >= self@.len(),
            },
    {
        match self.access.as_snapshot().lists.get(&self.address) {
            Some(items) => {
                if index < items.len() {
                    Some(&items[index])
                } else {
                    None
                }
            },
            None => None,
        }
    }
}

impl<'a> ListIndex<&'a mut Fork> {
    /// Appends `item` to the list.
    pub fn push(&mut self, item: Transaction)
        ensures
            final(self).address == old(self).address,
            old(self).access.state.list_set(
                final(self).access.state,
                old(self).address@,
                old(self)@.push(item),
            ),
            final(self)@ == old(self)@.push(item),
            forall|a: Address|
                a != old(self).address@ ==> #[trigger] final(self).access.state.list(a) == old(self).access.state.list(
                    a,
                ),
            forall|a: Address|
                #[trigger] final(self).access.state.transaction_map(a) == old(self).access.state.transaction_map(
                    a,
                ),
            forall|a: Address|
                #[trigger] final(self).access.state.signature_map(a) == old(self).access.state.signature_map(
                    a,
                ),
            final(self).access.state.actual() == old(self).access.state.actual(),
            final(self).access.state.following() == old(self).access.state.following(),
            *final(final(self).access) == *final(old(self).access),
    {
        let mut items: Vec<Transaction> = match self.access.state.lists.remove(&self.address) {
            Some(items) => items,
            None => Vec::new(),
        };
        items.push(item);
        self.access.state.lists.put(self.address, items);
    }
}

/// A map from identifiers to transactions, opened over `access`.
pub struct TransactionIndex<T> {
    pub address: IndexAddress,
    pub access: T,
}

impl<T: SnapshotAccess> View for TransactionIndex<T> {
    type V = Map<Seq<u8>, Transaction>;

    open spec fn view(&self) -> Map<Seq<u8>, Transaction> {
        self.access.snapshot().transaction_map(self.address@)
    }
}

impl<T: SnapshotAccess> TransactionIndex<T> {
    /// The transaction at `key`.
    pub fn get(&self, key: &crypto::Hash) -> (item: Option<&Transaction>)
        ensures
            match item {
                Some(t) => self@.contains_key(key@) && *t == self@[key@],
                None => !self@.contains_key(key@),
            },
    {
        match self.access.as_snapshot().transactions.get(&self.address) {
            Some(items) => items.get(key),
            None => None,
        }
    }

    /// Tells whether there is a transaction at `key`.
    pub fn contains(&self, key: &crypto::Hash) -> (found: bool)
        ensures
            found == self@.contains_key(key@),
    {
        self.get(key).is_some()
    }
}

impl<'a> TransactionIndex<&'a mut Fork> {
    /// Puts `item` at `key`, in place of the transaction that may stand there.
    pub fn put(&mut self, key: crypto::Hash, item: Transaction)
        ensures
            final(self).address == old(self).address,
            old(self).access.state.transaction_map_set(
                final(self).access.state,
                old(self).address@,
                old(self)@.insert(key@, item),
            ),
            final(self)@ == old(self)@.insert(key@, item),
            forall|a: Address|
                #[trigger] final(self).access.state.list(a) == old(self).access.state.list(
                    a,
                ),
            forall|a: Address|
                a != old(self).address@ ==> #[trigger] final(self).access.state.transaction_map(a) == old(self).access.state.transaction_map(
                    a,
                ),
            forall|a: Address|
                #[trigger] final(self).access.state.signature_map(a) == old(self).access.state.signature_map(
                    a,
                ),
            final(self).access.state.actual() == old(self).access.state.actual(),
            final(self).access.state.following() == old(self).access.state.following(),
            *final(final(self).access) == *final(old(self).access),
    {
        let mut items: Table<crypto::Hash, Transaction> =
            match self.access.state.transactions.remove(&self.address) {
            Some(items) => items,
            None => Table::new(),
        };
        items.put(key, item);
        self.access.state.transactions.put(self.address, items);
    }

    /// Takes the transaction that may stand at `key` out of the map.
    pub fn remove(&mut self, key: &crypto::Hash)
        ensures
            final(self).address == old(self).address,
            old(self).access.state.transaction_map_set(
                final(self).access.state,
                old(self).address@,
                old(self)@.remove(key@),
            ),
            final(self)@ == old(self)@.remove(key@),
            forall|a: Address|
                #[trigger] final(self).access.state.list(a) == old(self).access.state.list(
                    a,
                ),
            forall|a: Address|
                a != old(self).address@ ==> #[trigger] final(self).access.state.transaction_map(a) == old(self).access.state.transaction_map(
                    a,
                ),
            forall|a: Address|
                #[trigger] final(self).access.state.signature_map(a) == old(self).access.state.signature_map(
                    a,
                ),
            final(self).access.state.actual() == old(self).access.state.actual(),
            final(self).access.state.following() == old(self).access.state.following(),
            *final(final(self).access) == *final(old(self).access),
    {
        let mut items: Table<crypto::Hash, Transaction> =
            match self.access.state.transactions.remove(&self.address) {
            Some(items) => items,
            None => Table::new(),
        };
        let _ = items.remove(key);
        self.access.state.transactions.put(self.address, items);
    }
}

/// A map from transaction inputs to signatures, opened over `access`.
pub struct SignatureIndex<T> {
    pub address: IndexAddress,
    pub access: T,
}

impl<T: SnapshotAccess> View for SignatureIndex<T> {
    type V = Map<(Seq<u8>, u32), InputSignatures>;

    open spec fn view(&self) -> Map<(Seq<u8>, u32), InputSignatures> {
        self.access.snapshot().signature_map(self.address@)
    }
}

impl<T: SnapshotAccess> SignatureIndex<T> {
    /// The signatures of the input `key`.
    pub fn get(&self, key: &TxInputId) -> (item: Option<&InputSignatures>)
        ensures
            match item {
                Some(s) => self@.contains_key(key@) && *s == self@[key@],
                None => !self@.contains_key(key@),
            },
    {
        match self.access.as_snapshot().signatures.get(&self.address) {
            Some(items) => items.get(key),
            None => None,
        }
    }
}

impl<'a> SignatureIndex<&'a mut Fork> {
    /// Puts `item` at the input `key`, in place of the signatures that may stand there.
    pub fn put(&mut self, key: TxInputId, item: InputSignatures)
        ensures
            final(self).address == old(self).address,
            old(self).access.state.signature_map_set(
                final(self).access.state,
                old(self).address@,
                old(self)@.insert(key@, item),
            ),
            final(self)@ == old(self)@.insert(key@, item),
            forall|a: Address|
                #[trigger] final(self).access.state.list(a) == old(self).access.state.list(
                    a,
                ),
            forall|a: Address|
                #[trigger] final(self).access.state.transaction_map(a) == old(self).access.state.transaction_map(
                    a,
                ),
            forall|a: Address|
                a != old(self).address@ ==> #[trigger] final(self).access.state.signature_map(a) == old(self).access.state.signature_map(
                    a,
                ),
            final(self).access.state.actual() == old(self).access.state.actual(),
            final(self).access.state.following() == old(self).access.state.following(),
            *final(final(self).access) == *final(old(self).access),
    {
        let mut items: Table<TxInputId, InputSignatures> =
            match self.access.state.signatures.remove(&self.address) {
            Some(items) => items,
            None => Table::new(),
        };
        items.put(key, item);
        self.access.state.signatures.put(self.address, items);
    }

    /// Takes the signatures that may stand at the input `key` out of the map.
    pub fn remove(&mut self, key: &TxInputId)
        ensures
            final(self).address == old(self).address,
            old(self).access.state.signature_map_set(
                final(self).access.state,
                old(self).address@,
                old(self)@.remove(key@),
            ),
            final(self)@ == old(self)@.remove(key@),
            forall|a: Address|
                #[trigger] final(self).access.state.list(a) == old(self).access.state.list(
                    a,
                ),
            forall|a: Address|
                #[trigger] final(self).access.state.transaction_map(a) == old(self).access.state.transaction_map(
                    a,
                ),
            forall|a: Address|
                a != old(self).address@ ==> #[trigger] final(self).access.state.signature_map(a) == old(self).access.state.signature_map(
                    a,
                ),
            final(self).access.state.actual() == old(self).access.state.actual(),
            final(self).access.state.following() == old(self).access.state.following(),
            *final(final(self).access) == *final(old(self).access),
    {
        let mut items: Table<TxInputId, InputSignatures> =
            match self.access.state.signatures.remove(&self.address) {
            Some(items) => items,
            None => Table::new(),
        };
        let _ = items.remove(key);
        self.access.state.signatures.put(self.address, items);
    }
}

} // verus!
