//! Storage and account ports.
//!
//! The host blockchain implements these interfaces; the core never contains a
//! concrete storage engine and only calls through them. Storage keys are
//! scoped by the hash of the contract that owns them, so two contracts can
//! never alias each other's entries.
//!
//! An implementation states through `obeys_model` whether it promises the
//! exact map semantics written on the methods; the in-memory reference
//! implementations here do, while the no-op stubs do not and promise nothing.

use vstd::prelude::*;
use vstd::slice::slice_to_vec;

verus! {

/// An opaque failure surfaced verbatim from a host-supplied port
/// implementation (an unreachable backend, insufficient balance, and the
/// like).
#[derive(Debug, PartialEq, Eq)]
pub struct PortError {
    /// The host's description of the failure.
    pub message: String,
}

/// Compares two byte strings by contents.
pub fn bytes_eq(a: &[u8], b: &[u8]) -> (r: bool)
    ensures
        r == (a@ == b@),
{
    if a.len() != b.len() {
        return false;
    }
    let n = a.len();
    let mut i: usize = 0;
    while i < n
        invariant
            0 <= i <= n,
            n == a@.len() == b@.len(),
            forall|j: int| 0 <= j < i ==> a@[j] == b@[j],
        decreases n - i,
    {
        if a[i] != b[i] {
            return false;
        }
        i += 1;
    }
    proof {
        assert(a@ =~= b@);
    }
    true
}

/// Storage port: keyed persistent state the host supplies to contracts.
///
/// Every access is scoped by a contract hash; the view is a map from the
/// `(contract hash, key)` pair to the stored value.
pub trait StorageProvider: Sized {
    /// The stored contents, as a map from scoped key to value.
    spec fn view(&self) -> Map<(Seq<u8>, Seq<u8>), Seq<u8>>;

    /// Whether this implementation promises the exact map semantics stated
    /// on the methods. A stub or a fallible remote backend does not.
    spec fn obeys_model() -> bool;

    /// Read a value from contract storage: the value stored under
    /// `(contract_hash, key)`, or none.
    fn get(&self, contract_hash: &[u8; 32], key: &[u8]) -> (r: Result<Option<Vec<u8>>, PortError>)
        ensures
            Self::obeys_model() ==> match r {
                Ok(Some(v)) => self.view().contains_key((contract_hash@, key@)) && v@
                    == self.view()[(contract_hash@, key@)],
                Ok(None) => !self.view().contains_key((contract_hash@, key@)),
                Err(_) => false,
            },
    ;

    /// Write a value to contract storage under `(contract_hash, key)`,
    /// replacing any previous value.
    fn set(&mut self, contract_hash: &[u8; 32], key: &[u8], value: &[u8]) -> (r: Result<
        (),
        PortError,
    >)
        ensures
            Self::obeys_model() ==> r == Ok::<(), PortError>(()) && final(self).view() == old(
                self,
            ).view().insert((contract_hash@, key@), value@),
    ;

    /// Delete a key from contract storage; reports whether the key existed.
    fn delete(&mut self, contract_hash: &[u8; 32], key: &[u8]) -> (r: Result<bool, PortError>)
        ensures
            Self::obeys_model() ==> r == Ok::<bool, PortError>(
                old(self).view().contains_key((contract_hash@, key@)),
            ) && final(self).view() == old(self).view().remove((contract_hash@, key@)),
    ;
}

/// The balance an address holds under a balance map; an unknown address
/// holds zero.
pub open spec fn spec_balance_of(balances: Map<Seq<u8>, u64>, address: Seq<u8>) -> u64 {
    if balances.contains_key(address) {
        balances[address]
    } else {
        0
    }
}

/// The balances after moving `amount` from `from` to `to`: none when the
/// source balance is insufficient or the destination would overflow; a
/// transfer to oneself changes nothing.
pub open spec fn spec_transfer(
    balances: Map<Seq<u8>, u64>,
    from: Seq<u8>,
    to: Seq<u8>,
    amount: u64,
) -> Option<Map<Seq<u8>, u64>> {
    let from_balance = spec_balance_of(balances, from);
    let to_balance = spec_balance_of(balances, to);
    if from_balance < amount {
        None
    } else if from == to {
        Some(balances)
    } else if to_balance + amount > u64::MAX {
        None
    } else {
        Some(
            balances.insert(from, (from_balance - amount) as u64).insert(
                to,
                (to_balance + amount) as u64,
            ),
        )
    }
}

/// Account port: balance queries and transfers the host supplies to
/// contracts. Insufficient-funds semantics are owned by the implementer: an
/// implementation may fail any call, but an implementation that obeys the
/// model moves balances exactly as [`spec_transfer`] says whenever it
/// reports success.
pub trait AccountProvider: Sized {
    /// The balances, as a map from 32-byte address to amount.
    spec fn view(&self) -> Map<Seq<u8>, u64>;

    /// Whether this implementation promises the exact semantics stated on
    /// the methods.
    spec fn obeys_model() -> bool;

    /// Get the balance of an account, in smallest units.
    fn get_balance(&self, address: &[u8; 32]) -> (r: Result<u64, PortError>)
        ensures
            Self::obeys_model() ==> r == Ok::<u64, PortError>(
                spec_balance_of(self.view(), address@),
            ),
    ;

    /// Transfer tokens from one account to another.
    fn transfer(&mut self, from: &[u8; 32], to: &[u8; 32], amount: u64) -> (r: Result<
        (),
        PortError,
    >)
        ensures
            Self::obeys_model() ==> match r {
                Ok(_) => spec_transfer(old(self).view(), from@, to@, amount) matches Some(m)
                    && final(self).view() == m,
                Err(_) => final(self).view() == old(self).view(),
            },
    ;
}

/// Law: a value written under a scoped key is exactly what a following read
/// of the same contract and key observes. A storage write leaves the port's
/// contents with the scoped key bound to the value, and a read of that same
/// contract hash and key then returns that value, whatever was stored
/// before.
pub proof fn lemma_storage_round_trip(
    storage: Map<(Seq<u8>, Seq<u8>), Seq<u8>>,
    contract_hash: Seq<u8>,
    key: Seq<u8>,
    value: Seq<u8>,
)
    ensures
        storage.insert((contract_hash, key), value).contains_key((contract_hash, key)),
        storage.insert((contract_hash, key), value)[(contract_hash, key)] == value,
{
}

/// Law: two contracts with different hashes never observe each other's
/// values through scoped storage. A write scoped by one contract's hash
/// leaves every lookup scoped by a different contract's hash exactly as it
/// was, even for the same key.
pub proof fn lemma_storage_isolation(
    storage: Map<(Seq<u8>, Seq<u8>), Seq<u8>>,
    writer_hash: Seq<u8>,
    reader_hash: Seq<u8>,
    written_key: Seq<u8>,
    read_key: Seq<u8>,
    value: Seq<u8>,
)
    requires
        writer_hash != reader_hash,
    ensures
        storage.insert((writer_hash, written_key), value).contains_key((reader_hash, read_key))
            == storage.contains_key((reader_hash, read_key)),
        storage.contains_key((reader_hash, read_key)) ==> storage.insert(
            (writer_hash, written_key),
            value,
        )[(reader_hash, read_key)] == storage[(reader_hash, read_key)],
{
}

/// No-op storage provider: a test double that stores nothing, reads nothing
/// and reports every key as absent.
pub struct NoOpStorage;

impl StorageProvider for NoOpStorage {
    open spec fn view(&self) -> Map<(Seq<u8>, Seq<u8>), Seq<u8>> {
        Map::empty()
    }

    open spec fn obeys_model() -> bool {
        false
    }

    fn get(&self, contract_hash: &[u8; 32], key: &[u8]) -> (r: Result<Option<Vec<u8>>, PortError>)
    {
        Ok(None)
    }

    fn set(&mut self, contract_hash: &[u8; 32], key: &[u8], value: &[u8]) -> (r: Result<
        (),
        PortError,
    >) {
        Ok(())
    }

    fn delete(&mut self, contract_hash: &[u8; 32], key: &[u8]) -> (r: Result<bool, PortError>) {
        Ok(false)
    }
}

/// No-op account provider: a test double on which every balance is zero and
/// every transfer is accepted and discarded.
pub struct NoOpAccounts;

impl AccountProvider for NoOpAccounts {
    open spec fn view(&self) -> Map<Seq<u8>, u64> {
        Map::empty()
    }

    open spec fn obeys_model() -> bool {
        false
    }

    fn get_balance(&self, address: &[u8; 32]) -> (r: Result<u64, PortError>) {
        Ok(0)
    }

    fn transfer(&mut self, from: &[u8; 32], to: &[u8; 32], amount: u64) -> (r: Result<
        (),
        PortError,
    >) {
        Ok(())
    }
}

/// One stored record of the in-memory storage: a scoped key and its value.
pub struct StorageEntry {
    /// Hash of the contract owning the record.
    pub contract_hash: [u8; 32],
    /// The key within that contract's storage.
    pub key: Vec<u8>,
    /// The stored value.
    pub value: Vec<u8>,
}

/// The mathematical model of one stored record.
pub struct StorageRecord {
    /// Hash of the contract owning the record.
    pub contract_hash: Seq<u8>,
    /// The key within that contract's storage.
    pub key: Seq<u8>,
    /// The stored value.
    pub value: Seq<u8>,
}

impl StorageRecord {
    /// The scoped key of the record.
    pub open spec fn scoped_key(&self) -> (Seq<u8>, Seq<u8>) {
        (self.contract_hash, self.key)
    }
}

impl View for StorageEntry {
    type V = StorageRecord;

    open spec fn view(&self) -> StorageRecord {
        StorageRecord { contract_hash: self.contract_hash@, key: self.key@, value: self.value@ }
    }
}

/// The map a record sequence denotes; a later record for the same scoped key
/// overrides an earlier one.
pub open spec fn storage_map_of(records: Seq<StorageRecord>) -> Map<(Seq<u8>, Seq<u8>), Seq<u8>>
    decreases records.len(),
{
    if records.len() == 0 {
        Map::empty()
    } else {
        storage_map_of(records.drop_last()).insert(
            records.last().scoped_key(),
            records.last().value,
        )
    }
}

/// Position of the last record for `k`, or none.
pub open spec fn last_record_for(records: Seq<StorageRecord>, k: (Seq<u8>, Seq<u8>)) -> Option<int>
    decreases records.len(),
{
    if records.len() == 0 {
        None
    } else if records.last().scoped_key() == k {
        Some(records.len() - 1)
    } else {
        last_record_for(records.drop_last(), k)
    }
}

/// The records with every record for `k` taken out, order kept.
pub open spec fn records_without(records: Seq<StorageRecord>, k: (Seq<u8>, Seq<u8>)) -> Seq<
    StorageRecord,
>
    decreases records.len(),
{
    if records.len() == 0 {
        records
    } else if records.last().scoped_key() == k {
        records_without(records.drop_last(), k)
    } else {
        records_without(records.drop_last(), k).push(records.last())
    }
}

/// The map lookup of `k` is decided by the last record for `k`.
proof fn lemma_storage_map_lookup(records: Seq<StorageRecord>, k: (Seq<u8>, Seq<u8>))
    ensures
        match last_record_for(records, k) {
            Some(p) => {
                &&& 0 <= p < records.len()
                &&& records[p].scoped_key() == k
                &&& storage_map_of(records).contains_key(k)
                &&& storage_map_of(records)[k] == records[p].value
                &&& forall|q: int|
                    p < q < records.len() ==> (#[trigger] records[q].scoped_key()) != k
            },
            None => {
                &&& !storage_map_of(records).contains_key(k)
                &&& forall|q: int|
                    0 <= q < records.len() ==> (#[trigger] records[q].scoped_key()) != k
            },
        },
    decreases records.len(),
{
    if records.len() > 0 && records.last().scoped_key() != k {
        lemma_storage_map_lookup(records.drop_last(), k);
        assert forall|q: int| 0 <= q < records.len() - 1 implies records.drop_last()[q]
            == records[q] by {}
    }
}

/// Taking every record for `k` out removes exactly `k` from the map.
proof fn lemma_storage_map_without(records: Seq<StorageRecord>, k: (Seq<u8>, Seq<u8>))
    ensures
        storage_map_of(records_without(records, k)) == storage_map_of(records).remove(k),
    decreases records.len(),
{
    if records.len() == 0 {
        assert(storage_map_of(records_without(records, k)) =~= storage_map_of(records).remove(k));
    } else {
        lemma_storage_map_without(records.drop_last(), k);
        let e = records.last();
        if e.scoped_key() == k {
            assert(storage_map_of(records_without(records, k)) =~= storage_map_of(records).remove(
                k,
            ));
        } else {
            let w = records_without(records.drop_last(), k);
            assert(w.push(e).drop_last() =~= w);
            assert(storage_map_of(w.push(e)) == storage_map_of(w).insert(
                e.scoped_key(),
                e.value,
            ));
            assert(storage_map_of(records_without(records, k)) =~= storage_map_of(records).remove(
                k,
            ));
        }
    }
}

/// In-memory storage: the reference implementation of [`StorageProvider`],
/// for tests and single-process hosts. It obeys the model: its methods have
/// exactly the map semantics the trait states.
pub struct InMemoryStorage {
    entries: Vec<StorageEntry>,
}

impl InMemoryStorage {
    /// The records currently held, in insertion order.
    pub closed spec fn records(&self) -> Seq<StorageRecord> {
        self.entries@.map_values(|e: StorageEntry| e@)
    }

    /// An empty store.
    pub fn new() -> (r: Self)
        ensures
            r.view() == Map::<(Seq<u8>, Seq<u8>), Seq<u8>>::empty(),
    {
        let s = InMemoryStorage { entries: Vec::new() };
        proof {
            assert(s.records() =~= Seq::<StorageRecord>::empty());
        }
        s
    }

    /// Position of the last record for the scoped key, or none.
    fn find_last(&self, contract_hash: &[u8; 32], key: &[u8]) -> (r: Option<usize>)
        ensures
            match last_record_for(self.records(), (contract_hash@, key@)) {
                Some(p) => r == Some(p as usize),
                None => r is None,
            },
    {
        let ghost k = (contract_hash@, key@);
        let ghost rs = self.records();
        let n = self.entries.len();
        let mut i: usize = n;
        proof {
            assert(rs.subrange(0, n as int) =~= rs);
        }
        while i > 0
            invariant
                0 <= i <= n,
                n == self.entries@.len(),
                rs == self.records(),
                rs.len() == n,
                k == (contract_hash@, key@),
                last_record_for(rs, k) == last_record_for(rs.subrange(0, i as int), k),
            decreases i,
        {
            let entry = &self.entries[i - 1];
            proof {
                assert(rs[i - 1] == self.entries@[i - 1]@);
                assert(rs.subrange(0, i as int).last() == rs[i - 1]);
                assert(rs.subrange(0, i as int).drop_last() =~= rs.subrange(0, i - 1));
            }
            if bytes_eq(entry.contract_hash.as_slice(), contract_hash.as_slice()) && bytes_eq(
                entry.key.as_slice(),
                key,
            ) {
                proof {
                    assert(rs[i - 1].scoped_key() == k);
                }
                return Some(i - 1);
            }
            proof {
                assert(rs[i - 1].scoped_key() != k);
            }
            i -= 1;
        }
        None
    }

    /// Keeps only the records whose scoped key differs from the given one;
    /// reports whether any record was dropped.
    fn remove_all(&mut self, contract_hash: &[u8; 32], key: &[u8]) -> (r: bool)
        ensures
            final(self).records() == records_without(old(self).records(), (contract_hash@, key@)),
            r == last_record_for(old(self).records(), (contract_hash@, key@)) is Some,
    {
        let ghost k = (contract_hash@, key@);
        let ghost rs = self.records();
        let n = self.entries.len();
        let mut kept: Vec<StorageEntry> = Vec::new();
        let mut found = false;
        let mut i: usize = 0;
        proof {
            assert(records_without(rs.subrange(0, 0), k) =~= Seq::<StorageRecord>::empty());
            assert(kept@.map_values(|e: StorageEntry| e@) =~= Seq::<StorageRecord>::empty());
        }
        while i < n
            invariant
                0 <= i <= n,
                n == self.entries@.len(),
                rs == self.records(),
                rs.len() == n,
                k == (contract_hash@, key@),
                kept@.map_values(|e: StorageEntry| e@) == records_without(
                    rs.subrange(0, i as int),
                    k,
                ),
                found == last_record_for(rs.subrange(0, i as int), k) is Some,
            decreases n - i,
        {
            proof {
                assert(rs[i as int] == self.entries@[i as int]@);
                assert(rs.subrange(0, i + 1).last() == rs[i as int]);
                assert(rs.subrange(0, i + 1).drop_last() =~= rs.subrange(0, i as int));
            }
            let entry = &self.entries[i];
            if bytes_eq(entry.contract_hash.as_slice(), contract_hash.as_slice()) && bytes_eq(
                entry.key.as_slice(),
                key,
            ) {
                found = true;
                proof {
                    assert(rs[i as int].scoped_key() == k);
                }
            } else {
                let ghost kept0 = kept@;
                let contract_hash_copy = entry.contract_hash;
                let key_copy = slice_to_vec(entry.key.as_slice());
                let value_copy = slice_to_vec(entry.value.as_slice());
                kept.push(
                    StorageEntry {
                        contract_hash: contract_hash_copy,
                        key: key_copy,
                        value: value_copy,
                    },
                );
                proof {
                    assert(rs[i as int].scoped_key() != k);
                    assert(kept@.last()@ == rs[i as int]);
                    assert(kept@.drop_last() =~= kept0);
                    assert(kept@.map_values(|e: StorageEntry| e@) =~= kept0.map_values(
                        |e: StorageEntry| e@,
                    ).push(rs[i as int]));
                }
            }
            i += 1;
        }
        proof {
            assert(rs.subrange(0, n as int) =~= rs);
        }
        self.entries = kept;
        found
    }
}

impl StorageProvider for InMemoryStorage {
    closed spec fn view(&self) -> Map<(Seq<u8>, Seq<u8>), Seq<u8>> {
        storage_map_of(self.records())
    }

    open spec fn obeys_model() -> bool {
        true
    }

    fn get(&self, contract_hash: &[u8; 32], key: &[u8]) -> (r: Result<Option<Vec<u8>>, PortError>)
    {
        let n = self.entries.len();
        proof {
            lemma_storage_map_lookup(self.records(), (contract_hash@, key@));
            assert(self.records().len() == n);
        }
        match self.find_last(contract_hash, key) {
            Some(p) => {
                proof {
                    let sp = last_record_for(self.records(), (contract_hash@, key@))->Some_0;
                    assert(p == sp as usize && 0 <= sp < n);
                    assert(self.records()[p as int] == self.entries@[p as int]@);
                }
                Ok(Some(slice_to_vec(self.entries[p].value.as_slice())))
            },
            None => Ok(None),
        }
    }

    fn set(&mut self, contract_hash: &[u8; 32], key: &[u8], value: &[u8]) -> (r: Result<
        (),
        PortError,
    >) {
        let ghost k = (contract_hash@, key@);
        let ghost rs0 = self.records();
        self.remove_all(contract_hash, key);
        let ghost kept = self.records();
        let contract_hash_copy = *contract_hash;
        let key_copy = slice_to_vec(key);
        let value_copy = slice_to_vec(value);
        self.entries.push(
            StorageEntry { contract_hash: contract_hash_copy, key: key_copy, value: value_copy },
        );
        proof {
            lemma_storage_map_without(rs0, k);
            assert(self.records().drop_last() =~= kept);
            assert(self.records().last() == self.entries@.last()@);
            assert(self.records().last().scoped_key() == k);
            assert(storage_map_of(self.records()) =~= storage_map_of(rs0).insert(k, value@));
        }
        Ok(())
    }

    fn delete(&mut self, contract_hash: &[u8; 32], key: &[u8]) -> (r: Result<bool, PortError>) {
        let ghost k = (contract_hash@, key@);
        proof {
            lemma_storage_map_without(self.records(), k);
            lemma_storage_map_lookup(self.records(), k);
        }
        let existed = self.remove_all(contract_hash, key);
        Ok(existed)
    }
}


/// One balance record of the in-memory accounts.
pub struct AccountEntry {
    /// The account address.
    pub address: [u8; 32],
    /// The balance in smallest units.
    pub balance: u64,
}

/// The mathematical model of one balance record.
pub struct AccountRecord {
    /// The account address.
    pub address: Seq<u8>,
    /// The balance in smallest units.
    pub balance: u64,
}

impl View for AccountEntry {
    type V = AccountRecord;

    open spec fn view(&self) -> AccountRecord {
        AccountRecord { address: self.address@, balance: self.balance }
    }
}

/// The balance map a record sequence denotes; a later record for the same
/// address overrides an earlier one.
pub open spec fn balance_map_of(records: Seq<AccountRecord>) -> Map<Seq<u8>, u64>
    decreases records.len(),
{
    if records.len() == 0 {
        Map::empty()
    } else {
        balance_map_of(records.drop_last()).insert(records.last().address, records.last().balance)
    }
}

/// Position of the last record for `address`, or none.
pub open spec fn last_account_for(records: Seq<AccountRecord>, address: Seq<u8>) -> Option<int>
    decreases records.len(),
{
    if records.len() == 0 {
        None
    } else if records.last().address == address {
        Some(records.len() - 1)
    } else {
        last_account_for(records.drop_last(), address)
    }
}

/// The balance lookup of an address is decided by the last record for it.
proof fn lemma_balance_map_lookup(records: Seq<AccountRecord>, address: Seq<u8>)
    ensures
        match last_account_for(records, address) {
            Some(p) => {
                &&& 0 <= p < records.len()
                &&& records[p].address == address
                &&& balance_map_of(records).contains_key(address)
                &&& balance_map_of(records)[address] == records[p].balance
            },
            None => !balance_map_of(records).contains_key(address),
        },
    decreases records.len(),
{
    if records.len() > 0 && records.last().address != address {
        lemma_balance_map_lookup(records.drop_last(), address);
    }
}

/// In-memory accounts: the reference implementation of [`AccountProvider`],
/// for tests and single-process hosts. It obeys the model: a successful
/// transfer moves balances exactly as [`spec_transfer`] says, and a transfer
/// that would overdraw the source or overflow the destination fails without
/// effect.
pub struct InMemoryAccounts {
    entries: Vec<AccountEntry>,
}

impl InMemoryAccounts {
    /// The balance records currently held, in insertion order.
    pub closed spec fn records(&self) -> Seq<AccountRecord> {
        self.entries@.map_values(|e: AccountEntry| e@)
    }

    /// An empty book: every address holds zero.
    pub fn new() -> (r: Self)
        ensures
            r.view() == Map::<Seq<u8>, u64>::empty(),
    {
        let a = InMemoryAccounts { entries: Vec::new() };
        proof {
            assert(a.records() =~= Seq::<AccountRecord>::empty());
        }
        a
    }

    /// Sets the balance of an account outright; the host's way to seed or
    /// adjust funds outside contract execution.
    pub fn set_balance(&mut self, address: &[u8; 32], amount: u64)
        ensures
            final(self).view() == old(self).view().insert(address@, amount),
    {
        let ghost rs0 = self.records();
        let address_copy = *address;
        self.entries.push(AccountEntry { address: address_copy, balance: amount });
        proof {
            assert(self.records().drop_last() =~= rs0);
            assert(self.records().last() == self.entries@.last()@);
        }
    }

    /// The balance the records assign to an address; an unknown address
    /// holds zero.
    fn find_balance(&self, address: &[u8; 32]) -> (r: u64)
        ensures
            r == spec_balance_of(balance_map_of(self.records()), address@),
    {
        let ghost a = address@;
        let ghost rs = self.records();
        proof {
            lemma_balance_map_lookup(rs, a);
            assert(rs.subrange(0, rs.len() as int) =~= rs);
        }
        let n = self.entries.len();
        let mut i: usize = n;
        while i > 0
            invariant
                0 <= i <= n,
                n == self.entries@.len(),
                rs == self.records(),
                rs.len() == n,
                a == address@,
                last_account_for(rs, a) == last_account_for(rs.subrange(0, i as int), a),
            decreases i,
        {
            let entry = &self.entries[i - 1];
            proof {
                assert(rs[i - 1] == self.entries@[i - 1]@);
                assert(rs.subrange(0, i as int).last() == rs[i - 1]);
                assert(rs.subrange(0, i as int).drop_last() =~= rs.subrange(0, i - 1));
            }
            if bytes_eq(entry.address.as_slice(), address.as_slice()) {
                proof {
                    assert(rs[i - 1].address == a);
                    assert(last_account_for(rs, a) == Some(i - 1));
                    lemma_balance_map_lookup(rs, a);
                }
                return entry.balance;
            }
            proof {
                assert(rs[i - 1].address != a);
            }
            i -= 1;
        }
        0
    }
}

impl AccountProvider for InMemoryAccounts {
    closed spec fn view(&self) -> Map<Seq<u8>, u64> {
        balance_map_of(self.records())
    }

    open spec fn obeys_model() -> bool {
        true
    }

    fn get_balance(&self, address: &[u8; 32]) -> (r: Result<u64, PortError>) {
        Ok(self.find_balance(address))
    }

    fn transfer(&mut self, from: &[u8; 32], to: &[u8; 32], amount: u64) -> (r: Result<
        (),
        PortError,
    >) {
        let from_balance = self.find_balance(from);
        if from_balance < amount {
            return Err(PortError { message: "insufficient balance".to_owned() });
        }
        if bytes_eq(from.as_slice(), to.as_slice()) {
            return Ok(());
        }
        let to_balance = self.find_balance(to);
        let to_after = match to_balance.checked_add(amount) {
            Some(b) => b,
            None => {
                return Err(PortError { message: "destination balance overflow".to_owned() });
            },
        };
        let ghost rs0 = self.records();
        let from_copy = *from;
        let to_copy = *to;
        self.entries.push(AccountEntry { address: from_copy, balance: from_balance - amount });
        proof {
            assert(self.records().drop_last() =~= rs0);
            assert(self.records().last() == self.entries@.last()@);
        }
        let ghost rs1 = self.records();
        self.entries.push(AccountEntry { address: to_copy, balance: to_after });
        proof {
            assert(self.records().drop_last() =~= rs1);
            assert(self.records().last() == self.entries@.last()@);
            assert(balance_map_of(rs1) == balance_map_of(rs0).insert(
                from@,
                (from_balance - amount) as u64,
            ));
            assert(balance_map_of(self.records()) == balance_map_of(rs1).insert(to@, to_after));
        }
        Ok(())
    }
}

} // verus!
