//! Extraction of the distinct holders of a token from raw token-account records.

use vstd::prelude::*;
use std::collections::HashMap;
use vstd::slice::slice_subrange;

use crate::address::{zero_address, Address};

verus! {

/// Offset of the owner address within a token account's data.
pub const OWNER_OFFSET: usize = 32;

/// Offset of the little-endian `u64` balance within a token account's data.
pub const AMOUNT_OFFSET: usize = 64;

/// Shortest account data that still holds the balance field.
pub const MIN_ACCOUNT_DATA_LEN: usize = 72;

/// One token account as fetched from the ledger: its address and raw data.
#[derive(Clone, Debug)]
pub struct AccountRecord {
    pub address: Address,
    pub data: Vec<u8>,
}

/// Extraction can fail only when the batch itself cannot be read; no input
/// produced by this library does that.
#[derive(Clone, Copy, Debug, PartialEq, Eq)]
pub enum ExtractError {
    UnreadableBatch,
}

/// The little-endian unsigned integer held in `b[off .. off + 8]`.
pub open spec fn le_u64_at(b: Seq<u8>, off: int) -> int {
    b[off] as int + 0x100 * (b[off + 1] as int) + 0x1_0000 * (b[off + 2] as int) + 0x100_0000 * (
    b[off + 3] as int) + 0x1_0000_0000 * (b[off + 4] as int) + 0x100_0000_0000 * (
    b[off + 5] as int) + 0x1_0000_0000_0000 * (b[off + 6] as int) + 0x100_0000_0000_0000 * (
    b[off + 7] as int)
}

/// The balance field of account data that is long enough to hold one.
pub open spec fn amount_of(data: Seq<u8>) -> int {
    le_u64_at(data, 64)
}

/// The owner field of account data that is long enough to hold one.
pub open spec fn owner_of(data: Seq<u8>) -> Seq<u8> {
    data.subrange(32, 64)
}

/// The holder that one account's data names: present only for data long enough
/// to hold a balance, with a nonzero balance and an owner that is not the
/// all-zero address.
pub open spec fn holder_of(data: Seq<u8>) -> Option<Seq<u8>> {
    if data.len() >= 72 && amount_of(data) > 0 && owner_of(data) != zero_address() {
        Some(owner_of(data))
    } else {
        None
    }
}

/// Whether one of the first `n` records names `owner` as a holder.
pub open spec fn named_among(records: Seq<AccountRecord>, n: int, owner: Seq<u8>) -> bool {
    exists|j: int| 0 <= j < n && #[trigger] holder_of(records[j].data@) == Some(owner)
}

/// The set of holders that a batch of records names.
pub open spec fn holders_of(records: Seq<AccountRecord>) -> Set<Seq<u8>> {
    Set::new(|owner: Seq<u8>| named_among(records, records.len() as int, owner))
}

/// The byte views of a sequence of addresses.
pub open spec fn address_views(s: Seq<Address>) -> Seq<Seq<u8>> {
    s.map_values(|a: Address| a@)
}

/// The bucket of an address: the little-endian value of its first 8 bytes.
pub open spec fn bucket_of(a: Seq<u8>) -> u64 {
    le_u64_at(a, 0) as u64
}

/// Index `i` is filed in `list`.
pub open spec fn filed(list: Seq<usize>, i: int) -> bool {
    exists|w: int| 0 <= w < list.len() && list[w] as int == i
}

/// A set of distinct holder addresses, kept in the order they were first seen.
/// Each address is also filed, by its index, under its bucket, so that a
/// membership test reads only the addresses of one bucket.
pub struct HolderSet {
    owners: Vec<Address>,
    buckets: HashMap<u64, Vec<usize>>,
}

impl View for HolderSet {
    type V = Seq<Seq<u8>>;

    closed spec fn view(&self) -> Seq<Seq<u8>> {
        address_views(self.owners@)
    }
}

impl HolderSet {
    /// No address occurs twice; every index filed in a bucket is that of an
    /// address of the bucket; every address is filed under its bucket.
    pub closed spec fn wf(&self) -> bool {
        &&& self@.no_duplicates()
        &&& forall|k: u64, j: int|
            self.buckets@.contains_key(k) && 0 <= j < self.buckets@[k]@.len() ==> {
                &&& #[trigger] self.buckets@[k]@[j] < self.owners@.len()
                &&& bucket_of(self.owners@[self.buckets@[k]@[j] as int]@) == k
            }
        &&& forall|i: int|
            0 <= i < self.owners@.len() ==> {
                &&& self.buckets@.contains_key(bucket_of((#[trigger] self.owners@[i])@))
                &&& filed(self.buckets@[bucket_of(self.owners@[i]@)]@, i)
            }
    }

    /// The empty set.
    pub fn new() -> (r: HolderSet)
        ensures
            r.wf(),
            r@.len() == 0,
    {
        let r = HolderSet { owners: Vec::new(), buckets: HashMap::new() };
        assert(r@ =~= Seq::<Seq<u8>>::empty());
        r
    }

    /// Number of distinct holders.
    pub fn len(&self) -> (r: usize)
        ensures
            r == self@.len(),
    {
        self.owners.len()
    }

    /// Whether `owner` is one of the holders.
    pub fn contains(&self, owner: &Address) -> (r: bool)
        requires
            self.wf(),
        ensures
            r == self@.contains(owner@),
    {
        broadcast use vstd::std_specs::hash::group_hash_axioms;

        let k = bucket_key(owner);
        match self.buckets.get(&k) {
            None => {
                assert forall|i: int| 0 <= i < self@.len() implies self@[i] != owner@ by {
                    assert(self.owners@[i]@ == self@[i]);
                }
                false
            },
            Some(list) => {
                let mut j: usize = 0;
                while j < list.len()
                    invariant
                        self.wf(),
                        self.buckets@.contains_key(k),
                        self.buckets@[k] == *list,
                        k == bucket_of(owner@),
                        0 <= j <= list@.len(),
                        forall|jj: int|
                            0 <= jj < j ==> self.owners@[list@[jj] as int]@ != owner@,
                    decreases list@.len() - j,
                {
                    let idx = list[j];
                    assert(self.buckets@[k]@[j as int] == idx);
                    if self.owners[idx].same_as(owner) {
                        assert(self@[idx as int] == owner@);
                        return true;
                    }
                    j = j + 1;
                }
                assert forall|i: int| 0 <= i < self@.len() implies self@[i] != owner@ by {
                    assert(self.owners@[i]@ == self@[i]);
                    if self@[i] == owner@ {
                        let b = bucket_of(self.owners@[i]@);
                        assert(b == k);
                        assert(filed(self.buckets@[b]@, i));
                        let jj = choose|jj: int|
                            0 <= jj < self.buckets@[k]@.len() && self.buckets@[k]@[jj] as int == i;
                        assert(list@[jj] as int == i);
                        assert(self.owners@[list@[jj] as int]@ != owner@);
                    }
                }
                false
            },
        }
    }

    /// Adds `owner`; returns whether it was new.
    pub fn insert(&mut self, owner: Address) -> (r: bool)
        requires
            old(self).wf(),
        ensures
            final(self).wf(),
            r == !old(self)@.contains(owner@),
            final(self)@ == if r {
                old(self)@.push(owner@)
            } else {
                old(self)@
            },
    {
        broadcast use vstd::std_specs::hash::group_hash_axioms;

        if self.contains(&owner) {
            return false;
        }
        let ghost old_owners = self.owners@;
        let ghost old_buckets = self.buckets@;
        let n = self.owners.len();
        let k = bucket_key(&owner);
        let mut list = match self.buckets.remove(&k) {
            Some(l) => l,
            None => Vec::new(),
        };
        let ghost old_list = list@;
        assert(old_buckets.contains_key(k) ==> old_list == old_buckets[k]@);
        assert(!old_buckets.contains_key(k) ==> old_list.len() == 0);
        list.push(n);
        self.buckets.insert(k, list);
        self.owners.push(owner);
        assert(self@ =~= address_views(old_owners).push(owner@));
        assert(self.buckets@ == old_buckets.insert(k, self.buckets@[k]));
        assert(self.buckets@[k]@ == old_list.push(n));
        assert forall|kk: u64, j: int|
            self.buckets@.contains_key(kk) && 0 <= j < self.buckets@[kk]@.len() implies {
            &&& #[trigger] self.buckets@[kk]@[j] < self.owners@.len()
            &&& bucket_of(self.owners@[self.buckets@[kk]@[j] as int]@) == kk
        } by {
            if kk == k {
                if j < old_list.len() {
                    assert(self.buckets@[kk]@[j] == old_buckets[k]@[j]);
                }
            } else {
                assert(self.buckets@[kk] == old_buckets[kk]);
                assert(old_buckets[kk]@[j] < old_owners.len());
            }
        }
        assert forall|i: int| 0 <= i < self.owners@.len() implies {
            &&& self.buckets@.contains_key(bucket_of((#[trigger] self.owners@[i])@))
            &&& filed(self.buckets@[bucket_of(self.owners@[i]@)]@, i)
        } by {
            if i < n {
                assert(self.owners@[i] == old_owners[i]);
                let b = bucket_of(old_owners[i]@);
                assert(filed(old_buckets[b]@, i));
                if b == k {
                    let w = choose|w: int| 0 <= w < old_list.len() && old_list[w] as int == i;
                    assert(self.buckets@[k]@[w] as int == i);
                } else {
                    assert(self.buckets@[b] == old_buckets[b]);
                }
            } else {
                assert(self.buckets@[k]@[old_list.len() as int] == n);
            }
        }
        true
    }
}

/// The bucket of an address.
fn bucket_key(a: &Address) -> (r: u64)
    ensures
        r == bucket_of(a@),
{
    let b0 = a.bytes[0] as u64;
    let b1 = a.bytes[1] as u64;
    let b2 = a.bytes[2] as u64;
    let b3 = a.bytes[3] as u64;
    let b4 = a.bytes[4] as u64;
    let b5 = a.bytes[5] as u64;
    let b6 = a.bytes[6] as u64;
    let b7 = a.bytes[7] as u64;
    b0 + 0x100 * b1 + 0x1_0000 * b2 + 0x100_0000 * b3 + 0x1_0000_0000 * b4 + 0x100_0000_0000 * b5
        + 0x1_0000_0000_0000 * b6 + 0x100_0000_0000_0000 * b7
}

/// Reads the little-endian balance field of account data.
fn read_amount(data: &Vec<u8>) -> (r: u64)
    requires
        data@.len() >= 72,
    ensures
        r == amount_of(data@),
{
    let b0 = data[64] as u64;
    let b1 = data[65] as u64;
    let b2 = data[66] as u64;
    let b3 = data[67] as u64;
    let b4 = data[68] as u64;
    let b5 = data[69] as u64;
    let b6 = data[70] as u64;
    let b7 = data[71] as u64;
    b0 + 0x100 * b1 + 0x1_0000 * b2 + 0x100_0000 * b3 + 0x1_0000_0000 * b4 + 0x100_0000_0000 * b5
        + 0x1_0000_0000_0000 * b6 + 0x100_0000_0000_0000 * b7
}

/// Collects the distinct owners that hold a positive balance. Records too short
/// to hold a balance, records with a zero balance and records whose owner is the
/// all-zero address are skipped; none of them stops the extraction.
pub fn extract_holders(accounts: &[AccountRecord]) -> (r: Result<HolderSet, ExtractError>)
    ensures
        r matches Ok(h) && h.wf() && h@.no_duplicates() && h@.to_set() == holders_of(accounts@),
{
    let mut holders = HolderSet::new();
    let mut i: usize = 0;
    while i < accounts.len()
        invariant
            0 <= i <= accounts@.len(),
            holders.wf(),
            forall|o: Seq<u8>| holders@.contains(o) <==> named_among(accounts@, i as int, o),
        decreases accounts@.len() - i,
    {
        let data = &accounts[i].data;
        let ghost found = holder_of(data@);
        let ghost before = holders@;
        if data.len() >= MIN_ACCOUNT_DATA_LEN {
            let amount = read_amount(data);
            if amount > 0 {
                let field = slice_subrange(data.as_slice(), OWNER_OFFSET, AMOUNT_OFFSET);
                if let Some(owner) = Address::from_slice(field) {
                    assert(owner@ == owner_of(data@));
                    if !owner.is_zero() {
                        holders.insert(owner);
                    }
                }
            }
        }
        assert forall|o: Seq<u8>| holders@.contains(o) <==> (before.contains(o) || found == Some(o)) by {
            if found == Some(o) && !before.contains(o) {
                assert(holders@.last() == o);
            }
            if before.contains(o) {
                let k = choose|k: int| 0 <= k < before.len() && before[k] == o;
                assert(holders@[k] == o);
            }
        }
        assert forall|o: Seq<u8>|
            holders@.contains(o) <==> named_among(accounts@, i + 1, o) by {
            assert(before.contains(o) <==> named_among(accounts@, i as int, o));
            assert(holders@.contains(o) <==> (before.contains(o) || found == Some(o)));
            if named_among(accounts@, i + 1, o) {
                let j = choose|j: int|
                    0 <= j < i + 1 && #[trigger] holder_of(accounts@[j].data@) == Some(o);
                if j < i {
                    assert(named_among(accounts@, i as int, o));
                }
            }
            if named_among(accounts@, i as int, o) {
                let j = choose|j: int|
                    0 <= j < i && #[trigger] holder_of(accounts@[j].data@) == Some(o);
                assert(0 <= j < i + 1);
            }
            if found == Some(o) {
                assert(holder_of(accounts@[i as int].data@) == Some(o));
            }
        }
        i = i + 1;
    }
    assert(holders_of(accounts@) =~= holders@.to_set());
    Ok(holders)
}

/// The number of distinct holders that a batch of records names.
pub fn holder_count(accounts: &[AccountRecord]) -> (r: usize)
    ensures
        r == holders_of(accounts@).len(),
        holders_of(accounts@).finite(),
{
    let set = extract_holders(accounts);
    match set {
        Ok(h) => {
            proof {
                h@.unique_seq_to_set();
            }
            h.len()
        },
        Err(_) => 0,
    }
}

} // verus!
