use solana_holder_bot::{extract_holders, HolderSet, holder_count, AccountRecord, Address};

fn account(owner: u8, amount: u64, len: usize) -> AccountRecord {
    let mut data = vec![0u8; len];
    for b in data.iter_mut().take(32) {
        *b = 9;
    }
    if len >= 64 {
        for b in data[32..64].iter_mut() {
            *b = owner;
        }
    }
    if len >= 72 {
        data[64..72].copy_from_slice(&amount.to_le_bytes());
    }
    AccountRecord { address: Address { bytes: [owner; 32] }, data }
}

#[test]
fn short_zero_and_valid_records() {
    let records = vec![account(1, 5, 60), account(2, 0, 165), account(3, 7, 165)];
    let holders = extract_holders(&records).unwrap();
    assert_eq!(holders.len(), 1);
    assert!(holders.contains(&Address { bytes: [3; 32] }));
    assert!(!holders.contains(&Address { bytes: [1; 32] }));
    assert!(!holders.contains(&Address { bytes: [2; 32] }));
}

#[test]
fn owner_with_several_accounts_counts_once() {
    let records = vec![account(4, 1, 165), account(5, 2, 72), account(4, 300, 165)];
    assert_eq!(holder_count(&records), 2);
}

#[test]
fn zero_owner_is_not_a_holder() {
    let records = vec![account(0, 10, 165), account(6, u64::MAX, 165)];
    let holders = extract_holders(&records).unwrap();
    assert_eq!(holders.len(), 1);
    assert!(holders.contains(&Address { bytes: [6; 32] }));
}

#[test]
fn balance_in_high_byte_counts() {
    let records = vec![account(8, 1u64 << 56, 165)];
    assert_eq!(holder_count(&records), 1);
}

#[test]
fn empty_batch_has_no_holders() {
    assert_eq!(holder_count(&[]), 0);
}

#[test]
fn set_tells_apart_addresses_sharing_a_bucket() {
    let mut set = HolderSet::new();
    for last in 0u8..50 {
        let mut bytes = [5u8; 32];
        bytes[31] = last;
        assert!(set.insert(Address { bytes }));
    }
    let mut again = [5u8; 32];
    again[31] = 17;
    assert!(!set.insert(Address { bytes: again }));
    assert!(set.contains(&Address { bytes: again }));
    again[31] = 50;
    assert!(!set.contains(&Address { bytes: again }));
    assert_eq!(set.len(), 50);
}
