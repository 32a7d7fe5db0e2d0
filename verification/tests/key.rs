use ledger_gateway::key::{key_to_slot, slot_to_blocks_key, slot_to_key, slot_to_tx_by_addr_key};

#[test]
fn test_slot_to_key() {
    assert_eq!(slot_to_key(0), "0000000000000000");
    assert_eq!(slot_to_key(!0), "ffffffffffffffff");
}

#[test]
fn tx_by_addr_key_is_the_key_of_the_complement() {
    assert_eq!(slot_to_tx_by_addr_key(100), slot_to_key(!100));
    assert_eq!(slot_to_tx_by_addr_key(100), "ffffffffffffff9b");
}

#[test]
fn keys_read_back() {
    for slot in [0u64, 1, 15, 16, 255, 4096, 432_000, u64::MAX - 1, u64::MAX] {
        assert_eq!(key_to_slot(&slot_to_key(slot)), Some(slot));
        assert_eq!(key_to_slot(&slot_to_tx_by_addr_key(slot)).map(|s| !s), Some(slot));
    }
}

#[test]
fn malformed_keys_give_none() {
    assert_eq!(key_to_slot(""), None);
    assert_eq!(key_to_slot("xyz"), None);
    assert_eq!(key_to_slot("+ff"), None);
    assert_eq!(key_to_slot("-1"), None);
    assert_eq!(key_to_slot(" 1"), None);
    assert_eq!(key_to_slot("10000000000000000"), None);
    assert_eq!(key_to_slot("é"), None);
}

#[test]
fn keys_of_either_case_and_any_length_are_read() {
    assert_eq!(key_to_slot("FF"), Some(255));
    assert_eq!(key_to_slot("fF"), Some(255));
    assert_eq!(key_to_slot("00000000000000000000000000000001"), Some(1));
    assert_eq!(key_to_slot("ffffffffffffffff"), Some(u64::MAX));
}

#[test]
fn keys_sort_as_slots_do() {
    let slots = [0u64, 1, 9, 10, 15, 16, 255, 256, 1 << 32, u64::MAX - 1, u64::MAX];
    for pair in slots.windows(2) {
        assert!(slot_to_key(pair[0]) < slot_to_key(pair[1]));
        assert!(slot_to_tx_by_addr_key(pair[0]) > slot_to_tx_by_addr_key(pair[1]));
    }
}

#[test]
fn salted_key_is_md5_prefix_then_plain_key() {
    let plain = slot_to_key(100);
    assert_eq!(slot_to_blocks_key(100, false), plain);
    let digest = format!("{:x}", md5::compute(plain.as_bytes()));
    assert_eq!(slot_to_blocks_key(100, true), format!("{}{}", &digest[..10], plain));
    assert_eq!(slot_to_blocks_key(100, true).len(), 26);
}
