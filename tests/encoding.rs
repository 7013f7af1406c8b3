use near_runner_ws::identity::Identity;
use near_runner_ws::patch::register_ft_receiver;
use near_runner_ws::storage::{encode_balance, storage_row_key, zero_balance_row};

const FT_ACCOUNTS_PREFIX: [u8; 5] = [0, 33, 0, 0, 0];

fn id(s: &str) -> Identity {
    Identity::parse(s).expect("valid account name")
}

#[test]
fn identity_accepts_well_formed_names() {
    for name in ["alice.near", "bob.test.near", "a1", "dev-1234_5.test.near"] {
        assert_eq!(Identity::parse(name).map(|i| i.as_str().to_string()), Some(name.to_string()));
    }
    let longest = "a".repeat(64);
    assert!(Identity::parse(&longest).is_some());
}

#[test]
fn identity_rejects_malformed_names() {
    let too_long = "a".repeat(65);
    for name in ["", "a", "Alice.near", "a..b", ".ab", "ab-", "-ab", "a b", "ünï.near", too_long.as_str()] {
        assert!(Identity::parse(name).is_none(), "{name} should be rejected");
    }
}

#[test]
fn row_key_is_prefix_then_name_bytes() {
    let key = storage_row_key(&FT_ACCOUNTS_PREFIX, &id("bob.test.near"));
    let mut expected = vec![0u8, 33, 0, 0, 0];
    expected.extend_from_slice(b"bob.test.near");
    assert_eq!(key, expected);
}

#[test]
fn row_key_with_empty_prefix_is_the_name() {
    assert_eq!(storage_row_key(&[], &id("ab")), b"ab".to_vec());
}

#[test]
fn row_keys_are_deterministic_and_distinct() {
    let a1 = storage_row_key(&FT_ACCOUNTS_PREFIX, &id("alice.near"));
    let a2 = storage_row_key(&FT_ACCOUNTS_PREFIX, &id("alice.near"));
    let b = storage_row_key(&FT_ACCOUNTS_PREFIX, &id("alice.nea"));
    let c = storage_row_key(&FT_ACCOUNTS_PREFIX, &id("bob.near"));
    assert_eq!(a1, a2);
    assert_ne!(a1, b);
    assert_ne!(a1, c);
}

#[test]
fn balance_encoding_is_little_endian() {
    assert_eq!(encode_balance(0), vec![0u8; 16]);
    let mut v = vec![0u8; 16];
    v[0] = 2;
    v[1] = 1;
    assert_eq!(encode_balance(0x0102), v);
    assert_eq!(encode_balance(u128::MAX), vec![255u8; 16]);
    assert_eq!(encode_balance(42), 42u128.to_le_bytes().to_vec());
}

#[test]
fn zero_balance_row_is_sixteen_zero_bytes() {
    assert_eq!(zero_balance_row(), vec![0u8; 16]);
}

#[test]
fn registration_patch_writes_zero_balance_row() {
    let patch = register_ft_receiver(&id("ft.test.near"), &FT_ACCOUNTS_PREFIX, &id("bob.test.near"));
    assert_eq!(patch.contract.as_str(), "ft.test.near");
    let mut key = FT_ACCOUNTS_PREFIX.to_vec();
    key.extend_from_slice(b"bob.test.near");
    assert_eq!(patch.key, key);
    assert_eq!(patch.value, vec![0u8; 16]);
}
