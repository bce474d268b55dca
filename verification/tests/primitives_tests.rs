use spp_oracle::primitives::bytes_equal;
use spp_oracle::table::Table;
use spp_oracle::{Address, DeflatinaryBurn, FixedBytes, U256};

#[test]
fn fixed_bytes_compare_by_content() {
    let a = FixedBytes::<32>::new([7u8; 32]);
    let b = FixedBytes::<32>::new([7u8; 32]);
    let mut other = [7u8; 32];
    other[31] = 8;
    let c = FixedBytes::<32>::new(other);
    assert!(a.same(&b));
    assert!(!a.same(&c));
    assert_eq!(a, b);
    assert_ne!(a, c);
}

#[test]
fn fixed_bytes_zero_is_all_zero() {
    let z = FixedBytes::<32>::zero();
    assert_eq!(z.bytes, [0u8; 32]);
    assert_eq!(z.len(), 32);
    assert_eq!(FixedBytes::<4>::zero().len(), 4);
    assert!(z.same(&FixedBytes::<32>::new([0u8; 32])));
}

#[test]
fn bytes_equal_finds_a_difference_anywhere() {
    let a = [1u8, 2, 3, 4];
    assert!(bytes_equal(&a, &[1u8, 2, 3, 4]));
    assert!(!bytes_equal(&a, &[0u8, 2, 3, 4]));
    assert!(!bytes_equal(&a, &[1u8, 2, 3, 5]));
    assert!(bytes_equal::<0>(&[], &[]));
}

#[test]
fn address_compare_and_zero() {
    let a = Address::new([1u8; 20]);
    let mut raw = [1u8; 20];
    raw[0] = 0;
    let b = Address::new(raw);
    assert!(a.same(&a));
    assert!(!a.same(&b));
    assert!(Address::zero().is_zero());
    assert!(!a.is_zero());
    assert!(!b.is_zero());
    assert_eq!(Address::zero().bytes, [0u8; 20]);
}

#[test]
fn transaction_key_is_the_keccak_digest_of_match_then_player() {
    let key = DeflatinaryBurn::compute_tx_id(
        &FixedBytes::<32>::new([1u8; 32]),
        &Address::new([2u8; 20]),
    );
    let expected: [u8; 32] = [
        35, 126, 226, 240, 87, 37, 57, 75, 222, 1, 153, 72, 18, 184, 156, 146, 205, 63, 127, 116,
        169, 52, 8, 10, 143, 115, 232, 183, 67, 217, 157, 205,
    ];
    assert_eq!(key.bytes, expected);
}

#[test]
fn transaction_key_of_zero_inputs() {
    let key = DeflatinaryBurn::compute_tx_id(&FixedBytes::<32>::zero(), &Address::zero());
    let expected: [u8; 32] = [
        168, 109, 84, 233, 170, 180, 26, 229, 229, 32, 255, 0, 98, 255, 27, 76, 189, 11, 33, 146,
        187, 1, 8, 10, 5, 139, 177, 112, 216, 78, 100, 87,
    ];
    assert_eq!(key.bytes, expected);
}

#[test]
fn transaction_key_depends_on_both_parts_and_their_order() {
    let game = FixedBytes::<32>::new([1u8; 32]);
    let other_game = FixedBytes::<32>::new([3u8; 32]);
    let player = Address::new([2u8; 20]);
    let other_player = Address::new([4u8; 20]);
    let base = DeflatinaryBurn::compute_tx_id(&game, &player);
    assert_eq!(base, DeflatinaryBurn::compute_tx_id(&game, &player));
    assert_ne!(base, DeflatinaryBurn::compute_tx_id(&other_game, &player));
    assert_ne!(base, DeflatinaryBurn::compute_tx_id(&game, &other_player));
    let mut first = [2u8; 32];
    first[..20].copy_from_slice(&[1u8; 20]);
    assert_ne!(
        DeflatinaryBurn::compute_tx_id(&FixedBytes::<32>::new([1u8; 32]), &Address::new([2u8; 20])),
        DeflatinaryBurn::compute_tx_id(&FixedBytes::<32>::new(first), &Address::new([1u8; 20]))
    );
}

#[test]
fn table_reads_what_was_written() {
    let mut t: Table<Address, U256> = Table::new();
    let a = Address::new([1u8; 20]);
    let b = Address::new([2u8; 20]);
    assert!(!t.contains(&a));
    assert_eq!(t.get(&a), None);
    assert_eq!(t.get_or(&a, U256::from_u64(9)), U256::from_u64(9));

    t.set(a, U256::from_u64(5));
    assert!(t.contains(&a));
    assert!(!t.contains(&b));
    assert_eq!(t.get(&a), Some(&U256::from_u64(5)));
    assert_eq!(t.get_or(&a, U256::from_u64(9)), U256::from_u64(5));
    assert_eq!(t.get_or(&b, U256::from_u64(9)), U256::from_u64(9));
}

#[test]
fn table_overwrites_in_place() {
    let mut t: Table<U256, Address> = Table::new();
    let k1 = U256::from_u64(1);
    let k2 = U256::from_u64(2);
    t.set(k1, Address::new([1u8; 20]));
    t.set(k2, Address::new([2u8; 20]));
    t.set(k1, Address::new([3u8; 20]));
    assert_eq!(t.get(&k1), Some(&Address::new([3u8; 20])));
    assert_eq!(t.get(&k2), Some(&Address::new([2u8; 20])));
    assert_eq!(t.get(&U256::from_u64(3)), None);
}

#[test]
fn table_with_pair_keys_tells_the_parts_apart() {
    let mut t: Table<(Address, Address), bool> = Table::new();
    let a = Address::new([1u8; 20]);
    let b = Address::new([2u8; 20]);
    t.set((a, b), true);
    assert_eq!(t.get_or(&(a, b), false), true);
    assert_eq!(t.get_or(&(b, a), false), false);
    assert_eq!(t.get_or(&(a, a), false), false);
    t.set((b, a), false);
    assert!(t.contains(&(b, a)));
    assert_eq!(t.get_or(&(a, b), false), true);
}

#[test]
fn table_holds_values_that_are_not_copied() {
    let mut t: Table<FixedBytes<32>, String> = Table::new();
    let k = FixedBytes::<32>::new([9u8; 32]);
    t.set(k, "first".to_string());
    t.set(k, "second".to_string());
    assert_eq!(t.get(&k), Some(&"second".to_string()));
}
