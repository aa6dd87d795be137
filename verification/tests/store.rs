use tipfinity::state::Pubkey;
use tipfinity::store::AddressMap;

#[test]
fn empty_map_holds_nothing() {
    let map: AddressMap<u64> = AddressMap::new();
    assert_eq!(map.get(&Pubkey::new([1; 32])), None);
    assert!(!map.contains(&Pubkey::new([1; 32])));
}

#[test]
fn insert_puts_and_replaces() {
    let a = Pubkey::new([1; 32]);
    let b = Pubkey::new([2; 32]);
    let mut map: AddressMap<u64> = AddressMap::new();
    map.insert(a, 10);
    map.insert(b, 20);
    assert_eq!(map.get(&a), Some(&10));
    assert_eq!(map.get(&b), Some(&20));
    map.insert(a, 11);
    assert_eq!(map.get(&a), Some(&11));
    assert_eq!(map.get(&b), Some(&20));
    assert!(map.contains(&a));
    assert!(!map.contains(&Pubkey::new([3; 32])));
}
