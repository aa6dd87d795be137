use std::str::FromStr;
use tipfinity::address::{creator_address, tip_address, PROGRAM_ID};
use tipfinity::state::Pubkey;

const HOME_OF_A1: [u8; 32] = [
    55, 75, 53, 251, 192, 15, 193, 201, 64, 8, 4, 227, 71, 117, 189, 162, 224, 181, 13, 166, 137,
    220, 254, 118, 232, 138, 61, 54, 145, 221, 132, 113,
];

#[test]
fn program_id_is_the_declared_one() {
    let declared =
        anchor_lang::prelude::Pubkey::from_str("G9SJrR5U29xGBG1dGnu83poJ3bMcsT5r37kZXz4tqaPF")
            .unwrap();
    assert_eq!(declared.to_bytes(), PROGRAM_ID);
}

#[test]
fn creator_address_is_the_known_one() {
    let owner = Pubkey::new([0xA1; 32]);
    assert_eq!(creator_address(&owner), Some((Pubkey::new(HOME_OF_A1), 255)));
}

#[test]
fn tip_addresses_are_the_known_ones() {
    let home = Pubkey::new(HOME_OF_A1);
    let first = [
        2, 152, 100, 7, 191, 32, 73, 48, 95, 232, 7, 175, 198, 88, 248, 221, 152, 18, 72, 63, 36,
        62, 208, 161, 96, 192, 81, 12, 175, 98, 5, 149,
    ];
    let second = [
        209, 180, 76, 38, 40, 17, 17, 148, 227, 119, 155, 177, 60, 114, 12, 6, 193, 118, 107, 106,
        127, 156, 27, 97, 160, 182, 103, 109, 228, 82, 76, 15,
    ];
    assert_eq!(tip_address(&home, 0), Some((Pubkey::new(first), 255)));
    assert_eq!(tip_address(&home, 1), Some((Pubkey::new(second), 255)));
}

#[test]
fn creator_address_is_what_the_host_derives() {
    let program = anchor_lang::prelude::Pubkey::new_from_array(PROGRAM_ID);
    for tag in [0u8, 1, 2, 77, 200, 255] {
        let owner = [tag; 32];
        let (address, bump) = anchor_lang::prelude::Pubkey::find_program_address(
            &[b"creator", &owner[..]],
            &program,
        );
        assert_eq!(
            creator_address(&Pubkey::new(owner)),
            Some((Pubkey::new(address.to_bytes()), bump))
        );
        assert_ne!(address.to_bytes(), owner);
        assert!(!address.is_on_curve());
    }
}

#[test]
fn tip_address_is_what_the_host_derives() {
    let program = anchor_lang::prelude::Pubkey::new_from_array(PROGRAM_ID);
    let creator = [0x5A; 32];
    for index in [0u64, 1, 2, 255, 256, 65_536, u64::MAX] {
        let (address, bump) = anchor_lang::prelude::Pubkey::find_program_address(
            &[b"tip", &creator[..], &index.to_le_bytes()],
            &program,
        );
        assert_eq!(
            tip_address(&Pubkey::new(creator), index),
            Some((Pubkey::new(address.to_bytes()), bump))
        );
    }
}

#[test]
fn addresses_differ_by_owner_and_by_index() {
    let a = creator_address(&Pubkey::new([1; 32])).unwrap().0;
    let b = creator_address(&Pubkey::new([2; 32])).unwrap().0;
    assert_ne!(a, b);
    assert_ne!(tip_address(&a, 0).unwrap().0, tip_address(&a, 1).unwrap().0);
    assert_ne!(tip_address(&a, 0).unwrap().0, tip_address(&b, 0).unwrap().0);
    assert_ne!(tip_address(&a, 0).unwrap().0, a);
}

#[test]
fn derivation_gives_the_same_address_each_time() {
    let owner = Pubkey::new([9; 32]);
    assert_eq!(creator_address(&owner), creator_address(&owner));
    assert_eq!(tip_address(&owner, 7), tip_address(&owner, 7));
}

#[test]
fn pubkeys_compare_by_their_bytes() {
    let mut bytes = [3u8; 32];
    let a = Pubkey::new(bytes);
    assert_eq!(a, Pubkey::new(bytes));
    assert_eq!(a.to_bytes(), bytes);
    bytes[31] = 4;
    assert_ne!(a, Pubkey::new(bytes));
    bytes[31] = 3;
    bytes[0] = 4;
    assert_ne!(a, Pubkey::new(bytes));
}
