use tipfinity::address::creator_address;
use tipfinity::error::{ErrorKind, TipfinityError, TransitionError};
use tipfinity::instructions::initialize_creator::{handle, InitializeCreator};
use tipfinity::program::{initialize_creator, Ledger};
use tipfinity::state::{pack_username, Creator, Pubkey};

fn field(name: &[u8]) -> [u8; 32] {
    let mut out = [0u8; 32];
    out[..name.len()].copy_from_slice(name);
    out
}

#[test]
fn registration_starts_with_zero_counters() {
    let owner = Pubkey::new([7; 32]);
    let mut ledger = Ledger::new();
    let home = initialize_creator(&mut ledger, &owner, "carol".to_string()).unwrap();
    assert_eq!(
        ledger.creator(&home),
        Some(Creator { owner, username: field(b"carol"), tip_count: 0, total_tips: 0 })
    );
    assert_eq!(ledger.events().len(), 0);
}

#[test]
fn username_of_thirty_two_bytes_fills_the_field() {
    let owner = Pubkey::new([8; 32]);
    let name = "abcdefghijklmnopqrstuvwxyz012345";
    assert_eq!(name.len(), 32);
    let mut ledger = Ledger::new();
    let home = initialize_creator(&mut ledger, &owner, name.to_string()).unwrap();
    assert_eq!(ledger.creator(&home).unwrap().username, field(name.as_bytes()));
}

#[test]
fn username_of_thirty_three_bytes_is_refused() {
    let owner = Pubkey::new([9; 32]);
    let name = "abcdefghijklmnopqrstuvwxyz0123456";
    assert_eq!(name.len(), 33);
    let mut ledger = Ledger::new();
    let refused = initialize_creator(&mut ledger, &owner, name.to_string());
    assert_eq!(refused, Err(TransitionError::Program(TipfinityError::UsernameTooLong)));
    assert_eq!(refused.unwrap_err().kind(), ErrorKind::ValidationError);
    let home = creator_address(&owner).unwrap().0;
    assert_eq!(ledger.creator(&home), None);
    // The address is still free: a name that fits is taken afterwards.
    assert_eq!(initialize_creator(&mut ledger, &owner, "dave".to_string()), Ok(home));
}

#[test]
fn username_length_is_counted_in_bytes() {
    // Seventeen characters of two bytes each: thirty-four bytes.
    let long = "\u{e9}".repeat(17);
    assert_eq!(long.chars().count(), 17);
    assert_eq!(long.len(), 34);
    let mut ledger = Ledger::new();
    let owner = Pubkey::new([10; 32]);
    assert_eq!(
        initialize_creator(&mut ledger, &owner, long),
        Err(TransitionError::Program(TipfinityError::UsernameTooLong))
    );
    // Sixteen of them are exactly thirty-two bytes.
    let fits = "\u{e9}".repeat(16);
    let home = initialize_creator(&mut ledger, &owner, fits.clone()).unwrap();
    assert_eq!(ledger.creator(&home).unwrap().username, field(fits.as_bytes()));
}

#[test]
fn empty_username_leaves_the_field_zero() {
    let owner = Pubkey::new([11; 32]);
    let mut ledger = Ledger::new();
    let home = initialize_creator(&mut ledger, &owner, String::new()).unwrap();
    assert_eq!(ledger.creator(&home).unwrap().username, [0u8; 32]);
}

#[test]
fn second_registration_of_an_identity_is_refused() {
    let owner = Pubkey::new([12; 32]);
    let mut ledger = Ledger::new();
    let home = initialize_creator(&mut ledger, &owner, "erin".to_string()).unwrap();
    let again = initialize_creator(&mut ledger, &owner, "other".to_string());
    assert_eq!(again, Err(TransitionError::AddressInUse));
    assert_eq!(again.unwrap_err().kind(), ErrorKind::HostAllocationFailure);
    // The record of the first registration stands.
    assert_eq!(
        ledger.creator(&home),
        Some(Creator { owner, username: field(b"erin"), tip_count: 0, total_tips: 0 })
    );
    // The same name again is refused as well.
    assert_eq!(
        initialize_creator(&mut ledger, &owner, "erin".to_string()),
        Err(TransitionError::AddressInUse)
    );
}

#[test]
fn second_registration_with_a_long_name_fails_on_the_name() {
    let owner = Pubkey::new([13; 32]);
    let mut ledger = Ledger::new();
    initialize_creator(&mut ledger, &owner, "frank".to_string()).unwrap();
    assert_eq!(
        initialize_creator(&mut ledger, &owner, "x".repeat(40)),
        Err(TransitionError::Program(TipfinityError::UsernameTooLong))
    );
}

#[test]
fn two_identities_register_side_by_side() {
    let first = Pubkey::new([14; 32]);
    let second = Pubkey::new([15; 32]);
    let mut ledger = Ledger::new();
    let a = initialize_creator(&mut ledger, &first, "gina".to_string()).unwrap();
    let b = initialize_creator(&mut ledger, &second, "gina".to_string()).unwrap();
    assert_ne!(a, b);
    assert_eq!(ledger.creator(&a).unwrap().owner, first);
    assert_eq!(ledger.creator(&b).unwrap().owner, second);
}

#[test]
fn register_at_takes_the_derived_address() {
    let owner = Pubkey::new([16; 32]);
    let mut ledger = Ledger::new();
    let slot = creator_address(&owner);
    let home = ledger.register_at(slot, &owner, "hugo".to_string()).unwrap();
    assert_eq!(Some(home), slot.map(|found| found.0));
    assert_eq!(
        ledger.register_at(slot, &owner, "hugo".to_string()),
        Err(TransitionError::AddressInUse)
    );
}

#[test]
fn handle_fills_the_record() {
    let authority = Pubkey::new([17; 32]);
    let mut ctx = InitializeCreator { authority, creator: Creator::blank() };
    assert_eq!(handle(&mut ctx, "ivy".to_string()), Ok(()));
    assert_eq!(ctx.authority, authority);
    assert_eq!(
        ctx.creator,
        Creator { owner: authority, username: field(b"ivy"), tip_count: 0, total_tips: 0 }
    );
}

#[test]
fn handle_resets_a_record_that_held_something() {
    let authority = Pubkey::new([18; 32]);
    let stale = Creator {
        owner: Pubkey::new([99; 32]),
        username: [0xFF; 32],
        tip_count: 5,
        total_tips: 77,
    };
    let mut ctx = InitializeCreator { authority, creator: stale };
    assert_eq!(handle(&mut ctx, "jo".to_string()), Ok(()));
    assert_eq!(
        ctx.creator,
        Creator { owner: authority, username: field(b"jo"), tip_count: 0, total_tips: 0 }
    );
}

#[test]
fn handle_leaves_the_record_when_the_name_is_too_long() {
    let authority = Pubkey::new([19; 32]);
    let before = InitializeCreator { authority, creator: Creator::blank() };
    let mut ctx = before;
    assert_eq!(handle(&mut ctx, "y".repeat(33)), Err(TipfinityError::UsernameTooLong));
    assert_eq!(ctx, before);
}

#[test]
fn pack_username_pads_with_zeros() {
    assert_eq!(pack_username(b"kim"), field(b"kim"));
    assert_eq!(pack_username(b""), [0u8; 32]);
}

#[test]
fn pack_username_cuts_a_long_name() {
    let long: Vec<u8> = (1u8..=40).collect();
    let packed = pack_username(&long);
    assert_eq!(&packed[..], &long[..32]);
}

#[test]
fn blank_creator_is_all_zero() {
    assert_eq!(
        Creator::blank(),
        Creator { owner: Pubkey::new([0; 32]), username: [0; 32], tip_count: 0, total_tips: 0 }
    );
    assert_eq!(Creator::MAX_SIZE, 80);
}
