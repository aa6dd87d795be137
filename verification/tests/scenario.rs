use tipfinity::address::{creator_address, tip_address};
use tipfinity::program::{initialize_creator, tip, Ledger, Tip};
use tipfinity::state::{Pubkey, TipEvent};

#[test]
fn alice_receives_two_tips() {
    let a = Pubkey::new([0xA1; 32]);
    let b = Pubkey::new([0xB2; 32]);
    let c = Pubkey::new([0xC3; 32]);
    let mut ledger = Ledger::new();
    ledger.deposit(&b, 1_000).unwrap();
    ledger.deposit(&c, 1_000).unwrap();

    let home = initialize_creator(&mut ledger, &a, "alice".to_string()).unwrap();
    assert_eq!(Some(home), creator_address(&a).map(|found| found.0));
    let record = ledger.creator(&home).unwrap();
    assert_eq!(record.owner, a);
    let mut name = [0u8; 32];
    name[..5].copy_from_slice(b"alice");
    assert_eq!(record.username, name);
    assert_eq!(record.tip_count, 0);
    assert_eq!(record.total_tips, 0);

    let accounts = Tip { tipper: b, creator: home, creator_wallet: a };
    let first = tip(&mut ledger, accounts, 500, Some("nice!".to_string()), 1_700_000_000).unwrap();
    assert_eq!(first.tip_count, 1);
    assert_eq!(first.total_tips, 500);
    assert_eq!(Some(first.tip), tip_address(&home, 0).map(|found| found.0));
    let stored = ledger.tip_record(&first.tip).unwrap();
    assert_eq!(stored.creator, home);
    assert_eq!(stored.tipper, b);
    assert_eq!(stored.amount, 500);
    assert_eq!(stored.timestamp, 1_700_000_000);
    assert_eq!(stored.message, Some("nice!".to_string()));
    assert_eq!(Some(stored.bump), tip_address(&home, 0).map(|found| found.1));
    let record = ledger.creator(&home).unwrap();
    assert_eq!(record.owner, a);
    assert_eq!(record.username, name);
    assert_eq!(record.tip_count, 1);
    assert_eq!(record.total_tips, 500);
    assert_eq!(ledger.events().len(), 1);
    assert_eq!(
        ledger.events()[0],
        TipEvent { creator: a, tipper: b, amount: 500, message: Some("nice!".to_string()) }
    );
    assert_eq!(ledger.balance(&b), 500);
    assert_eq!(ledger.balance(&a), 500);

    let accounts = Tip { tipper: c, creator: home, creator_wallet: a };
    let second = tip(&mut ledger, accounts, 250, None, 1_700_000_001).unwrap();
    assert_eq!(second.tip_count, 2);
    assert_eq!(second.total_tips, 750);
    assert_eq!(Some(second.tip), tip_address(&home, 1).map(|found| found.0));
    assert_ne!(second.tip, first.tip);
    let stored = ledger.tip_record(&second.tip).unwrap();
    assert_eq!(stored.creator, home);
    assert_eq!(stored.tipper, c);
    assert_eq!(stored.amount, 250);
    assert_eq!(stored.message, None);
    let record = ledger.creator(&home).unwrap();
    assert_eq!(record.tip_count, 2);
    assert_eq!(record.total_tips, 750);
    assert_eq!(ledger.events().len(), 2);
    assert_eq!(ledger.events()[1], TipEvent { creator: a, tipper: c, amount: 250, message: None });
    assert_eq!(ledger.balance(&c), 750);
    assert_eq!(ledger.balance(&a), 750);
    // The first tip is still there, as it was written.
    let kept = ledger.tip_record(&first.tip).unwrap();
    assert_eq!(kept.amount, 500);
    assert_eq!(kept.message, Some("nice!".to_string()));
}
