use anchor_lang::AnchorSerialize;
use tipfinity::state::{Creator, Pubkey, TipMetadata};

fn creator() -> Creator {
    let mut username = [0u8; 32];
    username[..5].copy_from_slice(b"alice");
    Creator { owner: Pubkey::new([0xA1; 32]), username, tip_count: 2, total_tips: 750 }
}

fn tip(message: Option<&str>) -> TipMetadata {
    TipMetadata {
        creator: Pubkey::new([0x11; 32]),
        tipper: Pubkey::new([0x22; 32]),
        amount: 500,
        timestamp: 1_700_000_000,
        message: message.map(|m| m.to_string()),
        bump: 254,
    }
}

fn host_bytes_of_creator(c: &Creator) -> Vec<u8> {
    let mut out = Vec::new();
    out.extend(anchor_lang::prelude::Pubkey::new_from_array(c.owner.to_bytes()).try_to_vec().unwrap());
    out.extend(c.username.try_to_vec().unwrap());
    out.extend(c.tip_count.try_to_vec().unwrap());
    out.extend(c.total_tips.try_to_vec().unwrap());
    out
}

fn host_bytes_of_tip(t: &TipMetadata) -> Vec<u8> {
    let mut out = Vec::new();
    out.extend(anchor_lang::prelude::Pubkey::new_from_array(t.creator.to_bytes()).try_to_vec().unwrap());
    out.extend(anchor_lang::prelude::Pubkey::new_from_array(t.tipper.to_bytes()).try_to_vec().unwrap());
    out.extend(t.amount.try_to_vec().unwrap());
    out.extend(t.timestamp.try_to_vec().unwrap());
    out.extend(t.message.try_to_vec().unwrap());
    out.extend(t.bump.try_to_vec().unwrap());
    out
}

#[test]
fn creator_takes_eighty_bytes_in_field_order() {
    let bytes = creator().to_bytes();
    assert_eq!(bytes.len(), 80);
    assert_eq!(bytes.len(), Creator::MAX_SIZE);
    assert_eq!(&bytes[..32], &[0xA1; 32]);
    assert_eq!(&bytes[32..37], b"alice");
    assert_eq!(&bytes[37..64], &[0u8; 27]);
    assert_eq!(&bytes[64..72], &[2, 0, 0, 0, 0, 0, 0, 0]);
    assert_eq!(&bytes[72..80], &[0xEE, 0x02, 0, 0, 0, 0, 0, 0]);
}

#[test]
fn creator_bytes_are_those_of_the_host() {
    let c = creator();
    assert_eq!(c.to_bytes(), host_bytes_of_creator(&c));
    let full = Creator {
        owner: Pubkey::new([0xFF; 32]),
        username: [0x7A; 32],
        tip_count: u64::MAX,
        total_tips: 0x0102_0304_0506_0708,
    };
    assert_eq!(full.to_bytes(), host_bytes_of_creator(&full));
}

#[test]
fn creator_is_read_back() {
    let c = creator();
    assert_eq!(Creator::from_bytes(&c.to_bytes()), Some(c));
    assert_eq!(Creator::from_bytes(&Creator::blank().to_bytes()), Some(Creator::blank()));
    assert_eq!(Creator::blank().to_bytes(), vec![0u8; 80]);
}

#[test]
fn creator_is_not_read_from_another_length() {
    let bytes = creator().to_bytes();
    assert_eq!(Creator::from_bytes(&bytes[..79]), None);
    let mut longer = bytes.clone();
    longer.push(0);
    assert_eq!(Creator::from_bytes(&longer), None);
    assert_eq!(Creator::from_bytes(&[]), None);
}

#[test]
fn tip_without_message_takes_82_bytes() {
    let bytes = tip(None).to_bytes().unwrap();
    assert_eq!(bytes.len(), 82);
    assert_eq!(&bytes[..32], &[0x11; 32]);
    assert_eq!(&bytes[32..64], &[0x22; 32]);
    assert_eq!(&bytes[64..72], &500u64.to_le_bytes());
    assert_eq!(&bytes[72..80], &1_700_000_000i64.to_le_bytes());
    assert_eq!(bytes[80], 0);
    assert_eq!(bytes[81], 254);
}

#[test]
fn tip_with_message_carries_its_length_and_text() {
    let bytes = tip(Some("nice!")).to_bytes().unwrap();
    assert_eq!(bytes.len(), 91);
    assert_eq!(bytes[80], 1);
    assert_eq!(&bytes[81..85], &[5, 0, 0, 0]);
    assert_eq!(&bytes[85..90], b"nice!");
    assert_eq!(bytes[90], 254);
}

#[test]
fn tip_bytes_are_those_of_the_host() {
    for message in [None, Some(""), Some("nice!"), Some("gr\u{fc}\u{df}e \u{1f389}")] {
        let t = tip(message);
        assert_eq!(t.to_bytes(), Some(host_bytes_of_tip(&t)));
    }
    let mut early = tip(Some("before the epoch"));
    early.timestamp = -2;
    early.amount = u64::MAX;
    assert_eq!(early.to_bytes(), Some(host_bytes_of_tip(&early)));
}

#[test]
fn longest_message_fills_the_space_set_aside() {
    let text = "m".repeat(256);
    let bytes = tip(Some(&text)).to_bytes().unwrap();
    assert_eq!(bytes.len(), TipMetadata::MAX_SIZE);
    assert_eq!(TipMetadata::MAX_SIZE, 342);
    assert_eq!(tip(Some(&"m".repeat(257))).to_bytes(), None);
}

#[test]
fn tip_is_read_back() {
    for message in [None, Some(""), Some("nice!"), Some("gr\u{fc}\u{df}e \u{1f389}")] {
        let t = tip(message);
        assert_eq!(TipMetadata::from_bytes(&t.to_bytes().unwrap()), Some(t));
    }
    let mut early = tip(None);
    early.timestamp = i64::MIN;
    assert_eq!(TipMetadata::from_bytes(&early.to_bytes().unwrap()), Some(early));
    let longest = tip(Some(&"m".repeat(256)));
    assert_eq!(TipMetadata::from_bytes(&longest.to_bytes().unwrap()), Some(longest));
}

#[test]
fn tip_is_not_read_from_broken_bytes() {
    let good = tip(Some("nice!")).to_bytes().unwrap();
    // Cut short, or with a byte too many.
    assert_eq!(TipMetadata::from_bytes(&good[..90]), None);
    assert_eq!(TipMetadata::from_bytes(&good[..81]), None);
    let mut longer = good.clone();
    longer.push(0);
    assert_eq!(TipMetadata::from_bytes(&longer), None);
    // A presence byte that is neither zero nor one.
    let mut tagged = good.clone();
    tagged[80] = 2;
    assert_eq!(TipMetadata::from_bytes(&tagged), None);
    // A length that does not match the text.
    let mut lengthy = good.clone();
    lengthy[81] = 4;
    assert_eq!(TipMetadata::from_bytes(&lengthy), None);
    // Text that is not UTF-8.
    let mut garbled = good.clone();
    garbled[85] = 0xFF;
    assert_eq!(TipMetadata::from_bytes(&garbled), None);
    // No message, but bytes after the bump.
    let bare = tip(None).to_bytes().unwrap();
    let mut padded = bare.clone();
    padded.extend([0u8; 4]);
    assert_eq!(TipMetadata::from_bytes(&padded), None);
}

#[test]
fn tip_with_a_message_over_the_cap_is_not_read() {
    let text = "m".repeat(257);
    let mut bytes = tip(None).to_bytes().unwrap();
    bytes.truncate(80);
    bytes.push(1);
    bytes.extend(257u32.to_le_bytes());
    bytes.extend(text.as_bytes());
    bytes.push(254);
    assert_eq!(TipMetadata::from_bytes(&bytes), None);
}
