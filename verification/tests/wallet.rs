use tipfinity::wallet::{
    generated_username, link_wallet, link_wallet_with, registration_reply, wallet_key,
    CreatorResponse, Insertion, LinkReply, LinkStep, LinkWalletInput, Lookup, NewCreator,
};

fn profile() -> CreatorResponse {
    CreatorResponse {
        id: 12,
        username: "user4711".to_string(),
        wallet_address: "So1anaWa11et".to_string(),
        email: Some("a@b.c".to_string()),
        bio: None,
        profile_image: Some("pic.png".to_string()),
    }
}

fn input(wallet: &str, email: Option<&str>) -> LinkWalletInput {
    LinkWalletInput { wallet_address: wallet.to_string(), email: email.map(|e| e.to_string()) }
}

#[test]
fn wallet_key_drops_white_space_at_both_ends() {
    assert_eq!(wallet_key(&input("  abc \n", None)), "abc");
    assert_eq!(wallet_key(&input("\tabc", None)), "abc");
    assert_eq!(wallet_key(&input("abc", None)), "abc");
    assert_eq!(wallet_key(&input("a b", None)), "a b");
    assert_eq!(wallet_key(&input("   ", None)), "");
}

#[test]
fn generated_username_is_user_and_the_number() {
    assert_eq!(generated_username(0), "user0");
    assert_eq!(generated_username(7), "user7");
    assert_eq!(generated_username(10), "user10");
    assert_eq!(generated_username(42), "user42");
    assert_eq!(generated_username(1000), "user1000");
    assert_eq!(generated_username(4711), "user4711");
    assert_eq!(generated_username(65535), "user65535");
}

#[test]
fn generated_username_agrees_with_the_decimal_formatting() {
    for id in [0u16, 1, 9, 10, 99, 100, 101, 999, 1001, 9999, 10000, 12345, 60000, 65534] {
        assert_eq!(generated_username(id), format!("user{}", id));
    }
}

#[test]
fn known_wallet_logs_in() {
    let step = link_wallet(input(" So1anaWa11et ", None), Lookup::Found(profile()));
    assert_eq!(step, LinkStep::Reply(LinkReply::Login(profile())));
    let reply = LinkReply::Login(profile());
    assert_eq!(reply.status(), 200);
    assert_eq!(reply.message(), "Wallet login successful");
}

#[test]
fn new_wallet_without_email_is_asked_for_one() {
    let step = link_wallet(input("So1anaWa11et", None), Lookup::Missing);
    assert_eq!(step, LinkStep::Reply(LinkReply::EmailRequired));
    assert_eq!(LinkReply::EmailRequired.status(), 400);
    assert_eq!(LinkReply::EmailRequired.message(), "Email required for new wallet onboarding");
}

#[test]
fn new_wallet_with_email_gets_a_profile() {
    let step = link_wallet(input("  So1anaWa11et\n", Some("new@b.c")), Lookup::Missing);
    match step {
        LinkStep::Insert(new) => {
            assert_eq!(new.email, "new@b.c");
            assert_eq!(new.wallet_address, "So1anaWa11et");
            let number = new.username.strip_prefix("user").unwrap();
            let id: u16 = number.parse().unwrap();
            assert_eq!(new.username, generated_username(id));
        },
        other => panic!("no profile to create: {:?}", other),
    }
}

#[test]
fn store_failure_at_lookup_is_passed_on() {
    let step = link_wallet(input("w", Some("e@f.g")), Lookup::Failed("pool timed out".to_string()));
    assert_eq!(step, LinkStep::Reply(LinkReply::StoreFailed("pool timed out".to_string())));
    let reply = LinkReply::StoreFailed("pool timed out".to_string());
    assert_eq!(reply.status(), 500);
    assert_eq!(reply.message(), "pool timed out");
}

#[test]
fn link_wallet_with_uses_the_number_given() {
    let step =
        link_wallet_with("w".to_string(), Some("e@f.g".to_string()), Lookup::Missing, 321);
    assert_eq!(
        step,
        LinkStep::Insert(NewCreator {
            username: "user321".to_string(),
            email: "e@f.g".to_string(),
            wallet_address: "w".to_string(),
        })
    );
    assert_eq!(
        link_wallet_with("w".to_string(), None, Lookup::Missing, 321),
        LinkStep::Reply(LinkReply::EmailRequired)
    );
    assert_eq!(
        link_wallet_with("w".to_string(), None, Lookup::Found(profile()), 321),
        LinkStep::Reply(LinkReply::Login(profile()))
    );
}

#[test]
fn created_profile_is_confirmed() {
    let new = NewCreator {
        username: "user5".to_string(),
        email: "e@f.g".to_string(),
        wallet_address: "w".to_string(),
    };
    let reply = registration_reply(new, Insertion::Created(88));
    assert_eq!(
        reply,
        LinkReply::Registered {
            creator_id: 88,
            username: "user5".to_string(),
            wallet_address: "w".to_string(),
        }
    );
    assert_eq!(reply.status(), 201);
    assert_eq!(reply.message(), "New creator registered successfully");
}

#[test]
fn store_failure_at_creation_is_passed_on() {
    let new = NewCreator {
        username: "user5".to_string(),
        email: "e@f.g".to_string(),
        wallet_address: "w".to_string(),
    };
    let reply = registration_reply(new, Insertion::Failed("duplicate key".to_string()));
    assert_eq!(reply, LinkReply::StoreFailed("duplicate key".to_string()));
    assert_eq!(reply.status(), 500);
}
