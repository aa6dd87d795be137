//! Linking a wallet to an off-ledger profile: what to ask of the profile
//! store, and what to answer, at each point of a request. Talking to the
//! store is left to the caller.

use vstd::prelude::*;
use vstd::string::StringExecFns;

verus! {

/// What a request to link a wallet carries.
#[derive(Clone, Debug, PartialEq, Eq)]
pub struct LinkWalletInput {
    pub wallet_address: String,
    /// Needed only when the wallet is seen for the first time.
    pub email: Option<String>,
}

/// The profile of a creator, as the profile store holds it.
#[derive(Clone, Debug, PartialEq, Eq)]
pub struct CreatorResponse {
    pub id: i32,
    pub username: String,
    pub wallet_address: String,
    pub email: Option<String>,
    pub bio: Option<String>,
    pub profile_image: Option<String>,
}

/// What the profile store answered when asked for the profile of a wallet.
#[derive(Clone, Debug, PartialEq, Eq)]
pub enum Lookup {
    Found(CreatorResponse),
    Missing,
    Failed(String),
}

/// The profile to create for a wallet that is seen for the first time.
#[derive(Clone, Debug, PartialEq, Eq)]
pub struct NewCreator {
    pub username: String,
    pub email: String,
    pub wallet_address: String,
}

/// What the profile store answered when asked to create a profile: the
/// number of the new profile, or why it created none.
#[derive(Clone, Debug, PartialEq, Eq)]
pub enum Insertion {
    Created(i32),
    Failed(String),
}

/// The answer to a request to link a wallet.
#[derive(Clone, Debug, PartialEq, Eq)]
pub enum LinkReply {
    /// The wallet was known: its profile.
    Login(CreatorResponse),
    /// The wallet was new and a profile was created for it.
    Registered { creator_id: i32, username: String, wallet_address: String },
    /// The wallet was new and the request carried no email.
    EmailRequired,
    /// The profile store failed, with what it said.
    StoreFailed(String),
}

/// What to do once the profile store has answered the lookup.
#[derive(Clone, Debug, PartialEq, Eq)]
pub enum LinkStep {
    /// Answer the request.
    Reply(LinkReply),
    /// Ask the profile store to create this profile.
    Insert(NewCreator),
}

/// A text without the white space at its two ends.
pub uninterp spec fn trimmed(text: Seq<char>) -> Seq<char>;

/// Calls `str::trim` of std, which returns the text without leading and
/// trailing white space. The contract gives that result the name `trimmed`.
#[verifier::external_body]
fn trim(text: &str) -> (inner: &str)
    ensures
        inner@ == trimmed(text@),
{
    text.trim()
}

/// Calls `rand::random` for a `u16`. Nothing is claimed of the number drawn.
#[verifier::external_body]
fn random_id() -> (id: u16) {
    rand::random::<u16>()
}

/// The character of a decimal digit.
pub open spec fn digit(d: nat) -> char {
    if d == 0 {
        '0'
    } else if d == 1 {
        '1'
    } else if d == 2 {
        '2'
    } else if d == 3 {
        '3'
    } else if d == 4 {
        '4'
    } else if d == 5 {
        '5'
    } else if d == 6 {
        '6'
    } else if d == 7 {
        '7'
    } else if d == 8 {
        '8'
    } else {
        '9'
    }
}

/// A number in decimal, without leading zeros.
pub open spec fn decimal(n: nat) -> Seq<char>
    decreases n,
{
    if n < 10 {
        seq![digit(n)]
    } else {
        decimal(n / 10).push(digit(n % 10))
    }
}

/// The username given to a new profile: the word `user`, then the number
/// drawn for it in decimal.
pub open spec fn generated_username_spec(id: u16) -> Seq<char> {
    seq!['u', 's', 'e', 'r'] + decimal(id as nat)
}

fn digit_text(d: u16) -> (text: &'static str)
    requires
        d < 10,
    ensures
        text@ == seq![digit(d as nat)],
{
    proof {
        reveal_strlit("0");
        reveal_strlit("1");
        reveal_strlit("2");
        reveal_strlit("3");
        reveal_strlit("4");
        reveal_strlit("5");
        reveal_strlit("6");
        reveal_strlit("7");
        reveal_strlit("8");
        reveal_strlit("9");
    }
    let text = if d == 0 {
        "0"
    } else if d == 1 {
        "1"
    } else if d == 2 {
        "2"
    } else if d == 3 {
        "3"
    } else if d == 4 {
        "4"
    } else if d == 5 {
        "5"
    } else if d == 6 {
        "6"
    } else if d == 7 {
        "7"
    } else if d == 8 {
        "8"
    } else {
        "9"
    };
    assert(text@ =~= seq![digit(d as nat)]);
    text
}

fn push_decimal(text: &mut String, n: u16)
    ensures
        final(text)@ == old(text)@ + decimal(n as nat),
    decreases n,
{
    if n >= 10 {
        push_decimal(text, n / 10);
    }
    text.append(digit_text(n % 10));
    assert(text@ =~= old(text)@ + decimal(n as nat));
}

/// The username given to a new profile for which `id` was drawn.
pub fn generated_username(id: u16) -> (username: String)
    ensures
        username@ == generated_username_spec(id),
{
    proof {
        reveal_strlit("user");
    }
    let mut username = String::from_str("user");
    push_decimal(&mut username, id);
    assert(username@ =~= generated_username_spec(id));
    username
}

/// The address under which the wallet of a request is looked up and
/// stored: the address of the request without the white space at its ends.
pub fn wallet_key(input: &LinkWalletInput) -> (key: String)
    ensures
        key@ == trimmed(input.wallet_address@),
{
    String::from_str(trim(input.wallet_address.as_str()))
}

/// Whether `step` is what follows the store's answer `lookup` for the
/// wallet `wallet_address` and the email of the request, where `id` is the
/// number drawn for a new profile.
///
/// A known wallet is answered with its profile, a failure of the store with
/// what the store said. A new wallet without an email is answered with the
/// demand for one; with an email, a profile is to be created under the
/// generated username.
pub open spec fn link_step(
    wallet_address: Seq<char>,
    email: Option<String>,
    lookup: Lookup,
    id: u16,
    step: LinkStep,
) -> bool {
    match lookup {
        Lookup::Found(profile) => step == LinkStep::Reply(LinkReply::Login(profile)),
        Lookup::Failed(reason) => step == LinkStep::Reply(LinkReply::StoreFailed(reason)),
        Lookup::Missing => match email {
            None => step == LinkStep::Reply(LinkReply::EmailRequired),
            Some(email) => {
                &&& step matches LinkStep::Insert(profile)
                &&& profile.username@ == generated_username_spec(id)
                &&& profile.email@ == email@
                &&& profile.wallet_address@ == wallet_address
            },
        },
    }
}

/// What follows the store's answer `lookup` for the wallet `wallet_address`
/// and the email of the request, where `id` is the number drawn for a new
/// profile.
pub fn link_wallet_with(
    wallet_address: String,
    email: Option<String>,
    lookup: Lookup,
    id: u16,
) -> (step: LinkStep)
    ensures
        link_step(wallet_address@, email, lookup, id, step),
{
    match lookup {
        Lookup::Found(profile) => LinkStep::Reply(LinkReply::Login(profile)),
        Lookup::Failed(reason) => LinkStep::Reply(LinkReply::StoreFailed(reason)),
        Lookup::Missing => match email {
            None => LinkStep::Reply(LinkReply::EmailRequired),
            Some(email) => LinkStep::Insert(
                NewCreator { username: generated_username(id), email, wallet_address },
            ),
        },
    }
}

/// What follows the store's answer `lookup` to the lookup of the wallet of
/// `input`. For a new wallet with an email, a number is drawn at random and
/// a profile is to be created under the username generated from it.
pub fn link_wallet(input: LinkWalletInput, lookup: Lookup) -> (step: LinkStep)
    ensures
        exists|id: u16| #[trigger]
            link_step(trimmed(input.wallet_address@), input.email, lookup, id, step),
{
    let wallet_address = wallet_key(&input);
    let id: u16 = match (&lookup, &input.email) {
        (Lookup::Missing, Some(_)) => random_id(),
        _ => 0,
    };
    let step = link_wallet_with(wallet_address, input.email, lookup, id);
    assert(link_step(trimmed(input.wallet_address@), input.email, lookup, id, step));
    step
}

/// The answer to the request once the profile store has answered the
/// creation of `profile`: the new profile's number, username and wallet, or
/// what the store said when it failed.
pub fn registration_reply(profile: NewCreator, insertion: Insertion) -> (reply: LinkReply)
    ensures
        match insertion {
            Insertion::Created(id) => reply == (LinkReply::Registered {
                creator_id: id,
                username: profile.username,
                wallet_address: profile.wallet_address,
            }),
            Insertion::Failed(reason) => reply == LinkReply::StoreFailed(reason),
        },
{
    match insertion {
        Insertion::Created(id) => LinkReply::Registered {
            creator_id: id,
            username: profile.username,
            wallet_address: profile.wallet_address,
        },
        Insertion::Failed(reason) => LinkReply::StoreFailed(reason),
    }
}

impl LinkReply {
    /// The HTTP status of the answer.
    pub open spec fn status_spec(&self) -> u16 {
        match *self {
            LinkReply::Login(_) => 200,
            LinkReply::Registered { .. } => 201,
            LinkReply::EmailRequired => 400,
            LinkReply::StoreFailed(_) => 500,
        }
    }

    /// The HTTP status of the answer: 200 for a login, 201 for a new
    /// profile, 400 where an email is missing, 500 where the store failed.
    #[verifier::when_used_as_spec(status_spec)]
    pub fn status(&self) -> (code: u16)
        ensures
            code == self.status_spec(),
    {
        match self {
            LinkReply::Login(_) => 200,
            LinkReply::Registered { .. } => 201,
            LinkReply::EmailRequired => 400,
            LinkReply::StoreFailed(_) => 500,
        }
    }

    /// The text that goes with the answer.
    pub open spec fn message_spec(&self) -> Seq<char> {
        match *self {
            LinkReply::Login(_) => "Wallet login successful"@,
            LinkReply::Registered { .. } => "New creator registered successfully"@,
            LinkReply::EmailRequired => "Email required for new wallet onboarding"@,
            LinkReply::StoreFailed(reason) => reason@,
        }
    }

    /// The text that goes with the answer: a fixed sentence, or what the
    /// store said when it failed.
    pub fn message(&self) -> (text: String)
        ensures
            text@ == self.message_spec(),
    {
        match self {
            LinkReply::Login(_) => String::from_str("Wallet login successful"),
            LinkReply::Registered { .. } => String::from_str("New creator registered successfully"),
            LinkReply::EmailRequired => String::from_str(
                "Email required for new wallet onboarding",
            ),
            LinkReply::StoreFailed(reason) => reason.clone(),
        }
    }
}

} // verus!
