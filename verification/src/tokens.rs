//! Field kinds, per-field verification status, identity judgement, and
//! their fixed lowercase wire/storage tokens.
//!
//! The token mapping of each enum is the single bidirectional codec
//! shared by the storage and API boundaries: encoding and decoding use
//! exactly these tokens, and an unknown token is a decode failure, never
//! a default.

use vstd::prelude::*;

verus! {

/// The closed set of verifiable field kinds, plus three internal-only
/// routing tags that never appear in persisted identity state.
#[derive(Clone, Copy, Debug, PartialEq, Eq, Hash, Structural)]
pub enum AccountType {
    LegalName,
    DisplayName,
    Email,
    Web,
    Twitter,
    Matrix,
    ReservedConnector,
    ReservedEmitter,
    ReservedFeeder,
}

/// Per-field verification outcome. A field starts `Unconfirmed` and
/// moves only by an explicit verification command.
#[derive(Clone, Copy, Debug, PartialEq, Eq, Structural)]
pub enum ChallengeStatus {
    Unconfirmed,
    Accepted,
    Rejected,
}

/// Terminal assessment of an identity as a whole, orthogonal to the
/// per-field statuses.
#[derive(Clone, Copy, Debug, PartialEq, Eq, Structural)]
pub enum Judgement {
    Reasonable,
    Erroneous,
}

/// The storage token of a field kind; the reserved routing tags have
/// none and may not be persisted.
pub open spec fn account_type_token(t: AccountType) -> Option<Seq<char>> {
    match t {
        AccountType::LegalName => Some("legal_name"@),
        AccountType::DisplayName => Some("display_name"@),
        AccountType::Email => Some("email"@),
        AccountType::Web => Some("web"@),
        AccountType::Twitter => Some("twitter"@),
        AccountType::Matrix => Some("matrix"@),
        AccountType::ReservedConnector => None,
        AccountType::ReservedEmitter => None,
        AccountType::ReservedFeeder => None,
    }
}

/// The field kind a token names, if any.
pub open spec fn account_type_of_token(s: Seq<char>) -> Option<AccountType> {
    if s == "legal_name"@ {
        Some(AccountType::LegalName)
    } else if s == "display_name"@ {
        Some(AccountType::DisplayName)
    } else if s == "email"@ {
        Some(AccountType::Email)
    } else if s == "web"@ {
        Some(AccountType::Web)
    } else if s == "twitter"@ {
        Some(AccountType::Twitter)
    } else if s == "matrix"@ {
        Some(AccountType::Matrix)
    } else {
        None
    }
}

/// The storage token of a per-field status; every status has one.
pub open spec fn challenge_status_token(s: ChallengeStatus) -> Seq<char> {
    match s {
        ChallengeStatus::Unconfirmed => "unconfirmed"@,
        ChallengeStatus::Accepted => "accepted"@,
        ChallengeStatus::Rejected => "rejected"@,
    }
}

/// The status a token names, if any.
pub open spec fn challenge_status_of_token(s: Seq<char>) -> Option<ChallengeStatus> {
    if s == "unconfirmed"@ {
        Some(ChallengeStatus::Unconfirmed)
    } else if s == "accepted"@ {
        Some(ChallengeStatus::Accepted)
    } else if s == "rejected"@ {
        Some(ChallengeStatus::Rejected)
    } else {
        None
    }
}

/// The storage token of a judgement; every judgement has one.
pub open spec fn judgement_token(j: Judgement) -> Seq<char> {
    match j {
        Judgement::Reasonable => "reasonable"@,
        Judgement::Erroneous => "erroneous"@,
    }
}

/// The judgement a token names, if any.
pub open spec fn judgement_of_token(s: Seq<char>) -> Option<Judgement> {
    if s == "reasonable"@ {
        Some(Judgement::Reasonable)
    } else if s == "erroneous"@ {
        Some(Judgement::Erroneous)
    } else {
        None
    }
}

/// Whether two texts are equal character for character.
pub fn str_eq(a: &str, b: &str) -> (r: bool)
    ensures
        r == (a@ == b@),
{
    let n = a.unicode_len();
    if n != b.unicode_len() {
        return false;
    }
    let mut i: usize = 0;
    while i < n
        invariant
            n == a@.len(),
            n == b@.len(),
            i <= n,
            forall|j: int| 0 <= j < i ==> a@[j] == b@[j],
        decreases n - i,
    {
        if a.get_char(i) != b.get_char(i) {
            return false;
        }
        i = i + 1;
    }
    proof {
        assert(a@ =~= b@);
    }
    true
}

impl AccountType {
    /// Encode this kind for storage; the reserved routing tags are
    /// refused, exactly as the token mapping says.
    pub fn to_token(&self) -> (r: Option<&'static str>)
        ensures
            match r {
                Some(s) => account_type_token(*self) == Some(s@),
                None => account_type_token(*self) is None,
            },
    {
        match self {
            AccountType::LegalName => Some("legal_name"),
            AccountType::DisplayName => Some("display_name"),
            AccountType::Email => Some("email"),
            AccountType::Web => Some("web"),
            AccountType::Twitter => Some("twitter"),
            AccountType::Matrix => Some("matrix"),
            AccountType::ReservedConnector => None,
            AccountType::ReservedEmitter => None,
            AccountType::ReservedFeeder => None,
        }
    }

    /// Decode a storage token; an unknown token is a failure, not a
    /// default.
    pub fn from_token(s: &str) -> (r: Option<AccountType>)
        ensures
            r == account_type_of_token(s@),
    {
        if str_eq(s, "legal_name") {
            Some(AccountType::LegalName)
        } else if str_eq(s, "display_name") {
            Some(AccountType::DisplayName)
        } else if str_eq(s, "email") {
            Some(AccountType::Email)
        } else if str_eq(s, "web") {
            Some(AccountType::Web)
        } else if str_eq(s, "twitter") {
            Some(AccountType::Twitter)
        } else if str_eq(s, "matrix") {
            Some(AccountType::Matrix)
        } else {
            None
        }
    }
}

impl ChallengeStatus {
    /// Encode this status for storage.
    pub fn to_token(&self) -> (r: &'static str)
        ensures
            challenge_status_token(*self) == r@,
    {
        match self {
            ChallengeStatus::Unconfirmed => "unconfirmed",
            ChallengeStatus::Accepted => "accepted",
            ChallengeStatus::Rejected => "rejected",
        }
    }

    /// Decode a storage token; an unknown token is a failure.
    pub fn from_token(s: &str) -> (r: Option<ChallengeStatus>)
        ensures
            r == challenge_status_of_token(s@),
    {
        if str_eq(s, "unconfirmed") {
            Some(ChallengeStatus::Unconfirmed)
        } else if str_eq(s, "accepted") {
            Some(ChallengeStatus::Accepted)
        } else if str_eq(s, "rejected") {
            Some(ChallengeStatus::Rejected)
        } else {
            None
        }
    }
}

impl Judgement {
    /// Encode this judgement for storage.
    pub fn to_token(&self) -> (r: &'static str)
        ensures
            judgement_token(*self) == r@,
    {
        match self {
            Judgement::Reasonable => "reasonable",
            Judgement::Erroneous => "erroneous",
        }
    }

    /// Decode a storage token; an unknown token is a failure.
    pub fn from_token(s: &str) -> (r: Option<Judgement>)
        ensures
            r == judgement_of_token(s@),
    {
        if str_eq(s, "reasonable") {
            Some(Judgement::Reasonable)
        } else if str_eq(s, "erroneous") {
            Some(Judgement::Erroneous)
        } else {
            None
        }
    }
}

/// Tokens round-trip: decoding the token of a storable field kind gives
/// the kind back, and likewise for statuses and judgements.
pub proof fn lemma_tokens_round_trip(t: AccountType, s: ChallengeStatus, j: Judgement)
    ensures
        account_type_token(t) matches Some(tok) ==> account_type_of_token(tok) == Some(t),
        challenge_status_of_token(challenge_status_token(s)) == Some(s),
        judgement_of_token(judgement_token(j)) == Some(j),
{
    reveal_strlit("legal_name");
    reveal_strlit("display_name");
    reveal_strlit("email");
    reveal_strlit("web");
    reveal_strlit("twitter");
    reveal_strlit("matrix");
    reveal_strlit("unconfirmed");
    reveal_strlit("accepted");
    reveal_strlit("rejected");
    reveal_strlit("reasonable");
    reveal_strlit("erroneous");
    assert("legal_name"@.len() == 10);
    assert("display_name"@.len() == 12);
    assert("email"@.len() == 5);
    assert("web"@.len() == 3);
    assert("twitter"@.len() == 7);
    assert("matrix"@.len() == 6);
    assert("unconfirmed"@.len() == 11);
    assert("accepted"@.len() == 8);
    assert("rejected"@.len() == 8);
    assert("reasonable"@.len() == 10);
    assert("erroneous"@.len() == 9);
    match t {
        AccountType::LegalName => assert(account_type_of_token("legal_name"@) == Some(t)),
        AccountType::DisplayName => assert(account_type_of_token("display_name"@) == Some(t)),
        AccountType::Email => assert(account_type_of_token("email"@) == Some(t)),
        AccountType::Web => assert(account_type_of_token("web"@) == Some(t)),
        AccountType::Twitter => assert(account_type_of_token("twitter"@) == Some(t)),
        AccountType::Matrix => assert(account_type_of_token("matrix"@) == Some(t)),
        _ => assert(account_type_token(t) is None),
    }
    match s {
        ChallengeStatus::Unconfirmed => assert(challenge_status_of_token("unconfirmed"@) == Some(
            s,
        )),
        ChallengeStatus::Accepted => assert(challenge_status_of_token("accepted"@) == Some(s)),
        ChallengeStatus::Rejected => {
            assert("rejected"@[0] != "accepted"@[0]);
            assert(challenge_status_of_token("rejected"@) == Some(s));
        },
    }
    match j {
        Judgement::Reasonable => assert(judgement_of_token("reasonable"@) == Some(j)),
        Judgement::Erroneous => assert(judgement_of_token("erroneous"@) == Some(j)),
    }
}

} // verus!
