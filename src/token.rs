//! The token authority: the live set of capability tokens, which only grows,
//! and only by tokens that a local user approved.

use std::collections::HashSet;
use vstd::prelude::*;

verus! {

broadcast use vstd::std_specs::hash::group_hash_axioms;

/// What `uuid::Uuid::parse_str` reads from a text, as the UUID's 128-bit value.
pub uninterp spec fn uuid_value(s: Seq<char>) -> Option<u128>;

/// Relies on `uuid::Uuid::new_v4`: a random version-4 UUID, as its 128-bit value.
#[verifier::external_body]
fn random_token() -> (r: u128) {
    uuid::Uuid::new_v4().as_u128()
}

/// Relies on `uuid::Uuid::parse_str`: the UUID that a text spells, if it spells one.
#[verifier::external_body]
pub(crate) fn parse_uuid(s: &str) -> (r: Option<u128>)
    ensures
        r == uuid_value(s@),
{
    match uuid::Uuid::parse_str(s) {
        Ok(u) => Some(u.as_u128()),
        Err(_) => None,
    }
}

/// How many values a request draws before it gives up on finding a fresh one.
pub const MAX_DRAWS: u32 = 8;

/// Why no token was handed out.
#[derive(Debug, Clone, Copy, PartialEq, Eq, Structural)]
pub enum TokenError {
    /// The local user declined the request.
    Denied,
    /// Every drawn value was live already; no token was minted.
    Collision,
}

/// The outcome of one grant on a live set: the new set and what the caller gets.
pub open spec fn grant_step(live: Set<u128>, approved: bool, candidate: u128) -> (Set<u128>, Result<u128, TokenError>) {
    if !approved {
        (live, Err(TokenError::Denied))
    } else if live.contains(candidate) {
        (live, Err(TokenError::Collision))
    } else {
        (live.insert(candidate), Ok(candidate))
    }
}

/// The set of capability tokens that are live in this process.
pub struct TokenAuthority {
    tokens: HashSet<u128>,
}

impl View for TokenAuthority {
    type V = Set<u128>;

    closed spec fn view(&self) -> Set<u128> {
        self.tokens@
    }
}

impl TokenAuthority {
    /// An authority with no live token.
    pub fn new() -> (r: TokenAuthority)
        ensures
            r@ == Set::<u128>::empty(),
    {
        TokenAuthority { tokens: HashSet::new() }
    }

    /// Whether a token is live.
    pub fn contains_token(&self, token: u128) -> (r: bool)
        ensures
            r == self@.contains(token),
    {
        self.tokens.contains(&token)
    }

    /// Grants `candidate` as a new token when the user approved and it is not live yet.
    pub fn grant(&mut self, approved: bool, candidate: u128) -> (r: Result<u128, TokenError>)
        ensures
            (final(self)@, r) == grant_step(old(self)@, approved, candidate),
    {
        if !approved {
            return Err(TokenError::Denied);
        }
        if self.tokens.contains(&candidate) {
            return Err(TokenError::Collision);
        }
        self.tokens.insert(candidate);
        Ok(candidate)
    }

    /// Mints a fresh random token once the user approved; nothing changes
    /// otherwise. A drawn value that is live already is drawn again, up to
    /// `MAX_DRAWS` times in all.
    pub fn request_token(&mut self, approved: bool) -> (r: Result<u128, TokenError>)
        ensures
            !approved <==> r == Err::<u128, TokenError>(TokenError::Denied),
            approved ==> (r is Ok || r == Err::<u128, TokenError>(TokenError::Collision)),
            r matches Ok(t) ==> !old(self)@.contains(t) && final(self)@ == old(self)@.insert(t),
            r is Err ==> final(self)@ == old(self)@,
    {
        if !approved {
            return Err(TokenError::Denied);
        }
        let mut draws: u32 = 0;
        while draws < MAX_DRAWS
            invariant
                approved,
                self@ == old(self)@,
            decreases MAX_DRAWS - draws,
        {
            let candidate = random_token();
            if !self.contains_token(candidate) {
                return self.grant(approved, candidate);
            }
            draws = draws + 1;
        }
        Err(TokenError::Collision)
    }
}

/// The live set after a run of grants, each an approval and a drawn value.
pub open spec fn live_after(live: Set<u128>, requests: Seq<(bool, u128)>) -> Set<u128>
    decreases requests.len(),
{
    if requests.len() == 0 {
        live
    } else {
        let last = requests.last();
        grant_step(live_after(live, requests.drop_last()), last.0, last.1).0
    }
}

/// The tokens that a run of grants handed out.
pub open spec fn handed_out(live: Set<u128>, requests: Seq<(bool, u128)>) -> Set<u128>
    decreases requests.len(),
{
    if requests.len() == 0 {
        Set::empty()
    } else {
        let last = requests.last();
        let before = handed_out(live, requests.drop_last());
        match grant_step(live_after(live, requests.drop_last()), last.0, last.1).1 {
            Ok(t) => before.insert(t),
            Err(_) => before,
        }
    }
}

/// A token that no grant of a run handed out is not live after it, when the run
/// starts from an empty authority.
pub proof fn lemma_unissued_token_invalid(requests: Seq<(bool, u128)>, token: u128)
    requires
        !handed_out(Set::empty(), requests).contains(token),
    ensures
        !live_after(Set::empty(), requests).contains(token),
    decreases requests.len(),
{
    if requests.len() > 0 {
        let prefix = requests.drop_last();
        let last = requests.last();
        let before = live_after(Set::<u128>::empty(), prefix);
        assert(!handed_out(Set::empty(), prefix).contains(token)) by {
            if handed_out(Set::empty(), prefix).contains(token) {
                match grant_step(before, last.0, last.1).1 {
                    Ok(t) => assert(handed_out(Set::empty(), requests).contains(token)),
                    Err(_) => {},
                }
            }
        }
        lemma_unissued_token_invalid(prefix, token);
    }
}

} // verus!
