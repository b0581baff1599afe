//! The cache of an Entra ID access token: a token is reused until shortly before
//! the server says it expires.  Time is the caller's clock in milliseconds.

use vstd::prelude::*;
use crate::meta::http::{token_reuse_secs, token_reuse_secs_spec};

verus! {

/// The last token obtained and the time (ms) from which it is no longer reused.
pub struct TokenCache {
    entry: Option<(String, u64)>,
}

/// The time from which a token obtained at `now_ms` is no longer reused:
/// `token_reuse_secs` later, saturating at `u64::MAX`.
pub open spec fn expiry_ms(now_ms: u64, expires_in: Option<u64>) -> u64 {
    let d: int = token_reuse_secs_spec(expires_in) * 1000;
    if now_ms + d <= u64::MAX {
        (now_ms + d) as u64
    } else {
        u64::MAX
    }
}

/// The token the cache hands out at `now_ms`: the stored one while it is fresh.
pub open spec fn fresh_token(c: Option<(Seq<char>, u64)>, now_ms: u64) -> Option<Seq<char>> {
    match c {
        Some((t, exp)) => if now_ms < exp {
            Some(t)
        } else {
            None
        },
        None => None,
    }
}

impl View for TokenCache {
    type V = Option<(Seq<char>, u64)>;

    closed spec fn view(&self) -> Option<(Seq<char>, u64)> {
        match self.entry {
            Some((t, exp)) => Some((t@, exp)),
            None => None,
        }
    }
}

impl TokenCache {
    /// An empty cache.
    pub fn new() -> (c: Self)
        ensures
            c@ is None,
    {
        TokenCache { entry: None }
    }

    /// The stored token, if it is still fresh at `now_ms`.
    pub fn fresh(&self, now_ms: u64) -> (r: Option<String>)
        ensures
            match r {
                Some(t) => fresh_token(self@, now_ms) == Some(t@),
                None => fresh_token(self@, now_ms) is None,
            },
    {
        match &self.entry {
            Some((t, exp)) => if now_ms < *exp {
                Some(t.clone())
            } else {
                None
            },
            None => None,
        }
    }

    /// Remember a token obtained at `now_ms` that the server says lives
    /// `expires_in` seconds.
    pub fn store(&mut self, token: String, expires_in: Option<u64>, now_ms: u64)
        ensures
            final(self)@ == Some((token@, expiry_ms(now_ms, expires_in))),
    {
        let secs = token_reuse_secs(expires_in);
        let d: u64 = match secs.checked_mul(1000) {
            Some(x) => x,
            None => u64::MAX,
        };
        let exp: u64 = match now_ms.checked_add(d) {
            Some(x) => x,
            None => u64::MAX,
        };
        proof {
            assert(token_reuse_secs_spec(expires_in) * 1000 <= u64::MAX ==> d == token_reuse_secs_spec(expires_in) * 1000);
        }
        self.entry = Some((token, exp));
    }
}

/// A token stored at `now_ms` is handed out until its expiry and not from then
/// on; the expiry lies at least a second after `now_ms` unless the clock is
/// within a second of its end.
pub proof fn law_stored_token_is_reused(
    token: Seq<char>,
    expires_in: Option<u64>,
    now_ms: u64,
    later_ms: u64,
)
    ensures
        now_ms + 1000 <= u64::MAX ==> expiry_ms(now_ms, expires_in) >= now_ms + 1000,
        later_ms < expiry_ms(now_ms, expires_in) ==> fresh_token(
            Some((token, expiry_ms(now_ms, expires_in))),
            later_ms,
        ) == Some(token),
        later_ms >= expiry_ms(now_ms, expires_in) ==> fresh_token(
            Some((token, expiry_ms(now_ms, expires_in))),
            later_ms,
        ) is None,
{
}

} // verus!
