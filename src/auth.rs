//! Bearer tokens and the claims they carry.
use vstd::prelude::*;

verus! {

/// How long an issued token stays valid, in seconds: one week.
pub const TOKEN_LIFETIME_SECS: u64 = 604800;

/// What a token says: the user's email, id and expiry (seconds since the
/// Unix epoch).
pub struct Claims {
    pub sub: String,
    pub id: i32,
    pub exp: usize,
}

/// The expiry of a token issued at `now_secs`; none where it does not fit.
pub fn token_expiration(now_secs: u64) -> (r: Option<usize>)
    ensures
        now_secs + TOKEN_LIFETIME_SECS <= usize::MAX ==> r == Some(
            (now_secs + TOKEN_LIFETIME_SECS) as usize,
        ),
        now_secs + TOKEN_LIFETIME_SECS > usize::MAX ==> r is None,
{
    match now_secs.checked_add(TOKEN_LIFETIME_SECS) {
        Some(t) => {
            if t as u128 <= usize::MAX as u128 {
                Some(t as usize)
            } else {
                None
            }
        },
        None => None,
    }
}

impl Claims {
    /// The claims of a token for user `user_id` with email `user_email`,
    /// issued at `now_secs`; none where the expiry does not fit.
    pub fn for_user(user_id: i32, user_email: &str, now_secs: u64) -> (r: Option<Claims>)
        ensures
            now_secs + TOKEN_LIFETIME_SECS <= usize::MAX ==> (r matches Some(c) && c.sub@
                == user_email@ && c.id == user_id && c.exp == now_secs + TOKEN_LIFETIME_SECS),
            now_secs + TOKEN_LIFETIME_SECS > usize::MAX ==> r is None,
    {
        match token_expiration(now_secs) {
            Some(exp) => Some(Claims { sub: String::from_str(user_email), id: user_id, exp }),
            None => None,
        }
    }
}

/// The scheme word that opens an authorization header.
pub open spec fn bearer_prefix() -> Seq<char> {
    "Bearer "@
}

/// The token of an authorization header `Bearer <token>`; none for any
/// other header.
pub fn bearer_token(header: &str) -> (r: Option<String>)
    ensures
        header@.len() >= 7 && header@.subrange(0, 7) == bearer_prefix() ==> (r matches Some(t)
            && t@ == header@.subrange(7, header@.len() as int)),
        !(header@.len() >= 7 && header@.subrange(0, 7) == bearer_prefix()) ==> r is None,
{
    let prefix = "Bearer ";
    proof {
        reveal_strlit("Bearer ");
    }
    let n = header.unicode_len();
    if n < 7 {
        return None;
    }
    let mut i: usize = 0;
    while i < 7
        invariant
            n == header@.len(),
            n >= 7,
            prefix@ == bearer_prefix(),
            prefix@.len() == 7,
            i <= 7,
            header@.subrange(0, i as int) == prefix@.subrange(0, i as int),
        decreases 7 - i,
    {
        if header.get_char(i) != prefix.get_char(i) {
            proof {
                assert(header@.subrange(0, 7)[i as int] != bearer_prefix()[i as int]);
            }
            return None;
        }
        proof {
            assert(header@.subrange(0, i + 1) =~= header@.subrange(0, i as int).push(
                header@[i as int],
            ));
            assert(prefix@.subrange(0, i + 1) =~= prefix@.subrange(0, i as int).push(
                prefix@[i as int],
            ));
        }
        i = i + 1;
    }
    proof {
        assert(prefix@ =~= prefix@.subrange(0, 7));
    }
    Some(String::from_str(header.substring_char(7, n)))
}

} // verus!
