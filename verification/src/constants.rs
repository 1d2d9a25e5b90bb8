use vstd::prelude::*;

verus! {

/// Name of the cookie that carries the signed session token.
pub const JWT_COOKIE_NAME: &'static str = "jwt";

/// Lifetime of a freshly issued session token, in seconds.
pub const TOKEN_TTL_SECONDS: i64 = 600;

/// Key prefix under which pending two-factor challenges are stored.
pub const ACTIVE_TOKEN_KEY_PREFIX: &'static str = "2FA:Tokens:Active";

/// Key prefix under which revoked tokens are stored.
pub const BANNED_TOKEN_KEY_PREFIX: &'static str = "2FA:Tokens:Banned";

/// Builds the storage key for a TTL-keyed store entry: the prefix,
/// a colon, and the entry's own identifying suffix.
pub fn make_key(prefix: &str, suffix: &str) -> (r: String)
    ensures
        r@ == prefix@ + seq![':'] + suffix@,
{
    let mut key = prefix.to_owned();
    key.append(":");
    key.append(suffix);
    proof {
        reveal_strlit(":");
        assert(":"@ =~= seq![':']);
        assert(key@ =~= prefix@ + seq![':'] + suffix@);
    }
    key
}

} // verus!
