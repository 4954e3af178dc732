//! Credential generation: a fixed prefix ahead of random alphanumeric text.

use rand::Rng;
use vstd::prelude::*;
use vstd::string::StringExecFns;

verus! {

/// An ASCII letter or digit.
pub open spec fn is_alnum(c: char) -> bool {
    ('a' <= c && c <= 'z') || ('A' <= c && c <= 'Z') || ('0' <= c && c <= '9')
}

/// Relies on rand's `Alphanumeric` distribution: every sampled byte is an
/// ASCII letter or digit, and exactly `n` of them are taken. Which ones come
/// back is up to the generator, so nothing more is stated.
#[verifier::external_body]
fn random_alphanumeric(n: usize) -> (r: String)
    ensures
        r@.len() == n,
        forall|i: int| 0 <= i < r@.len() ==> is_alnum(r@[i]),
{
    rand::thread_rng().sample_iter(&rand::distributions::Alphanumeric).take(n).map(
        char::from,
    ).collect()
}

/// Mints a fresh credential: `nsk-` followed by 16 random alphanumeric
/// characters.
pub fn generate_key() -> (r: String)
    ensures
        r@.len() == 20,
        r@.subrange(0, 4) == "nsk-"@,
        forall|i: int| 4 <= i < 20 ==> is_alnum(r@[i]),
{
    let code = random_alphanumeric(16);
    let key = String::from_str("nsk-").concat(code.as_str());
    proof {
        reveal_strlit("nsk-");
        assert(key@.subrange(0, 4) =~= "nsk-"@);
    }
    key
}

} // verus!
