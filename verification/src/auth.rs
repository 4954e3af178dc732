//! Credential checking against the configured key list.

use vstd::prelude::*;

use crate::config::Config;
use crate::strutil::str_eq;

verus! {

/// True exactly when some configured key equals the presented token.
pub fn validate_token(token: &str, config: &Config) -> (r: bool)
    ensures
        r == exists|i: int|
            0 <= i < config.api_keys@.len() && config.api_keys@[i].key@ == token@,
{
    let n = config.api_keys.len();
    let mut i: usize = 0;
    while i < n
        invariant
            n == config.api_keys@.len(),
            i <= n,
            forall|k: int| 0 <= k < i ==> config.api_keys@[k].key@ != token@,
        decreases n - i,
    {
        if str_eq(config.api_keys[i].key.as_str(), token) {
            return true;
        }
        i += 1;
    }
    false
}

/// A bearer request is authorized exactly when it carries a non-empty token
/// that matches a configured key.
pub fn authorize(token: &str, config: &Config) -> (r: bool)
    ensures
        r == (token@.len() > 0 && exists|i: int|
            0 <= i < config.api_keys@.len() && config.api_keys@[i].key@ == token@),
{
    if token.is_empty() {
        false
    } else {
        validate_token(token, config)
    }
}

} // verus!
