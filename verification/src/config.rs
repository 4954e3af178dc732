//! Process configuration and the listen-address selection rules.

use vstd::prelude::*;
use vstd::string::StrSliceExecFns;

use crate::strutil::{find_char, first_idx, parse_u16, u16_str_val, u16_str_wf};

verus! {

/// One credential accepted by the gateway.
#[derive(Clone, Debug, PartialEq)]
pub struct ApiKey {
    pub key: String,
    pub name: String,
    pub description: Option<String>,
    pub permissions: Vec<String>,
}

pub type ApiKeys = Vec<ApiKey>;

/// The gateway's startup configuration.
#[derive(Clone, Debug, PartialEq)]
pub struct Config {
    /// An optional `host:port` pair, e.g. `127.0.0.1:8080`.
    pub listen: Option<String>,
    pub openai_api_key: Option<String>,
    pub api_keys: ApiKeys,
    pub llm_backend: String,
    pub llm_api_url: String,
    pub llm_model_name: String,
}

/// A startup configuration that cannot be used; fatal before serving.
#[derive(Clone, Copy, Debug, PartialEq, Eq, Structural)]
pub enum ConfigError {
    /// The port piece of the configured listen string is not a 16-bit decimal number.
    BadPort,
}

/// The host piece of a configured listen string: everything before its first colon.
pub open spec fn listen_host(s: Seq<char>) -> Seq<char> {
    s.take(first_idx(s, ':'))
}

/// The port piece of a configured listen string: everything between the first
/// colon and the following colon or end.
pub open spec fn listen_port_str(s: Seq<char>) -> Seq<char> {
    let rest = s.skip(first_idx(s, ':') + 1);
    let j = first_idx(rest, ':');
    if j == -1 {
        rest
    } else {
        rest.take(j)
    }
}

/// Chooses the address to serve on. Explicit arguments win over the
/// configuration; missing pieces fall back to `127.0.0.1` and port 8080. A
/// configured listen string with a colon must carry a readable port.
pub fn get_listen_port<'a>(config: &'a Config, listen: Option<&'a str>, port: Option<u16>) -> (r:
    Result<(&'a str, u16), ConfigError>)
    ensures
        match (listen, port) {
            (Some(l), Some(p)) => r is Ok && r->Ok_0.0@ == l@ && r->Ok_0.1 == p,
            (None, Some(p)) => r is Ok && r->Ok_0.0@ == "127.0.0.1"@ && r->Ok_0.1 == p,
            (Some(l), None) => r is Ok && r->Ok_0.0@ == l@ && r->Ok_0.1 == 8080,
            (None, None) => match config.listen {
                Some(ls) => {
                    if first_idx(ls@, ':') == -1 {
                        r is Ok && r->Ok_0.0@ == "127.0.0.1"@ && r->Ok_0.1 == 8080
                    } else if u16_str_wf(listen_port_str(ls@)) {
                        r is Ok && r->Ok_0.0@ == listen_host(ls@) && r->Ok_0.1 as int
                            == u16_str_val(listen_port_str(ls@))
                    } else {
                        r == Err::<(&'a str, u16), ConfigError>(ConfigError::BadPort)
                    }
                },
                None => r is Ok && r->Ok_0.0@ == "127.0.0.1"@ && r->Ok_0.1 == 8080,
            },
        },
{
    match (listen, port) {
        (Some(l), Some(p)) => Ok((l, p)),
        (None, Some(p)) => Ok(("127.0.0.1", p)),
        (Some(l), None) => Ok((l, 8080)),
        (None, None) => match &config.listen {
            Some(ls) => {
                let lstr = ls.as_str();
                match find_char(lstr, ':') {
                    None => Ok(("127.0.0.1", 8080)),
                    Some(i) => {
                        let n = lstr.unicode_len();
                        let host = lstr.substring_char(0, i);
                        let rest = lstr.substring_char(i + 1, n);
                        proof {
                            assert(rest@ =~= ls@.skip(i + 1));
                        }
                        let pstr = match find_char(rest, ':') {
                            None => rest,
                            Some(j) => {
                                let p = rest.substring_char(0, j);
                                proof {
                                    assert(p@ =~= ls@.skip(i + 1).take(
                                        first_idx(ls@.skip(i + 1), ':'),
                                    ));
                                }
                                p
                            },
                        };
                        proof {
                            assert(pstr@ == listen_port_str(ls@));
                            assert(host@ == listen_host(ls@));
                        }
                        match parse_u16(pstr) {
                            Some(v) => Ok((host, v)),
                            None => Err(ConfigError::BadPort),
                        }
                    },
                }
            },
            None => Ok(("127.0.0.1", 8080)),
        },
    }
}

} // verus!
