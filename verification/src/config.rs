//! Configuration values the delivery core consumes. Loading them from the
//! process environment is the caller's business; validation lives here.

use vstd::prelude::*;

verus! {

/// SMTP relay credentials and endpoint.
#[derive(Debug, Clone)]
pub struct EmailConfig {
    pub smtp_server: String,
    pub smtp_port: u16,
    pub username: String,
    pub password: String,
}

/// Which channel the mail-API transport speaks.
#[derive(Debug, Clone)]
pub enum SendGridProtocol {
    Rest,
    Smtp,
}

/// Everything the mail-API transport needs: a credential, a channel and a
/// sender address.
#[derive(Debug, Clone)]
pub struct SendGridConfig {
    pub api_key: String,
    pub protocol: SendGridProtocol,
    pub from_address: String,
}

/// Why a configuration was refused.
#[derive(Debug, Clone, PartialEq, Eq)]
pub enum ConfigError {
    MissingApiKey,
    EmptyApiKey,
    MissingFromAddress,
}

pub open spec fn is_space_char(c: char) -> bool {
    c == ' ' || c == '\t' || c == '\n' || c == '\r' || c == '\x0c'
}

/// Nothing but whitespace, or nothing at all.
pub open spec fn blank(s: Seq<char>) -> bool {
    forall|i: int| 0 <= i < s.len() ==> is_space_char(s[i])
}

/// The word `smtp`, matched without regard to ASCII case.
pub open spec fn is_smtp_word(s: Seq<char>) -> bool {
    s.len() == 4 && (s[0] == 's' || s[0] == 'S') && (s[1] == 'm' || s[1] == 'M') && (s[2] == 't'
        || s[2] == 'T') && (s[3] == 'p' || s[3] == 'P')
}

fn is_blank(s: &str) -> (r: bool)
    ensures
        r == blank(s@),
{
    let n = s.unicode_len();
    let mut j: usize = 0;
    while j < n
        invariant
            n == s@.len(),
            j <= n,
            forall|i: int| 0 <= i < j ==> is_space_char(s@[i]),
        decreases n - j,
    {
        let c = s.get_char(j);
        if !(c == ' ' || c == '\t' || c == '\n' || c == '\r' || c == '\x0c') {
            return false;
        }
        j = j + 1;
    }
    true
}

fn is_smtp(s: &str) -> (r: bool)
    ensures
        r == is_smtp_word(s@),
{
    if s.unicode_len() != 4 {
        return false;
    }
    let c0 = s.get_char(0);
    let c1 = s.get_char(1);
    let c2 = s.get_char(2);
    let c3 = s.get_char(3);
    (c0 == 's' || c0 == 'S') && (c1 == 'm' || c1 == 'M') && (c2 == 't' || c2 == 'T') && (c3 == 'p'
        || c3 == 'P')
}

impl SendGridConfig {
    /// Validates caller-supplied settings: the credential must be present
    /// and not blank, the sender address present; the channel defaults to
    /// the REST API unless the value names `smtp`.
    pub fn from_values(
        api_key: Option<String>,
        protocol: Option<String>,
        from_address: Option<String>,
    ) -> (r: Result<SendGridConfig, ConfigError>)
        ensures
            (r matches Err(ConfigError::MissingApiKey)) <==> api_key is None,
            (r matches Err(ConfigError::EmptyApiKey)) <==> (api_key matches Some(k) && blank(k@)),
            (r matches Err(ConfigError::MissingFromAddress)) <==> (api_key matches Some(k)
                && !blank(k@) && from_address is None),
            (api_key matches Some(k) && !blank(k@) && from_address is Some) <==> r is Ok,
            r matches Ok(c) ==> {
                &&& api_key matches Some(k) && c.api_key@ == k@
                &&& from_address matches Some(f) && c.from_address@ == f@
                &&& match protocol {
                    Some(p) => if is_smtp_word(p@) {
                        c.protocol is Smtp
                    } else {
                        c.protocol is Rest
                    },
                    None => c.protocol is Rest,
                }
            },
    {
        let key = match api_key {
            Some(k) => k,
            None => {
                return Err(ConfigError::MissingApiKey);
            },
        };
        if is_blank(key.as_str()) {
            return Err(ConfigError::EmptyApiKey);
        }
        let proto = match protocol {
            Some(p) => if is_smtp(p.as_str()) {
                SendGridProtocol::Smtp
            } else {
                SendGridProtocol::Rest
            },
            None => SendGridProtocol::Rest,
        };
        let from = match from_address {
            Some(f) => f,
            None => {
                return Err(ConfigError::MissingFromAddress);
            },
        };
        Ok(SendGridConfig { api_key: key, protocol: proto, from_address: from })
    }
}

} // verus!
