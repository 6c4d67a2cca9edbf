//! Per-invocation configuration: the credential and the fixed endpoint.
//!
//! Every tool invocation reads the credential fresh from the process
//! environment. A missing credential, or one that cannot be carried as an
//! HTTP header value, aborts that invocation with a [`ConfigurationError`]
//! before any network call is attempted.

use vstd::prelude::*;

verus! {

/// Why a tool invocation could not be configured: the credential is absent
/// from the environment, or it holds characters illegal in a header value.
#[derive(Debug, Clone, Copy, PartialEq, Eq, Structural)]
pub enum ConfigurationError {
    MissingKey,
    InvalidHeaderValue,
}

/// A character an HTTP header value may hold: horizontal tab, or any
/// character outside the control range. Every byte of a multi-byte
/// character lies above the control range, so checking characters decides
/// exactly what the transport's header type accepts byte by byte.
pub open spec fn header_value_char(c: char) -> bool {
    c == '\t' || (c as u32 >= 32 && c as u32 != 127)
}

/// Whether a string can be carried as an HTTP header value.
pub open spec fn valid_header_value(s: Seq<char>) -> bool {
    forall|i: int| 0 <= i < s.len() ==> header_value_char(s[i])
}

/// Decides [`valid_header_value`] for a string.
pub fn is_valid_header_value(s: &str) -> (r: bool)
    ensures
        r == valid_header_value(s@),
{
    let len = s.unicode_len();
    let mut i: usize = 0;
    while i < len
        invariant
            len == s@.len(),
            i <= len,
            forall|j: int| 0 <= j < i ==> header_value_char(s@[j]),
        decreases len - i,
    {
        let c = s.get_char(i);
        let code = c as u32;
        if !(c == '\t' || (code >= 32 && code != 127)) {
            assert(!header_value_char(s@[i as int]));
            return false;
        }
        i += 1;
    }
    true
}

/// The credential a client handle carries. Keys this library hands out are
/// always encodable as a header value.
pub struct ApiKey {
    pub value: String,
}

impl ApiKey {
    /// The key can be carried as an HTTP header value.
    pub open spec fn wf(self) -> bool {
        valid_header_value(self.value@)
    }
}

/// Checks the credential read from the environment. An absent credential
/// aborts with the missing-key error; one that cannot be carried as a
/// header value aborts with the encoding error; any other value becomes
/// the key, unchanged.
pub fn make_api_key(env_value: Option<String>) -> (r: Result<ApiKey, ConfigurationError>)
    ensures
        r is Ok <==> (env_value matches Some(v) && valid_header_value(v@)),
        env_value is None ==> r == Err::<ApiKey, ConfigurationError>(
            ConfigurationError::MissingKey,
        ),
        env_value matches Some(v) ==> (if valid_header_value(v@) {
            r == Ok::<ApiKey, ConfigurationError>((ApiKey { value: v }))
        } else {
            r == Err::<ApiKey, ConfigurationError>(ConfigurationError::InvalidHeaderValue)
        }),
        r matches Ok(k) ==> k.wf(),
{
    match env_value {
        None => Err(ConfigurationError::MissingKey),
        Some(v) => {
            if is_valid_header_value(v.as_str()) {
                Ok(ApiKey { value: v })
            } else {
                Err(ConfigurationError::InvalidHeaderValue)
            }
        },
    }
}

/// The fixed base URL every outbound call targets.
pub fn base_url() -> (r: &'static str)
    ensures
        r@ == "https://api.openaq.org/"@,
{
    "https://api.openaq.org/"
}

/// The name of the fixed header that carries the credential on every
/// outbound call.
pub fn api_key_header() -> (r: &'static str)
    ensures
        r@ == "X-API-Key"@,
{
    "X-API-Key"
}

} // verus!
