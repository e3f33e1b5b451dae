//! The shared-secret guard in front of every handler.
use vstd::prelude::*;
use crate::text::{same_text, trim_text, trimmed};

verus! {

/// Proof that a request passed the client key guard.
#[derive(Clone, Copy, Debug, PartialEq, Eq, Structural)]
pub struct ClientKey;

/// Why a request was turned away by the client key guard.
#[derive(Clone, Copy, Debug, PartialEq, Eq, Structural)]
pub enum ClientKeyExtractError {
    /// The key matches no entry of the allowlist.
    InvalidKey,
    /// The key header is absent, or blank once trimmed.
    MissingKey,
}

/// The allowlist as character sequences.
pub open spec fn keys_view(keys: Seq<String>) -> Seq<Seq<char>> {
    keys.map_values(|k: String| k@)
}

/// Whether `key` is one of the allowed keys.
pub open spec fn key_listed(keys: Seq<Seq<char>>, key: Seq<char>) -> bool {
    exists|i: int| 0 <= i < keys.len() && keys[i] == key
}

/// The guard's verdict, given the allowlist (if one is configured) and the
/// already trimmed header value (if the header is present).
pub open spec fn client_key_verdict(
    keys: Option<Seq<Seq<char>>>,
    key: Option<Seq<char>>,
) -> Result<ClientKey, ClientKeyExtractError> {
    match keys {
        None => Ok(ClientKey),
        Some(ks) => if ks.len() == 0 {
            Ok(ClientKey)
        } else {
            match key {
                None => Err(ClientKeyExtractError::MissingKey),
                Some(k) => if k.len() == 0 {
                    Err(ClientKeyExtractError::MissingKey)
                } else if key_listed(ks, k) {
                    Ok(ClientKey)
                } else {
                    Err(ClientKeyExtractError::InvalidKey)
                },
            }
        },
    }
}

/// The configured allowlist as a model.
pub open spec fn allowlist_view(keys: Option<Vec<String>>) -> Option<Seq<Seq<char>>> {
    match keys {
        None => None,
        Some(v) => Some(keys_view(v@)),
    }
}

/// The header value as a model.
pub open spec fn header_view(h: Option<&str>) -> Option<Seq<char>> {
    match h {
        None => None,
        Some(s) => Some(s@),
    }
}

/// A header value after trimming, as a model.
pub open spec fn trim_header(h: Option<Seq<char>>) -> Option<Seq<char>> {
    match h {
        None => None,
        Some(s) => Some(trimmed(s)),
    }
}

/// Whether `key` matches an entry of `keys`. Every entry is compared.
pub fn key_in_allowlist(keys: &Vec<String>, key: &str) -> (r: bool)
    ensures
        r == key_listed(keys_view(keys@), key@),
{
    let mut found: bool = false;
    let mut i: usize = 0;
    while i < keys.len()
        invariant
            0 <= i <= keys@.len(),
            found == (exists|j: int| 0 <= j < i && keys@[j]@ == key@),
        decreases keys@.len() - i,
    {
        let m = same_text(keys[i].as_str(), key);
        found = found || m;
        i = i + 1;
    }
    proof {
        let kv = keys_view(keys@);
        if found {
            let j = choose|j: int| 0 <= j < keys@.len() && keys@[j]@ == key@;
            assert(kv[j] == key@);
        } else {
            assert forall|j: int| 0 <= j < kv.len() implies kv[j] != key@ by {
                assert(keys@[j]@ != key@);
            }
        }
    }
    found
}

impl ClientKey {
    /// The guard on a header value that has already been trimmed.
    pub fn check_trimmed(keys: &Option<Vec<String>>, key: Option<&str>) -> (r: Result<
        ClientKey,
        ClientKeyExtractError,
    >)
        ensures
            r == client_key_verdict(allowlist_view(*keys), header_view(key)),
    {
        match keys {
            None => Ok(ClientKey),
            Some(ks) => if ks.len() == 0 {
                Ok(ClientKey)
            } else {
                match key {
                    None => Err(ClientKeyExtractError::MissingKey),
                    Some(k) => {
                        if k.unicode_len() == 0 {
                            Err(ClientKeyExtractError::MissingKey)
                        } else if key_in_allowlist(ks, k) {
                            Ok(ClientKey)
                        } else {
                            Err(ClientKeyExtractError::InvalidKey)
                        }
                    },
                }
            },
        }
    }

    /// The guard on the raw key header: with no allowlist, or an empty one,
    /// every request is admitted; otherwise the trimmed header must be non-empty and listed.
    pub fn from_header(keys: &Option<Vec<String>>, header: Option<&str>) -> (r: Result<
        ClientKey,
        ClientKeyExtractError,
    >)
        ensures
            r == client_key_verdict(allowlist_view(*keys), trim_header(header_view(header))),
            keys is Some && keys->Some_0@.len() > 0 && header is Some && header->Some_0@.len()
                == 0 ==> r == Err::<ClientKey, ClientKeyExtractError>(
                ClientKeyExtractError::MissingKey,
            ),
    {
        let key = match header {
            None => None,
            Some(h) => Some(trim_text(h)),
        };
        ClientKey::check_trimmed(keys, key)
    }
}

impl ClientKeyExtractError {
    /// The HTTP status that answers this rejection.
    pub fn status_code(&self) -> (r: u16)
        ensures
            *self == ClientKeyExtractError::InvalidKey ==> r == 403,
            *self == ClientKeyExtractError::MissingKey ==> r == 401,
    {
        match self {
            ClientKeyExtractError::InvalidKey => 403,
            ClientKeyExtractError::MissingKey => 401,
        }
    }
}

/// The guard admits exactly when no allowlist is configured or it is empty,
/// or the header is present, non-empty once trimmed, and its trimmed value is
/// listed. A non-empty allowlist turns an absent or blank header into
/// `MissingKey`, and any other refusal is `InvalidKey`.
pub proof fn lemma_client_key_admission(keys: Option<Seq<Seq<char>>>, header: Option<Seq<char>>)
    ensures
        (client_key_verdict(keys, trim_header(header)) is Ok) <==> (keys is None
            || keys->Some_0.len() == 0 || (header is Some && trimmed(header->Some_0).len() > 0
            && key_listed(keys->Some_0, trimmed(header->Some_0)))),
        (keys is Some && keys->Some_0.len() > 0 && (header is None || trimmed(
            header->Some_0,
        ).len() == 0)) ==> client_key_verdict(keys, trim_header(header)) == Err::<
            ClientKey,
            ClientKeyExtractError,
        >(ClientKeyExtractError::MissingKey),
        (keys is Some && keys->Some_0.len() > 0 && header is Some && trimmed(header->Some_0).len()
            > 0 && !key_listed(keys->Some_0, trimmed(header->Some_0))) ==> client_key_verdict(
            keys,
            trim_header(header),
        ) == Err::<ClientKey, ClientKeyExtractError>(ClientKeyExtractError::InvalidKey),
{
}

} // verus!
