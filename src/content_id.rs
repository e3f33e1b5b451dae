//! The guard that checks the shape of the content identity header pair.
use vstd::prelude::*;

verus! {

/// Least number of characters of the identity hash.
pub const CONTENT_ID_HASH_LENGTH: usize = 64;

/// Least number of characters of the identity salt.
pub const CONTENT_ID_SALT_LENGTH: usize = 32;

/// A hashed player identity whose fields have the required shape.
pub struct UniqueContentId {
    pub hash: String,
    pub salt: String,
}

/// Why an identity header pair was refused.
#[derive(Clone, Copy, Debug, PartialEq, Eq, Structural)]
pub enum ContentIdExtractError {
    HashMissing,
    SaltMissing,
    HashOrSaltInvalid,
}

/// The guard's verdict on the two header values: on success, the pair that is
/// kept.
pub open spec fn content_id_verdict(hash: Option<Seq<char>>, salt: Option<Seq<char>>) -> Result<
    (Seq<char>, Seq<char>),
    ContentIdExtractError,
> {
    match hash {
        None => Err(ContentIdExtractError::HashMissing),
        Some(h) => match salt {
            None => Err(ContentIdExtractError::SaltMissing),
            Some(s) => if h.len() < CONTENT_ID_HASH_LENGTH || s.len() < CONTENT_ID_SALT_LENGTH {
                Err(ContentIdExtractError::HashOrSaltInvalid)
            } else {
                Ok((h, s))
            },
        },
    }
}

/// An optional string as a model.
pub open spec fn opt_text(s: Option<String>) -> Option<Seq<char>> {
    match s {
        None => None,
        Some(t) => Some(t@),
    }
}

/// The identity as a pair of character sequences.
pub open spec fn content_id_view(id: UniqueContentId) -> (Seq<char>, Seq<char>) {
    (id.hash@, id.salt@)
}

impl UniqueContentId {
    /// Checks the hash and salt header values (absent when the header is
    /// missing or not text).
    pub fn from_headers(hash: Option<String>, salt: Option<String>) -> (r: Result<
        UniqueContentId,
        ContentIdExtractError,
    >)
        ensures
            match (r, content_id_verdict(opt_text(hash), opt_text(salt))) {
                (Ok(id), Ok(pair)) => content_id_view(id) == pair,
                (Err(e), Err(f)) => e == f,
                _ => false,
            },
    {
        let hash = match hash {
            None => { return Err(ContentIdExtractError::HashMissing); },
            Some(h) => h,
        };
        let salt = match salt {
            None => { return Err(ContentIdExtractError::SaltMissing); },
            Some(s) => s,
        };
        if hash.as_str().unicode_len() < CONTENT_ID_HASH_LENGTH || salt.as_str().unicode_len()
            < CONTENT_ID_SALT_LENGTH {
            return Err(ContentIdExtractError::HashOrSaltInvalid);
        }
        Ok(UniqueContentId { hash, salt })
    }
}

impl ContentIdExtractError {
    /// The HTTP status that answers this rejection: every kind is a bad
    /// request, so the answer does not tell which check failed.
    pub fn status_code(&self) -> (r: u16)
        ensures
            r == 400,
    {
        match self {
            ContentIdExtractError::HashMissing => 400,
            ContentIdExtractError::SaltMissing => 400,
            ContentIdExtractError::HashOrSaltInvalid => 400,
        }
    }
}

/// The guard refuses exactly when a field is absent or shorter than its
/// minimum, and otherwise keeps the pair whatever its content.
pub proof fn lemma_content_id_shape(hash: Option<Seq<char>>, salt: Option<Seq<char>>)
    ensures
        (content_id_verdict(hash, salt) is Err) <==> (hash is None || salt is None
            || hash->Some_0.len() < CONTENT_ID_HASH_LENGTH || salt->Some_0.len()
            < CONTENT_ID_SALT_LENGTH),
        content_id_verdict(hash, salt) is Ok ==> content_id_verdict(hash, salt)->Ok_0 == (
            hash->Some_0,
            salt->Some_0,
        ),
{
}

} // verus!
