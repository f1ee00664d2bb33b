//! The API token in the credential store of the operating system.
use crate::text::{trim, trimmed};
use vstd::prelude::*;
use vstd::utf8::encode_utf8;

verus! {

/// Service under which the token is stored.
pub const JIRA_TOKEN_SERVICE: &'static str = "com.raonc.en-ttokk";

/// User name under which the token is stored.
pub const JIRA_TOKEN_USERNAME: &'static str = "jira-api-token";

/// Greatest length of a token in bytes.
pub const MAX_TOKEN_BYTES: usize = 4096;

/// What the credential store answered.
#[derive(Debug, Clone, PartialEq, Eq)]
pub enum StoreAnswer {
    /// The token, when it was asked for; else an empty text.
    Done(String),
    /// The store holds no entry.
    NoEntry,
    /// The store failed.
    Failed(String),
}

/// Why a token could not be stored, read or removed.
#[derive(Debug, Clone, PartialEq, Eq)]
pub enum TokenError {
    /// The token is empty.
    Required,
    /// The token is longer than 4096 bytes.
    TooLong,
    /// The credential store failed.
    Store(String),
}

/// Number of bytes that a text takes when it is stored.
pub open spec fn byte_len(text: Seq<char>) -> usize {
    encode_utf8(text).len() as usize
}

impl TokenError {
    /// The message shown to the user.
    pub fn message(&self) -> (text: String)
        ensures
            text@ == match *self {
                TokenError::Required => "API token is required"@,
                TokenError::TooLong => "API token is too long"@,
                TokenError::Store(cause) => cause@,
            },
    {
        match self {
            TokenError::Required => "API token is required".to_string(),
            TokenError::TooLong => "API token is too long".to_string(),
            TokenError::Store(cause) => cause.clone(),
        }
    }
}

/// The token that is read from the store: none where the store has no
/// entry.
pub fn get_jira_token(answer: StoreAnswer) -> (result: Result<Option<String>, TokenError>)
    ensures
        result == match answer {
            StoreAnswer::Done(token) => Ok::<Option<String>, TokenError>(Some(token)),
            StoreAnswer::NoEntry => Ok::<Option<String>, TokenError>(None),
            StoreAnswer::Failed(cause) => Err::<Option<String>, TokenError>(
                TokenError::Store(cause),
            ),
        },
{
    match answer {
        StoreAnswer::Done(token) => Ok(Some(token)),
        StoreAnswer::NoEntry => Ok(None),
        StoreAnswer::Failed(cause) => Err(TokenError::Store(cause)),
    }
}

/// The token as it is to be stored: trimmed. An empty token and one of more
/// than 4096 bytes are turned away.
pub fn set_jira_token(token: &str) -> (result: Result<String, TokenError>)
    ensures
        trimmed(token@).len() == 0 ==> result == Err::<String, TokenError>(TokenError::Required),
        trimmed(token@).len() > 0 && byte_len(trimmed(token@)) > MAX_TOKEN_BYTES
            ==> result == Err::<String, TokenError>(TokenError::TooLong),
        trimmed(token@).len() > 0 && byte_len(trimmed(token@)) <= MAX_TOKEN_BYTES
            ==> result is Ok && result->Ok_0@ == trimmed(token@),
{
    let token = trim(token);
    if token.is_empty() {
        return Err(TokenError::Required);
    }
    if token.len() > MAX_TOKEN_BYTES {
        return Err(TokenError::TooLong);
    }
    Ok(token.to_string())
}

/// What removing the token yields: that the store had no entry is no
/// failure.
pub fn remove_jira_token(answer: StoreAnswer) -> (result: Result<(), TokenError>)
    ensures
        result == match answer {
            StoreAnswer::Done(_) => Ok::<(), TokenError>(()),
            StoreAnswer::NoEntry => Ok::<(), TokenError>(()),
            StoreAnswer::Failed(cause) => Err::<(), TokenError>(TokenError::Store(cause)),
        },
{
    match answer {
        StoreAnswer::Done(_) => Ok(()),
        StoreAnswer::NoEntry => Ok(()),
        StoreAnswer::Failed(cause) => Err(TokenError::Store(cause)),
    }
}

} // verus!
