//! The error taxonomy shared by the protocol client and the transcoder.

use vstd::prelude::*;

verus! {

/// Everything that can go wrong while talking to AnkiConnect or while
/// transcoding a deck.
///
/// - `Transport`: the network call itself failed.
/// - `Decode`: the response body was not a well-formed envelope.
/// - `Remote`: the service reported an explicit error string.
/// - `Protocol`: the envelope was well formed but carried neither an
///   error nor a result.
/// - `Validation`: a local input was rejected before any remote call
///   (unsupported file extension, empty deck list, malformed record).
#[derive(Debug)]
pub enum AnkiError {
    Transport(String),
    Decode(String),
    Remote(String),
    Protocol,
    Validation(String),
}

impl AnkiError {
    /// The user-visible message for this error.
    pub fn message(&self) -> (m: String)
        ensures
            m@ == self.spec_message(),
    {
        match self {
            AnkiError::Transport(s) => s.clone(),
            AnkiError::Decode(s) => s.clone(),
            AnkiError::Remote(s) => s.clone(),
            AnkiError::Protocol => "no result returned".to_owned(),
            AnkiError::Validation(s) => s.clone(),
        }
    }

    /// What `message` returns for each variant.
    pub open spec fn spec_message(&self) -> Seq<char> {
        match self {
            AnkiError::Transport(s) => s@,
            AnkiError::Decode(s) => s@,
            AnkiError::Remote(s) => s@,
            AnkiError::Protocol => "no result returned"@,
            AnkiError::Validation(s) => s@,
        }
    }
}

} // verus!
