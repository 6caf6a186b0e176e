//! The JSON-RPC envelope AnkiConnect speaks.
//!
//! Every action is a typed request whose action name, protocol version
//! and parameter presence are fixed by its type; a request is wrapped in
//! an [`AnkiRequest`] envelope, and the uniform `{error, result}`
//! response envelope is decoded by [`AnkiResponse::into_result`].
//! Serializing the envelope to JSON and carrying it over HTTP is the
//! caller's business; everything decided here is decided on plain
//! values.

use vstd::prelude::*;

use crate::error::AnkiError;

verus! {

/// A request type with a fixed place in the action catalog.
///
/// The action name and the protocol version are constants of the type,
/// never user-configurable; `params` says whether the envelope carries a
/// parameter object for this action at all (when it does not, the field
/// is omitted from the wire entirely, not sent as null).
pub trait AnkiRequestable: Sized {
    /// The action name this request is sent under.
    spec fn spec_action() -> Seq<char>;

    /// The protocol version this request declares.
    spec fn spec_version() -> u16;

    /// Whether the envelope carries a `params` object for this action.
    spec fn spec_has_params() -> bool;

    /// The action name, as written on the wire.
    fn action() -> (a: &'static str)
        ensures
            a@ == Self::spec_action(),
    ;

    /// The protocol version, as written on the wire.
    fn version() -> (v: u16)
        ensures
            v == Self::spec_version(),
    ;

    /// The parameter payload: the request itself, or nothing for
    /// parameterless actions.
    fn params(self) -> (p: Option<Self>)
        ensures
            (p is Some) == Self::spec_has_params(),
            Self::spec_has_params() ==> p == Some(self),
    ;
}

/// The outgoing envelope: `{action, version, params}`, with `params`
/// omitted entirely when the action takes none.
#[derive(Debug)]
pub struct AnkiRequest<Params> {
    pub action: String,
    pub version: u16,
    pub params: Option<Params>,
}

/// Wraps a request in the envelope its type prescribes.
pub fn envelope<R: AnkiRequestable>(request: R) -> (e: AnkiRequest<R>)
    ensures
        e.action@ == R::spec_action(),
        e.version == R::spec_version(),
        (e.params is Some) == R::spec_has_params(),
        R::spec_has_params() ==> e.params == Some(request),
{
    AnkiRequest {
        action: String::from_str(R::action()),
        version: R::version(),
        params: request.params(),
    }
}

/// The incoming envelope: `{error, result}`. In a well-formed response
/// exactly one of the two is populated; the absence of both is itself an
/// error.
#[derive(Debug)]
pub struct AnkiResponse<T> {
    pub error: Option<String>,
    pub result: Option<T>,
}

/// How a response envelope decodes: a reported error wins, then a
/// result, and an envelope carrying neither is a protocol error rather
/// than a silent null.
pub open spec fn envelope_result<T>(
    error: Option<String>,
    result: Option<T>,
) -> Result<T, AnkiError> {
    match error {
        Some(message) => Err(AnkiError::Remote(message)),
        None => match result {
            Some(value) => Ok(value),
            None => Err(AnkiError::Protocol),
        },
    }
}

impl<T> AnkiResponse<T> {
    /// Decodes the envelope into the typed result or the error it
    /// reports.
    pub fn into_result(self) -> (r: Result<T, AnkiError>)
        ensures
            r == envelope_result(self.error, self.result),
    {
        match self.error {
            Some(message) => Err(AnkiError::Remote(message)),
            None => match self.result {
                Some(value) => Ok(value),
                None => Err(AnkiError::Protocol),
            },
        }
    }
}

} // verus!
