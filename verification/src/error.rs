use vstd::prelude::*;

verus! {

/// The kinds of failure that the cache and the proxy policy surface.
#[derive(Clone, Copy, Debug, PartialEq, Eq, Structural)]
pub enum ErrorType {
    /// The request is answered with this HTTP status.
    HTTPStatus(u16),
    /// No upstream can be chosen or reached.
    ConnectError,
    /// Disk I/O failed, or a handler was used against its contract.
    InternalError,
}

/// A failure: its kind, a sentence that explains where it happened, and
/// whether the request that met it may be tried again.
#[derive(Clone, Debug, PartialEq, Eq)]
pub struct CacheError {
    pub etype: ErrorType,
    pub context: String,
    pub retry: bool,
}

/// The mathematical value of a `CacheError`.
pub struct CacheErrorView {
    pub etype: ErrorType,
    pub context: Seq<char>,
    pub retry: bool,
}

impl View for CacheError {
    type V = CacheErrorView;

    open spec fn view(&self) -> CacheErrorView {
        CacheErrorView { etype: self.etype, context: self.context@, retry: self.retry }
    }
}

/// The name under which a kind of failure is displayed.
pub open spec fn etype_name(etype: ErrorType) -> Seq<char> {
    match etype {
        ErrorType::HTTPStatus(_) => "HTTPStatus"@,
        ErrorType::ConnectError => "ConnectError"@,
        ErrorType::InternalError => "InternalError"@,
    }
}

/// The one-line text of a failure of kind `etype` explained by `context`.
pub open spec fn error_text(etype: ErrorType, context: Seq<char>) -> Seq<char> {
    seq![' '] + etype_name(etype) + " context: "@ + context
}

/// The one-line text of a failure.
///
/// Trusted: `pingora_error::Error::explain` followed by the `Display` of
/// the error it makes. That error has no source and no cause, so its text
/// is a space, the name of the kind, the words ` context: ` and the
/// context.
#[verifier::external_body]
fn display_text(etype: ErrorType, context: &str) -> (r: String)
    ensures
        r@ == error_text(etype, context@),
{
    let outside = match etype {
        ErrorType::HTTPStatus(code) => pingora_error::ErrorType::HTTPStatus(code),
        ErrorType::ConnectError => pingora_error::ErrorType::ConnectError,
        ErrorType::InternalError => pingora_error::ErrorType::InternalError,
    };
    pingora_error::Error::explain(outside, context.to_string()).to_string()
}

impl CacheError {
    /// A failure of kind `etype` explained by `context`, not to be tried
    /// again.
    pub fn explain(etype: ErrorType, context: String) -> (e: CacheError)
        ensures
            e@ == (CacheErrorView { etype, context: context@, retry: false }),
    {
        CacheError { etype, context, retry: false }
    }

    /// An `InternalError` explained by `context`, not to be tried again.
    pub fn internal(context: String) -> (e: CacheError)
        ensures
            e@ == (CacheErrorView {
                etype: ErrorType::InternalError,
                context: context@,
                retry: false,
            }),
    {
        CacheError { etype: ErrorType::InternalError, context, retry: false }
    }

    /// The one-line text under which this failure is logged.
    pub fn to_text(&self) -> (r: String)
        ensures
            r@ == error_text(self.etype, self.context@),
    {
        display_text(self.etype, self.context.as_str())
    }
}

} // verus!
