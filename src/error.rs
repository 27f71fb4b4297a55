//! Protocol errors in the OAuth2 vocabulary.

use vstd::prelude::*;
use vstd::string::*;

verus! {

/// The closed set of OAuth2 error codes.
#[derive(Clone, Copy, Debug, PartialEq, Eq, Structural)]
pub enum ErrorKind {
    AccessDenied,
    InvalidClient,
    InvalidGrant,
    InvalidRedirectUri,
    InvalidRequest,
    InvalidScope,
    ServerError,
    TemporarilyUnavailable,
    UnauthorizedClient,
    Unknown,
    UnsupportedGrantType,
    UnsupportedResponseType,
}

/// The lower-snake-case wire form of an error code.
pub open spec fn kind_wire(k: ErrorKind) -> Seq<char> {
    match k {
        ErrorKind::AccessDenied => "access_denied"@,
        ErrorKind::InvalidClient => "invalid_client"@,
        ErrorKind::InvalidGrant => "invalid_grant"@,
        ErrorKind::InvalidRedirectUri => "invalid_redirect_uri"@,
        ErrorKind::InvalidRequest => "invalid_request"@,
        ErrorKind::InvalidScope => "invalid_scope"@,
        ErrorKind::ServerError => "server_error"@,
        ErrorKind::TemporarilyUnavailable => "temporarily_unavailable"@,
        ErrorKind::UnauthorizedClient => "unauthorized_client"@,
        ErrorKind::Unknown => "unknown"@,
        ErrorKind::UnsupportedGrantType => "unsupported_grant_type"@,
        ErrorKind::UnsupportedResponseType => "unsupported_response_type"@,
    }
}

impl ErrorKind {
    /// The wire form of this code, as it appears in the `error` field.
    pub fn as_str(&self) -> (r: &'static str)
        ensures
            r@ == kind_wire(*self),
    {
        match self {
            ErrorKind::AccessDenied => "access_denied",
            ErrorKind::InvalidClient => "invalid_client",
            ErrorKind::InvalidGrant => "invalid_grant",
            ErrorKind::InvalidRedirectUri => "invalid_redirect_uri",
            ErrorKind::InvalidRequest => "invalid_request",
            ErrorKind::InvalidScope => "invalid_scope",
            ErrorKind::ServerError => "server_error",
            ErrorKind::TemporarilyUnavailable => "temporarily_unavailable",
            ErrorKind::UnauthorizedClient => "unauthorized_client",
            ErrorKind::Unknown => "unknown",
            ErrorKind::UnsupportedGrantType => "unsupported_grant_type",
            ErrorKind::UnsupportedResponseType => "unsupported_response_type",
        }
    }
}

/// The mathematical value of an [`Error`].
pub struct ErrorView {
    pub kind: ErrorKind,
    pub description: Seq<char>,
    pub uri: Option<Seq<char>>,
}

/// An OAuth2 error: a code, a human-readable description and an optional
/// link to a page about it.
#[derive(Debug)]
pub struct Error {
    error: ErrorKind,
    error_description: String,
    error_uri: Option<String>,
}

impl View for Error {
    type V = ErrorView;

    closed spec fn view(&self) -> ErrorView {
        ErrorView {
            kind: self.error,
            description: self.error_description@,
            uri: match self.error_uri {
                Some(u) => Some(u@),
                None => None,
            },
        }
    }
}

/// `"kind: description"`, the one-line form of an error.
pub open spec fn error_line(e: ErrorView) -> Seq<char> {
    kind_wire(e.kind) + ": "@ + e.description
}

impl Error {
    /// An error of the given kind, without a link.
    pub fn new(kind: ErrorKind, description: String) -> (r: Error)
        ensures
            r@ == (ErrorView { kind, description: description@, uri: None }),
    {
        Error { error: kind, error_description: description, error_uri: None }
    }

    /// The error code.
    pub fn kind(&self) -> (r: &ErrorKind)
        ensures
            *r == self@.kind,
    {
        &self.error
    }

    /// The description.
    pub fn description(&self) -> (r: &String)
        ensures
            r@ == self@.description,
    {
        &self.error_description
    }

    /// The link to a page about the error, if any.
    pub fn error_uri(&self) -> (r: Option<String>)
        ensures
            r.is_some() == self@.uri.is_some(),
            r.is_some() ==> r.unwrap()@ == self@.uri.unwrap(),
    {
        match &self.error_uri {
            Some(u) => Some(u.clone()),
            None => None,
        }
    }

    /// Attaches a link to a page about the error.
    pub fn set_error_uri(&mut self, url: String) -> (r: &mut Self)
        ensures
            (*r)@ == (ErrorView { uri: Some(url@), ..old(self)@ }),
            *final(r) == *final(self),
    {
        self.error_uri = Some(url);
        self
    }

    /// The one-line form `kind: description`.
    pub fn to_string(&self) -> (r: String)
        ensures
            r@ == error_line(self@),
    {
        let mut r = String::from_str(self.error.as_str());
        r.append(": ");
        r.append(self.error_description.as_str());
        r
    }
}

} // verus!
