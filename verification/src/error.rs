//! The errors that the session client and the relay report.

use vstd::prelude::*;

verus! {

/// A failure, by kind, with the message that came with it.
#[derive(Debug)]
pub enum ErrorKind {
    /// A response of unexpected shape, or a refusal by the portal at login or
    /// batch selection.
    ParseError(String),
    /// A refusal by the portal when a course list was asked for.
    CourseError(String),
    /// The password could not be encrypted with the key at hand.
    CryptoError(String),
    /// The transport failed.
    NetworkError(String),
    /// The bearer token is missing or invalid.
    AuthError(String),
}

/// The mathematical model of an `ErrorKind`.
pub enum ErrorKindView {
    ParseError(Seq<char>),
    CourseError(Seq<char>),
    CryptoError(Seq<char>),
    NetworkError(Seq<char>),
    AuthError(Seq<char>),
}

impl View for ErrorKind {
    type V = ErrorKindView;

    open spec fn view(&self) -> ErrorKindView {
        match *self {
            ErrorKind::ParseError(m) => ErrorKindView::ParseError(m@),
            ErrorKind::CourseError(m) => ErrorKindView::CourseError(m@),
            ErrorKind::CryptoError(m) => ErrorKindView::CryptoError(m@),
            ErrorKind::NetworkError(m) => ErrorKindView::NetworkError(m@),
            ErrorKind::AuthError(m) => ErrorKindView::AuthError(m@),
        }
    }
}

impl ErrorKindView {
    /// The message that the error carries.
    pub open spec fn message(self) -> Seq<char> {
        match self {
            ErrorKindView::ParseError(m) => m,
            ErrorKindView::CourseError(m) => m,
            ErrorKindView::CryptoError(m) => m,
            ErrorKindView::NetworkError(m) => m,
            ErrorKindView::AuthError(m) => m,
        }
    }
}

impl Clone for ErrorKind {
    fn clone(&self) -> (r: Self)
        ensures
            r == *self,
    {
        match self {
            ErrorKind::ParseError(m) => ErrorKind::ParseError(m.clone()),
            ErrorKind::CourseError(m) => ErrorKind::CourseError(m.clone()),
            ErrorKind::CryptoError(m) => ErrorKind::CryptoError(m.clone()),
            ErrorKind::NetworkError(m) => ErrorKind::NetworkError(m.clone()),
            ErrorKind::AuthError(m) => ErrorKind::AuthError(m.clone()),
        }
    }
}

impl ErrorKind {
    /// The message that the error carries.
    pub fn message(&self) -> (m: String)
        ensures
            m@ == self@.message(),
    {
        match self {
            ErrorKind::ParseError(m) => m.clone(),
            ErrorKind::CourseError(m) => m.clone(),
            ErrorKind::CryptoError(m) => m.clone(),
            ErrorKind::NetworkError(m) => m.clone(),
            ErrorKind::AuthError(m) => m.clone(),
        }
    }
}

} // verus!
