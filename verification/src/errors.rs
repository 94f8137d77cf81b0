//! The two kinds of failure a request can end in.

use vstd::prelude::*;

use crate::http::Response;

verus! {

/// How a request failed, as far as the user is told.
#[derive(Debug, Clone, Copy, PartialEq, Eq, Structural)]
pub enum Error {
    /// The credential store failed, or held no token under the feed id.
    InternalServerError,
    /// Traewelling could not be reached, answered with a status other than
    /// 200, or sent a body that could not be decoded.
    TraewellingConnectionError,
}

impl Error {
    /// The text sent to the user for this kind of failure.
    pub open spec fn message_text(self) -> Seq<char> {
        match self {
            Error::InternalServerError => "Internal server error"@,
            Error::TraewellingConnectionError => "Traewelling connection error"@,
        }
    }

    /// The text sent to the user for this kind of failure.
    pub fn message(&self) -> (text: &'static str)
        ensures
            text@ == self.message_text(),
    {
        match self {
            Error::InternalServerError => "Internal server error",
            Error::TraewellingConnectionError => "Traewelling connection error",
        }
    }

    /// Every failure is answered with status 500 and a plain body that names
    /// the kind of failure and nothing of its cause.
    pub fn into_response(self) -> (response: Response)
        ensures
            response@.status == 500,
            response@.content_type is None,
            response@.location is None,
            response@.body == self.message_text(),
    {
        Response {
            status: 500,
            content_type: None,
            location: None,
            body: self.message().to_owned(),
        }
    }
}

} // verus!
