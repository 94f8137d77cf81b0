//! Plain descriptions of HTTP messages.
//!
//! The library neither sends nor receives anything. It describes the
//! request that has to go to Traewelling, is told what came back, and
//! describes the response that has to go to the user.

use vstd::prelude::*;

verus! {

/// The response to send to the user.
#[derive(Debug, PartialEq, Eq)]
pub struct Response {
    /// The HTTP status code.
    pub status: u16,
    /// The `Content-Type` header, where the flow sets one.
    pub content_type: Option<String>,
    /// The `Location` header of a redirect.
    pub location: Option<String>,
    /// The body.
    pub body: String,
}

/// The mathematical content of a [`Response`].
pub ghost struct ResponseView {
    pub status: int,
    pub content_type: Option<Seq<char>>,
    pub location: Option<Seq<char>>,
    pub body: Seq<char>,
}

/// The characters of an optional string.
pub open spec fn text_of(s: Option<String>) -> Option<Seq<char>> {
    match s {
        Some(s) => Some(s@),
        None => None,
    }
}

impl View for Response {
    type V = ResponseView;

    open spec fn view(&self) -> ResponseView {
        ResponseView {
            status: self.status as int,
            content_type: text_of(self.content_type),
            location: text_of(self.location),
            body: self.body@,
        }
    }
}

/// The two request methods that the library uses.
#[derive(Debug, Clone, Copy, PartialEq, Eq, Structural)]
pub enum Method {
    Get,
    Post,
}

/// How a request proves to Traewelling who sends it.
#[derive(Debug, PartialEq, Eq)]
pub enum Auth {
    /// HTTP basic authentication.
    Basic { username: String, password: String },
    /// A bearer token.
    Bearer { token: String },
}

/// The mathematical content of an [`Auth`].
pub ghost enum AuthView {
    Basic { username: Seq<char>, password: Seq<char> },
    Bearer { token: Seq<char> },
}

impl View for Auth {
    type V = AuthView;

    open spec fn view(&self) -> AuthView {
        match *self {
            Auth::Basic { username, password } => AuthView::Basic {
                username: username@,
                password: password@,
            },
            Auth::Bearer { token } => AuthView::Bearer { token: token@ },
        }
    }
}

/// A request to send to Traewelling.
#[derive(Debug, PartialEq, Eq)]
pub struct Request {
    pub method: Method,
    /// The full URL.
    pub url: String,
    pub auth: Auth,
    /// The fields of the form-encoded body, in order; none for a request
    /// without a body.
    pub form: Vec<(String, String)>,
}

/// The mathematical content of a [`Request`].
pub ghost struct RequestView {
    pub method: Method,
    pub url: Seq<char>,
    pub auth: AuthView,
    pub form: Seq<(Seq<char>, Seq<char>)>,
}

/// The characters of each name and value of a form.
pub open spec fn form_text(form: Seq<(String, String)>) -> Seq<(Seq<char>, Seq<char>)> {
    form.map_values(|field: (String, String)| (field.0@, field.1@))
}

impl View for Request {
    type V = RequestView;

    open spec fn view(&self) -> RequestView {
        RequestView {
            method: self.method,
            url: self.url@,
            auth: self.auth@,
            form: form_text(self.form@),
        }
    }
}

/// What came of a request to Traewelling. `T` is what the body of a good
/// answer decodes to.
#[derive(Debug, PartialEq, Eq)]
pub enum Reply<T> {
    /// No answer arrived: the name did not resolve, the connection failed or
    /// timed out, or the answer broke off.
    Unreachable,
    /// An answer arrived. `payload` holds the decoded body of an answer with
    /// status 200, and nothing where the status is another or the body
    /// could not be decoded.
    Answer { status: u16, payload: Option<T> },
}

impl<T: View> View for Reply<T> {
    type V = Reply<T::V>;

    open spec fn view(&self) -> Reply<T::V> {
        match *self {
            Reply::Unreachable => Reply::Unreachable,
            Reply::Answer { status, payload } => Reply::Answer {
                status,
                payload: match payload {
                    Some(p) => Some(p@),
                    None => None,
                },
            },
        }
    }
}

impl<T> Reply<T> {
    /// The decoded body, where the reply is an answer with status 200 whose
    /// body could be decoded.
    pub open spec fn decoded(self) -> Option<T> {
        match self {
            Reply::Unreachable => None,
            Reply::Answer { status, payload } => if status == 200 {
                payload
            } else {
                None
            },
        }
    }
}

} // verus!
