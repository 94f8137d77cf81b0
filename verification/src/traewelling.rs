//! The client of Traewelling: which requests go out, which answers count,
//! and the data that comes back.

use vstd::prelude::*;

use crate::errors::Error;
use crate::http::{Auth, AuthView, Method, Reply, Request, RequestView};
use crate::time::Timestamp;

verus! {

/// Where Traewelling lives.
pub const BASE_URL: &'static str = "https://traewelling.de";

/// The OAuth client that this service is registered as.
#[derive(Clone)]
pub struct Traewelling {
    pub client_id: String,
    client_secret: String,
}

/// The mathematical content of a [`Traewelling`].
pub ghost struct TraewellingView {
    pub client_id: Seq<char>,
    pub client_secret: Seq<char>,
}

impl View for Traewelling {
    type V = TraewellingView;

    closed spec fn view(&self) -> TraewellingView {
        TraewellingView { client_id: self.client_id@, client_secret: self.client_secret@ }
    }
}

/// The answer of the token endpoint.
#[derive(Debug, PartialEq, Eq)]
pub struct TokenResponse {
    pub token_type: String,
    pub expires_in: u64,
    pub access_token: String,
    pub refresh_token: String,
}

/// The mathematical content of a [`TokenResponse`].
pub ghost struct TokenResponseView {
    pub token_type: Seq<char>,
    pub expires_in: nat,
    pub access_token: Seq<char>,
    pub refresh_token: Seq<char>,
}

impl View for TokenResponse {
    type V = TokenResponseView;

    open spec fn view(&self) -> TokenResponseView {
        TokenResponseView {
            token_type: self.token_type@,
            expires_in: self.expires_in as nat,
            access_token: self.access_token@,
            refresh_token: self.refresh_token@,
        }
    }
}

/// A station at one end of a journey.
#[derive(Debug, PartialEq, Eq)]
pub struct TrainOriginDestination {
    pub name: String,
    /// When the train really arrived there, if that is known.
    pub arrival_real: Option<Timestamp>,
}

/// The mathematical content of a [`TrainOriginDestination`].
pub ghost struct TrainOriginDestinationView {
    pub name: Seq<char>,
    pub arrival_real: Option<Timestamp>,
}

impl View for TrainOriginDestination {
    type V = TrainOriginDestinationView;

    open spec fn view(&self) -> TrainOriginDestinationView {
        TrainOriginDestinationView { name: self.name@, arrival_real: self.arrival_real }
    }
}

/// The journey of a check-in.
#[derive(Debug, PartialEq, Eq)]
pub struct DashboardTrain {
    pub line_name: String,
    pub origin: TrainOriginDestination,
    pub destination: TrainOriginDestination,
}

/// The mathematical content of a [`DashboardTrain`].
pub ghost struct DashboardTrainView {
    pub line_name: Seq<char>,
    pub origin: TrainOriginDestinationView,
    pub destination: TrainOriginDestinationView,
}

impl View for DashboardTrain {
    type V = DashboardTrainView;

    open spec fn view(&self) -> DashboardTrainView {
        DashboardTrainView {
            line_name: self.line_name@,
            origin: self.origin@,
            destination: self.destination@,
        }
    }
}

/// One check-in on the dashboard.
#[derive(Debug, PartialEq, Eq)]
pub struct DashboardData {
    pub id: u32,
    pub body: String,
    pub username: String,
    pub created_at: Timestamp,
    pub train: DashboardTrain,
}

/// The mathematical content of a [`DashboardData`].
pub ghost struct DashboardDataView {
    pub id: nat,
    pub body: Seq<char>,
    pub username: Seq<char>,
    pub created_at: Timestamp,
    pub train: DashboardTrainView,
}

impl View for DashboardData {
    type V = DashboardDataView;

    open spec fn view(&self) -> DashboardDataView {
        DashboardDataView {
            id: self.id as nat,
            body: self.body@,
            username: self.username@,
            created_at: self.created_at,
            train: self.train@,
        }
    }
}

/// The dashboard of a user: the recent check-ins, newest first as
/// Traewelling sends them.
#[derive(Debug, PartialEq, Eq)]
pub struct DashboardResponse {
    pub data: Vec<DashboardData>,
}

/// The mathematical content of a [`DashboardResponse`].
pub ghost struct DashboardResponseView {
    pub data: Seq<DashboardDataView>,
}

impl View for DashboardResponse {
    type V = DashboardResponseView;

    open spec fn view(&self) -> DashboardResponseView {
        DashboardResponseView { data: self.data@.map_values(|d: DashboardData| d@) }
    }
}

/// The request that trades an authorization code for a token: a POST to the
/// token endpoint, authenticated as the client, with the code and the
/// redirect URI it was issued for in the form.
pub open spec fn token_request_view(
    client: TraewellingView,
    code: Seq<char>,
    redirect_uri: Seq<char>,
) -> RequestView {
    RequestView {
        method: Method::Post,
        url: BASE_URL@ + "/oauth/token"@,
        auth: AuthView::Basic { username: client.client_id, password: client.client_secret },
        form: seq![
            ("grant_type"@, "authorization_code"@),
            ("code"@, code),
            ("redirect_uri"@, redirect_uri),
        ],
    }
}

/// The request that reads the dashboard of the user whom `token` belongs
/// to: a GET with the token as bearer.
pub open spec fn dashboard_request_view(token: Seq<char>) -> RequestView {
    RequestView {
        method: Method::Get,
        url: BASE_URL@ + "/api/v1/dashboard"@,
        auth: AuthView::Bearer { token },
        form: Seq::empty(),
    }
}

/// What a reply from Traewelling comes to: its decoded body, or the one
/// error that stands for every way in which the exchange can fail.
pub open spec fn outcome<T>(reply: Reply<T>) -> Result<T, Error> {
    match reply.decoded() {
        Some(payload) => Ok(payload),
        None => Err(Error::TraewellingConnectionError),
    }
}

impl Traewelling {
    pub fn new(client_id: String, client_secret: String) -> (client: Self)
        ensures
            client@ == (TraewellingView {
                client_id: client_id@,
                client_secret: client_secret@,
            }),
    {
        Self { client_id, client_secret }
    }

    /// The id under which this service is registered.
    pub fn client_id(&self) -> (id: &str)
        ensures
            id@ == self@.client_id,
    {
        self.client_id.as_str()
    }

    /// Only status 200 counts as an answer.
    pub fn error_handler(status: u16) -> (checked: Result<(), Error>)
        ensures
            status == 200 ==> checked == Ok::<(), Error>(()),
            status != 200 ==> checked == Err::<(), Error>(Error::TraewellingConnectionError),
    {
        if status != 200 {
            return Err(Error::TraewellingConnectionError);
        }
        Ok(())
    }

    /// The request that trades the authorization code `code` for a token.
    pub fn token_request(&self, code: &str, redirect_uri: &str) -> (request: Request)
        ensures
            request@ == token_request_view(self@, code@, redirect_uri@),
    {
        let mut url = BASE_URL.to_owned();
        url.append("/oauth/token");
        let mut form: Vec<(String, String)> = Vec::new();
        form.push(("grant_type".to_owned(), "authorization_code".to_owned()));
        form.push(("code".to_owned(), code.to_owned()));
        form.push(("redirect_uri".to_owned(), redirect_uri.to_owned()));
        let request = Request {
            method: Method::Post,
            url,
            auth: Auth::Basic {
                username: self.client_id.clone(),
                password: self.client_secret.clone(),
            },
            form,
        };
        assert(request@.form =~= token_request_view(self@, code@, redirect_uri@).form);
        request
    }

    /// The token that Traewelling granted, if the exchange went well.
    pub fn token(reply: Reply<TokenResponse>) -> (granted: Result<TokenResponse, Error>)
        ensures
            granted == outcome(reply),
    {
        match reply {
            Reply::Unreachable => Err(Error::TraewellingConnectionError),
            Reply::Answer { status, payload } => match Self::error_handler(status) {
                Err(e) => Err(e),
                Ok(()) => match payload {
                    Some(token) => Ok(token),
                    None => Err(Error::TraewellingConnectionError),
                },
            },
        }
    }

    /// The request that reads the dashboard with the access token `token`.
    pub fn dashboard_request(&self, token: &str) -> (request: Request)
        ensures
            request@ == dashboard_request_view(token@),
    {
        let mut url = BASE_URL.to_owned();
        url.append("/api/v1/dashboard");
        let request = Request {
            method: Method::Get,
            url,
            auth: Auth::Bearer { token: token.to_owned() },
            form: Vec::new(),
        };
        assert(request@.form =~= Seq::empty());
        request
    }

    /// The dashboard that Traewelling sent, if the exchange went well.
    pub fn dashboard(reply: Reply<DashboardResponse>) -> (read: Result<DashboardResponse, Error>)
        ensures
            read == outcome(reply),
    {
        match reply {
            Reply::Unreachable => Err(Error::TraewellingConnectionError),
            Reply::Answer { status, payload } => match Self::error_handler(status) {
                Err(e) => Err(e),
                Ok(()) => match payload {
                    Some(dashboard) => Ok(dashboard),
                    None => Err(Error::TraewellingConnectionError),
                },
            },
        }
    }
}

} // verus!
