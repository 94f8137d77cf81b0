//! The four things a user can ask of the service.
//!
//! A flow does no network or database work. It is told which step was just
//! completed and with what result, and answers with the next thing to do:
//! a request to send to Traewelling, an operation on the credential store,
//! or the response that ends the flow. Whoever runs a flow starts it with
//! its `Begin` step, does what it asks, and hands the result back in the
//! matching step until the flow is done.

use vstd::prelude::*;

use crate::errors::Error;
use crate::feed::{channel_view, channel_xml, render};
use crate::http::{text_of, Reply, Request, RequestView, Response, ResponseView};
use crate::random::{all_alphanumeric, generate_random_string};
use crate::store::{
    apply_all, delete, get, holds, lemma_absence_stays, lemma_delete_absent,
    lemma_delete_then_get, lemma_get_finds_held, lemma_put_then_get, lemma_token_stays,
    never_deletes, never_puts, put, Change, StoreFailure, Table,
};
use crate::text::{split, split_text};
use crate::time::timezone_known;
use crate::traewelling::{
    dashboard_request_view, outcome, token_request_view, DashboardResponse,
    DashboardResponseView, TokenResponse, TokenResponseView, Traewelling, TraewellingView,
    BASE_URL,
};

verus! {

/// The number of characters of a feed id.
pub const FEED_ID_LENGTH: usize = 64;

/// The time zone of a feed whose reader names none.
pub const DEFAULT_TIMEZONE: &'static str = "Europe/Berlin";

/// Whether a text has the shape of a feed id: 64 ASCII letters and digits.
pub open spec fn is_feed_id(id: Seq<char>) -> bool {
    id.len() == FEED_ID_LENGTH && all_alphanumeric(id)
}

/// Where Traewelling sends the user back to after the authorization.
pub open spec fn callback_uri(public_url: Seq<char>) -> Seq<char> {
    public_url + "/callback"@
}

/// The page at Traewelling on which the user authorizes this service.
pub open spec fn authorize_location(client: TraewellingView, public_url: Seq<char>) -> Seq<char> {
    BASE_URL@ + "/oauth/authorize?response_type=code&client_id="@ + client.client_id
        + "&redirect_uri="@ + callback_uri(public_url)
}

/// The address of the feed with the given id.
pub open spec fn feed_url(public_url: Seq<char>, id: Seq<char>) -> Seq<char> {
    public_url + "/rss/"@ + id
}

/// The page that tells the user where the new feed is.
pub open spec fn feed_page_view(public_url: Seq<char>, id: Seq<char>) -> ResponseView {
    ResponseView {
        status: 200,
        content_type: Some("text/html"@),
        location: None,
        body: "<html><body>Success!<br>Your rss feed: <a href=\""@ + feed_url(public_url, id)
            + "\">"@ + feed_url(public_url, id) + "</a></body></html>"@,
    }
}

/// The response that carries a channel.
pub open spec fn feed_document_view(xml: Seq<char>) -> ResponseView {
    ResponseView {
        status: 200,
        content_type: Some("application/xml"@),
        location: None,
        body: xml,
    }
}

/// The mathematical content of the end of a flow.
pub open spec fn result_view(result: Result<Response, Error>) -> Result<ResponseView, Error> {
    match result {
        Ok(response) => Ok(response@),
        Err(e) => Err(e),
    }
}

/// Begins an authorization: sends the user to Traewelling, which will send
/// them back to the callback of this service with a code.
pub fn create_rss_feed(traewelling: &Traewelling, public_url: &str) -> (response: Response)
    ensures
        response@ == (ResponseView {
            status: 307,
            content_type: None,
            location: Some(authorize_location(traewelling@, public_url@)),
            body: Seq::empty(),
        }),
{
    let mut location = BASE_URL.to_owned();
    location.append("/oauth/authorize?response_type=code&client_id=");
    location.append(traewelling.client_id());
    location.append("&redirect_uri=");
    location.append(public_url);
    location.append("/callback");
    assert(location@ =~= authorize_location(traewelling@, public_url@));
    Response { status: 307, content_type: None, location: Some(location), body: String::new() }
}

/// The page that tells the user where the feed with the id `id` is.
pub fn feed_page(public_url: &str, id: &str) -> (page: Response)
    ensures
        page@ == feed_page_view(public_url@, id@),
{
    let mut url = public_url.to_owned();
    url.append("/rss/");
    url.append(id);
    let mut body = "<html><body>Success!<br>Your rss feed: <a href=\"".to_owned();
    body.append(url.as_str());
    body.append("\">");
    body.append(url.as_str());
    body.append("</a></body></html>");
    Response { status: 200, content_type: Some("text/html".to_owned()), location: None, body }
}

/// The step of the callback flow that was just completed.
#[derive(Debug, PartialEq, Eq)]
pub enum CallbackStep {
    /// The user came back from Traewelling with an authorization code.
    Begin { code: String },
    /// The request for a token was sent; `reply` is what came of it.
    Exchanged { reply: Reply<TokenResponse> },
    /// The store was asked to keep a token under `id`.
    Stored { id: String, outcome: Result<(), StoreFailure> },
}

/// The mathematical content of a [`CallbackStep`].
pub ghost enum CallbackStepView {
    Begin { code: Seq<char> },
    Exchanged { reply: Reply<TokenResponseView> },
    Stored { id: Seq<char>, outcome: Result<(), StoreFailure> },
}

impl View for CallbackStep {
    type V = CallbackStepView;

    open spec fn view(&self) -> CallbackStepView {
        match *self {
            CallbackStep::Begin { code } => CallbackStepView::Begin { code: code@ },
            CallbackStep::Exchanged { reply } => CallbackStepView::Exchanged { reply: reply@ },
            CallbackStep::Stored { id, outcome } => CallbackStepView::Stored { id: id@, outcome },
        }
    }
}

/// What the callback flow asks for next.
#[derive(Debug, PartialEq, Eq)]
pub enum CallbackNext {
    /// Send `request` to Traewelling and come back with
    /// [`CallbackStep::Exchanged`].
    Exchange { request: Request },
    /// Store `token` under the new feed id `id` and come back with
    /// [`CallbackStep::Stored`] for the same id.
    Put { id: String, token: String },
    /// The flow is over.
    Done { result: Result<Response, Error> },
}

/// The mathematical content of a [`CallbackNext`].
pub ghost enum CallbackNextView {
    Exchange { request: RequestView },
    Put { id: Seq<char>, token: Seq<char> },
    Done { result: Result<ResponseView, Error> },
}

impl View for CallbackNext {
    type V = CallbackNextView;

    open spec fn view(&self) -> CallbackNextView {
        match *self {
            CallbackNext::Exchange { request } => CallbackNextView::Exchange { request: request@ },
            CallbackNext::Put { id, token } => CallbackNextView::Put { id: id@, token: token@ },
            CallbackNext::Done { result } => CallbackNextView::Done { result: result_view(result) },
        }
    }
}

impl CallbackNext {
    /// The feed id that this step issues, if it issues one.
    pub open spec fn issued_id(self) -> Seq<char> {
        match self {
            CallbackNext::Put { id, token } => id@,
            _ => Seq::empty(),
        }
    }
}

/// What the callback flow does after `step`, where `fresh_id` is the feed id
/// that it draws if it needs one.
///
/// The code is traded for a token. A token that Traewelling grants is
/// stored under the fresh feed id, and once it is stored the user is shown
/// the address of the feed. A failed exchange ends the flow with the error
/// of the exchange, a failed store with an internal error.
pub open spec fn callback_view(
    client: TraewellingView,
    public_url: Seq<char>,
    step: CallbackStepView,
    fresh_id: Seq<char>,
) -> CallbackNextView {
    match step {
        CallbackStepView::Begin { code } => CallbackNextView::Exchange {
            request: token_request_view(client, code, callback_uri(public_url)),
        },
        CallbackStepView::Exchanged { reply } => match outcome(reply) {
            Ok(granted) => CallbackNextView::Put { id: fresh_id, token: granted.access_token },
            Err(e) => CallbackNextView::Done { result: Err(e) },
        },
        CallbackStepView::Stored { id, outcome } => match outcome {
            Ok(_) => CallbackNextView::Done { result: Ok(feed_page_view(public_url, id)) },
            Err(_) => CallbackNextView::Done { result: Err(Error::InternalServerError) },
        },
    }
}

/// Completes an authorization.
///
/// The feed id is drawn at random, so two calls on one step may differ in
/// it. Whatever is drawn has the shape of a feed id, and everything else
/// about the next step is fixed by the arguments.
pub fn callback(traewelling: &Traewelling, public_url: &str, step: CallbackStep) -> (next:
    CallbackNext)
    ensures
        next@ == callback_view(traewelling@, public_url@, step@, next.issued_id()),
        next is Put ==> is_feed_id(next.issued_id()),
{
    match step {
        CallbackStep::Begin { code } => {
            let mut redirect_uri = public_url.to_owned();
            redirect_uri.append("/callback");
            CallbackNext::Exchange {
                request: traewelling.token_request(code.as_str(), redirect_uri.as_str()),
            }
        },
        CallbackStep::Exchanged { reply } => match Traewelling::token(reply) {
            Ok(granted) => CallbackNext::Put {
                id: generate_random_string(FEED_ID_LENGTH),
                token: granted.access_token,
            },
            Err(e) => CallbackNext::Done { result: Err(e) },
        },
        CallbackStep::Stored { id, outcome } => match outcome {
            Ok(_) => CallbackNext::Done { result: Ok(feed_page(public_url, id.as_str())) },
            Err(_) => CallbackNext::Done { result: Err(Error::InternalServerError) },
        },
    }
}

/// The step of the feed flow that was just completed.
#[derive(Debug, PartialEq, Eq)]
pub enum RssStep {
    /// The feed with the id `id` was asked for.
    Begin { id: String },
    /// The store was asked for the token of the feed; `outcome` holds the
    /// token, or nothing if the store has none under that id.
    Loaded { outcome: Result<Option<String>, StoreFailure> },
    /// The request for the dashboard was sent; `reply` is what came of it.
    /// `timezone` and `ignore_users` are the parameters of the same name
    /// that the feed was asked for with; a missing `ignore_users` is the
    /// empty text.
    Fetched { reply: Reply<DashboardResponse>, timezone: Option<String>, ignore_users: String },
}

/// The mathematical content of an [`RssStep`].
pub ghost enum RssStepView {
    Begin { id: Seq<char> },
    Loaded { outcome: Result<Option<Seq<char>>, StoreFailure> },
    Fetched {
        reply: Reply<DashboardResponseView>,
        timezone: Option<Seq<char>>,
        ignore_users: Seq<char>,
    },
}

impl View for RssStep {
    type V = RssStepView;

    open spec fn view(&self) -> RssStepView {
        match *self {
            RssStep::Begin { id } => RssStepView::Begin { id: id@ },
            RssStep::Loaded { outcome } => RssStepView::Loaded {
                outcome: match outcome {
                    Ok(found) => Ok(text_of(found)),
                    Err(e) => Err(e),
                },
            },
            RssStep::Fetched { reply, timezone, ignore_users } => RssStepView::Fetched {
                reply: reply@,
                timezone: text_of(timezone),
                ignore_users: ignore_users@,
            },
        }
    }
}

/// What the feed flow asks for next.
#[derive(Debug, PartialEq, Eq)]
pub enum RssNext {
    /// Ask the store for the token under `id` and come back with
    /// [`RssStep::Loaded`].
    Get { id: String },
    /// Send `request` to Traewelling and come back with
    /// [`RssStep::Fetched`].
    Fetch { request: Request },
    /// The flow is over.
    Done { result: Result<Response, Error> },
    /// The feed was asked for in a time zone that does not exist. There is
    /// no response for this: the request is abandoned.
    InvalidTimezone,
}

/// The mathematical content of an [`RssNext`].
pub ghost enum RssNextView {
    Get { id: Seq<char> },
    Fetch { request: RequestView },
    Done { result: Result<ResponseView, Error> },
    InvalidTimezone,
}

impl View for RssNext {
    type V = RssNextView;

    open spec fn view(&self) -> RssNextView {
        match *self {
            RssNext::Get { id } => RssNextView::Get { id: id@ },
            RssNext::Fetch { request } => RssNextView::Fetch { request: request@ },
            RssNext::Done { result } => RssNextView::Done { result: result_view(result) },
            RssNext::InvalidTimezone => RssNextView::InvalidTimezone,
        }
    }
}

/// The time zone of a feed: the one asked for, or Berlin's.
pub open spec fn zone_text(timezone: Option<Seq<char>>) -> Seq<char> {
    match timezone {
        Some(zone) => zone,
        None => DEFAULT_TIMEZONE@,
    }
}

/// What the feed flow does after `step`.
///
/// The token of the feed is looked up and the dashboard read with it. A
/// feed without a token ends like a failed store, with an internal error;
/// a failed read ends with the error of the read. The dashboard is rendered
/// without the check-ins of the users that `ignore_users` names between its
/// commas; the empty text names one user, whose name is empty.
pub open spec fn rss_view(step: RssStepView) -> RssNextView {
    match step {
        RssStepView::Begin { id } => RssNextView::Get { id },
        RssStepView::Loaded { outcome } => match outcome {
            Ok(Some(token)) => RssNextView::Fetch { request: dashboard_request_view(token) },
            Ok(None) => RssNextView::Done { result: Err(Error::InternalServerError) },
            Err(_) => RssNextView::Done { result: Err(Error::InternalServerError) },
        },
        RssStepView::Fetched { reply, timezone, ignore_users } => match outcome(reply) {
            Ok(dashboard) => if timezone_known(zone_text(timezone)) {
                RssNextView::Done {
                    result: Ok(
                        feed_document_view(
                            channel_xml(
                                channel_view(
                                    dashboard,
                                    zone_text(timezone),
                                    split_text(ignore_users, ','),
                                ),
                            ),
                        ),
                    ),
                }
            } else {
                RssNextView::InvalidTimezone
            },
            Err(e) => RssNextView::Done { result: Err(e) },
        },
    }
}

/// Serves a feed.
pub fn rss(traewelling: &Traewelling, step: RssStep) -> (next: RssNext)
    ensures
        next@ == rss_view(step@),
{
    match step {
        RssStep::Begin { id } => RssNext::Get { id },
        RssStep::Loaded { outcome } => match outcome {
            Ok(Some(token)) => RssNext::Fetch {
                request: traewelling.dashboard_request(token.as_str()),
            },
            Ok(None) => RssNext::Done { result: Err(Error::InternalServerError) },
            Err(_) => RssNext::Done { result: Err(Error::InternalServerError) },
        },
        RssStep::Fetched { reply, timezone, ignore_users } => match Traewelling::dashboard(reply) {
            Ok(dashboard) => {
                let zone: String = match timezone {
                    Some(zone) => zone,
                    None => DEFAULT_TIMEZONE.to_owned(),
                };
                let ignored = split(ignore_users.as_str(), ',');
                match render(&dashboard, zone.as_str(), ignored) {
                    Some(feed) => RssNext::Done {
                        result: Ok(
                            Response {
                                status: 200,
                                content_type: Some("application/xml".to_owned()),
                                location: None,
                                body: feed.to_string(),
                            },
                        ),
                    },
                    None => RssNext::InvalidTimezone,
                }
            },
            Err(e) => RssNext::Done { result: Err(e) },
        },
    }
}

/// The step of the delete flow that was just completed.
#[derive(Debug, PartialEq, Eq)]
pub enum DeleteStep {
    /// The feed with the id `id` is to be deleted.
    Begin { id: String },
    /// The store was asked to delete the feed.
    Deleted { outcome: Result<(), StoreFailure> },
}

/// The mathematical content of a [`DeleteStep`].
pub ghost enum DeleteStepView {
    Begin { id: Seq<char> },
    Deleted { outcome: Result<(), StoreFailure> },
}

impl View for DeleteStep {
    type V = DeleteStepView;

    open spec fn view(&self) -> DeleteStepView {
        match *self {
            DeleteStep::Begin { id } => DeleteStepView::Begin { id: id@ },
            DeleteStep::Deleted { outcome } => DeleteStepView::Deleted { outcome },
        }
    }
}

/// What the delete flow asks for next.
#[derive(Debug, PartialEq, Eq)]
pub enum DeleteNext {
    /// Ask the store to delete what it holds under `id` and come back with
    /// [`DeleteStep::Deleted`].
    Delete { id: String },
    /// The flow is over; `result` holds the body of the response.
    Done { result: Result<String, Error> },
}

/// The mathematical content of a [`DeleteNext`].
pub ghost enum DeleteNextView {
    Delete { id: Seq<char> },
    Done { result: Result<Seq<char>, Error> },
}

impl View for DeleteNext {
    type V = DeleteNextView;

    open spec fn view(&self) -> DeleteNextView {
        match *self {
            DeleteNext::Delete { id } => DeleteNextView::Delete { id: id@ },
            DeleteNext::Done { result } => DeleteNextView::Done {
                result: match result {
                    Ok(body) => Ok(body@),
                    Err(e) => Err(e),
                },
            },
        }
    }
}

/// What the delete flow does after `step`. Whether the store held anything
/// under the id makes no difference: the flow succeeds whenever the store
/// does.
pub open spec fn delete_view(step: DeleteStepView) -> DeleteNextView {
    match step {
        DeleteStepView::Begin { id } => DeleteNextView::Delete { id },
        DeleteStepView::Deleted { outcome } => match outcome {
            Ok(_) => DeleteNextView::Done { result: Ok("Success"@) },
            Err(_) => DeleteNextView::Done { result: Err(Error::InternalServerError) },
        },
    }
}

/// Revokes a feed.
pub fn delete_rss(step: DeleteStep) -> (next: DeleteNext)
    ensures
        next@ == delete_view(step@),
{
    match step {
        DeleteStep::Begin { id } => DeleteNext::Delete { id },
        DeleteStep::Deleted { outcome } => match outcome {
            Ok(_) => DeleteNext::Done { result: Ok("Success".to_owned()) },
            Err(_) => DeleteNext::Done { result: Err(Error::InternalServerError) },
        },
    }
}

/// A feed that was issued serves the token it was issued for, until it is
/// deleted.
///
/// Let the callback flow be granted a token and issue the feed id `id`, which
/// the store has no row for, and let the store do what the flow asks. Then
/// let the store go through any run of changes `later` that does not delete
/// `id`. The feed flow for `id` asks the store for that id, and with the
/// store's answer goes on to read the dashboard with the very token that
/// was granted.
pub proof fn law_issued_feed_serves_its_token(
    client: TraewellingView,
    public_url: Seq<char>,
    reply: Reply<TokenResponseView>,
    id: Seq<char>,
    table: Table,
    later: Seq<Change>,
)
    requires
        outcome(reply) is Ok,
        !holds(table, id),
        never_deletes(later, id),
    ensures
        ({
            let issued = callback_view(
                client,
                public_url,
                CallbackStepView::Exchanged { reply },
                id,
            );
            let granted = outcome(reply)->Ok_0.access_token;
            let found = get(apply_all(put(table, id, granted), later), id);
            &&& issued == CallbackNextView::Put { id, token: granted }
            &&& rss_view(RssStepView::Begin { id }) == RssNextView::Get { id }
            &&& rss_view(RssStepView::Loaded { outcome: Ok(found) }) == RssNextView::Fetch {
                request: dashboard_request_view(granted),
            }
        }),
{
    let granted = outcome(reply)->Ok_0.access_token;
    let stored = put(table, id, granted);
    lemma_put_then_get(table, id, granted);
    lemma_get_finds_held(stored, id);
    lemma_token_stays(stored, id, later);
}

/// A feed that was deleted is gone, until a feed is issued under its id
/// again.
///
/// The delete flow for `id` asks the store to delete that id. Let the store
/// do so, whatever the table held before, and then go through any run of
/// changes `later` that stores nothing under `id`. With the store's answer
/// the feed flow for `id` ends in an internal error: it never goes on with
/// a token.
pub proof fn law_deleted_feed_is_gone(id: Seq<char>, table: Table, later: Seq<Change>)
    requires
        never_puts(later, id),
    ensures
        ({
            let found = get(apply_all(delete(table, id), later), id);
            &&& delete_view(DeleteStepView::Begin { id }) == DeleteNextView::Delete { id }
            &&& rss_view(RssStepView::Loaded { outcome: Ok(found) }) == RssNextView::Done {
                result: Err(Error::InternalServerError),
            }
        }),
{
    lemma_delete_then_get(table, id);
    lemma_absence_stays(delete(table, id), id, later);
}

/// Deleting a feed that was never issued succeeds and changes nothing.
pub proof fn law_delete_unknown_feed(id: Seq<char>, table: Table)
    requires
        !holds(table, id),
    ensures
        delete(table, id) == table,
        ({
            delete_view(DeleteStepView::Deleted { outcome: Ok(()) }) == DeleteNextView::Done {
                result: Ok("Success"@),
            }
        }),
{
    lemma_delete_absent(table, id);
}

} // verus!
