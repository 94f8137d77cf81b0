use traewelling_rss::errors::Error;
use traewelling_rss::feed::render;
use traewelling_rss::flows::{
    callback, create_rss_feed, delete_rss, feed_page, rss, CallbackNext, CallbackStep, DeleteNext,
    DeleteStep, RssNext, RssStep, DEFAULT_TIMEZONE, FEED_ID_LENGTH,
};
use traewelling_rss::http::{Auth, Method, Reply, Request, Response};
use traewelling_rss::store::StoreFailure;
use traewelling_rss::time::Timestamp;
use traewelling_rss::traewelling::{
    DashboardData, DashboardResponse, DashboardTrain, TokenResponse, TrainOriginDestination,
    Traewelling,
};

const PUBLIC_URL: &str = "https://feed.example";

fn client() -> Traewelling {
    Traewelling::new(String::from("client-7"), String::from("s3cr3t"))
}

fn granted(access_token: &str) -> Reply<TokenResponse> {
    Reply::Answer {
        status: 200,
        payload: Some(TokenResponse {
            token_type: String::from("Bearer"),
            expires_in: 31_536_000,
            access_token: String::from(access_token),
            refresh_token: String::from("refresh-1"),
        }),
    }
}

fn entry(id: u32, username: &str) -> DashboardData {
    DashboardData {
        id,
        body: String::new(),
        username: String::from(username),
        created_at: Timestamp::new(1_704_100_000, 0).unwrap(),
        train: DashboardTrain {
            line_name: String::from("RE1"),
            origin: TrainOriginDestination { name: String::from("A"), arrival_real: None },
            destination: TrainOriginDestination {
                name: String::from("B"),
                arrival_real: Timestamp::new(1_704_151_800, 0),
            },
        },
    }
}

fn dashboard() -> DashboardResponse {
    DashboardResponse { data: vec![entry(1, "alice"), entry(2, "bob")] }
}

fn sent(reply_status: u16) -> Reply<DashboardResponse> {
    if reply_status == 200 {
        Reply::Answer { status: 200, payload: Some(dashboard()) }
    } else {
        Reply::Answer { status: reply_status, payload: None }
    }
}

/// A store that keeps its rows in memory, as the table of the real one does.
struct Rows {
    rows: Vec<(String, String)>,
}

impl Rows {
    fn put(&mut self, id: &str, token: &str) -> Result<(), StoreFailure> {
        self.rows.push((String::from(id), String::from(token)));
        Ok(())
    }

    fn get(&self, id: &str) -> Result<Option<String>, StoreFailure> {
        Ok(self.rows.iter().find(|row| row.0 == id).map(|row| row.1.clone()))
    }

    fn delete(&mut self, id: &str) -> Result<(), StoreFailure> {
        self.rows.retain(|row| row.0 != id);
        Ok(())
    }
}

/// Runs the callback flow against `rows` and an upstream that answers with
/// `reply`; returns the feed id, if one was issued, and the end of the flow.
fn run_callback(
    rows: &mut Rows,
    reply: Reply<TokenResponse>,
) -> (Option<String>, Result<Response, Error>) {
    let traewelling = client();
    let mut reply = Some(reply);
    let mut issued = None;
    let mut step = CallbackStep::Begin { code: String::from("code-9") };
    loop {
        match callback(&traewelling, PUBLIC_URL, step) {
            CallbackNext::Exchange { request } => {
                assert_eq!(request.url, "https://traewelling.de/oauth/token");
                step = CallbackStep::Exchanged { reply: reply.take().unwrap() };
            }
            CallbackNext::Put { id, token } => {
                let outcome = rows.put(&id, &token);
                issued = Some(id.clone());
                step = CallbackStep::Stored { id, outcome };
            }
            CallbackNext::Done { result } => return (issued, result),
        }
    }
}

/// Runs the feed flow for `id` against `rows`; returns the token that the
/// dashboard was asked for with, if it was, and how the flow went on.
fn run_rss(rows: &Rows, id: &str, reply: Reply<DashboardResponse>) -> (Option<String>, RssNext) {
    let traewelling = client();
    let mut reply = Some(reply);
    let mut bearer = None;
    let mut step = RssStep::Begin { id: String::from(id) };
    loop {
        match rss(&traewelling, step) {
            RssNext::Get { id } => {
                step = RssStep::Loaded { outcome: rows.get(&id) };
            }
            RssNext::Fetch { request } => {
                if let Auth::Bearer { token } = request.auth {
                    bearer = Some(token);
                }
                step = RssStep::Fetched {
                    reply: reply.take().unwrap(),
                    timezone: None,
                    ignore_users: String::new(),
                };
            }
            last => return (bearer, last),
        }
    }
}

fn run_delete(rows: &mut Rows, id: &str) -> Result<String, Error> {
    let mut step = DeleteStep::Begin { id: String::from(id) };
    loop {
        match delete_rss(step) {
            DeleteNext::Delete { id } => {
                step = DeleteStep::Deleted { outcome: rows.delete(&id) };
            }
            DeleteNext::Done { result } => return result,
        }
    }
}

fn document(feed_xml: String) -> RssNext {
    RssNext::Done {
        result: Ok(Response {
            status: 200,
            content_type: Some(String::from("application/xml")),
            location: None,
            body: feed_xml,
        }),
    }
}

#[test]
fn authorization_begins_with_a_redirect_to_traewelling() {
    let response = create_rss_feed(&client(), PUBLIC_URL);
    assert_eq!(response.status, 307);
    assert_eq!(
        response.location.as_deref(),
        Some(
            "https://traewelling.de/oauth/authorize?response_type=code&client_id=client-7\
             &redirect_uri=https://feed.example/callback"
        )
    );
    assert_eq!(response.content_type, None);
    assert_eq!(response.body, "");
}

#[test]
fn callback_begins_with_the_code_exchange() {
    let next = callback(&client(), PUBLIC_URL, CallbackStep::Begin { code: String::from("c0de") });
    assert_eq!(
        next,
        CallbackNext::Exchange {
            request: Request {
                method: Method::Post,
                url: String::from("https://traewelling.de/oauth/token"),
                auth: Auth::Basic {
                    username: String::from("client-7"),
                    password: String::from("s3cr3t"),
                },
                form: vec![
                    (String::from("grant_type"), String::from("authorization_code")),
                    (String::from("code"), String::from("c0de")),
                    (String::from("redirect_uri"), String::from("https://feed.example/callback")),
                ],
            },
        }
    );
}

#[test]
fn callback_stores_the_access_token_under_a_fresh_id() {
    let next = callback(&client(), PUBLIC_URL, CallbackStep::Exchanged { reply: granted("access-1") });
    match next {
        CallbackNext::Put { id, token } => {
            assert_eq!(token, "access-1");
            assert_eq!(id.chars().count(), 64);
            assert_eq!(id.len(), FEED_ID_LENGTH);
            assert!(id.chars().all(|c| c.is_ascii_alphanumeric()));
        }
        other => panic!("the flow went on with {:?}", other),
    }
}

#[test]
fn callback_issues_another_id_each_time() {
    let first = callback(&client(), PUBLIC_URL, CallbackStep::Exchanged { reply: granted("a") });
    let second = callback(&client(), PUBLIC_URL, CallbackStep::Exchanged { reply: granted("a") });
    assert_ne!(first, second);
}

#[test]
fn callback_ends_when_the_exchange_fails() {
    let failed = CallbackNext::Done { result: Err(Error::TraewellingConnectionError) };
    let replies = [
        Reply::Unreachable,
        Reply::Answer { status: 400, payload: None },
        Reply::Answer { status: 200, payload: None },
    ];
    for reply in replies {
        assert_eq!(callback(&client(), PUBLIC_URL, CallbackStep::Exchanged { reply }), failed);
    }
}

#[test]
fn callback_ends_with_the_address_of_the_feed() {
    let step = CallbackStep::Stored { id: String::from("abc123"), outcome: Ok(()) };
    let expected = Response {
        status: 200,
        content_type: Some(String::from("text/html")),
        location: None,
        body: String::from(
            "<html><body>Success!<br>Your rss feed: \
             <a href=\"https://feed.example/rss/abc123\">https://feed.example/rss/abc123</a>\
             </body></html>",
        ),
    };
    assert_eq!(feed_page(PUBLIC_URL, "abc123"), expected);
    assert_eq!(callback(&client(), PUBLIC_URL, step), CallbackNext::Done { result: Ok(expected) });
}

#[test]
fn callback_ends_with_an_internal_error_when_the_store_fails() {
    let step = CallbackStep::Stored { id: String::from("abc123"), outcome: Err(StoreFailure) };
    assert_eq!(
        callback(&client(), PUBLIC_URL, step),
        CallbackNext::Done { result: Err(Error::InternalServerError) }
    );
}

#[test]
fn feed_flow_begins_with_the_lookup() {
    let next = rss(&client(), RssStep::Begin { id: String::from("abc123") });
    assert_eq!(next, RssNext::Get { id: String::from("abc123") });
}

#[test]
fn feed_flow_reads_the_dashboard_with_the_token_found() {
    let next = rss(&client(), RssStep::Loaded { outcome: Ok(Some(String::from("access-1"))) });
    assert_eq!(
        next,
        RssNext::Fetch {
            request: Request {
                method: Method::Get,
                url: String::from("https://traewelling.de/api/v1/dashboard"),
                auth: Auth::Bearer { token: String::from("access-1") },
                form: vec![],
            },
        }
    );
}

#[test]
fn feed_without_a_token_ends_with_an_internal_error() {
    let failed = RssNext::Done { result: Err(Error::InternalServerError) };
    assert_eq!(rss(&client(), RssStep::Loaded { outcome: Ok(None) }), failed);
    assert_eq!(rss(&client(), RssStep::Loaded { outcome: Err(StoreFailure) }), failed);
}

#[test]
fn status_403_from_the_dashboard_is_a_connection_error() {
    let step = RssStep::Fetched { reply: sent(403), timezone: None, ignore_users: String::new() };
    assert_eq!(
        rss(&client(), step),
        RssNext::Done { result: Err(Error::TraewellingConnectionError) }
    );
    let mut rows = Rows { rows: vec![] };
    rows.put("abc123", "access-1").unwrap();
    let (bearer, last) = run_rss(&rows, "abc123", sent(403));
    assert_eq!(bearer.as_deref(), Some("access-1"));
    assert_eq!(last, RssNext::Done { result: Err(Error::TraewellingConnectionError) });
}

#[test]
fn unreachable_dashboard_is_a_connection_error() {
    let step = RssStep::Fetched {
        reply: Reply::Unreachable,
        timezone: Some(String::from("Europe/Atlantis")),
        ignore_users: String::new(),
    };
    assert_eq!(
        rss(&client(), step),
        RssNext::Done { result: Err(Error::TraewellingConnectionError) }
    );
}

#[test]
fn feed_is_rendered_in_berlin_time_by_default() {
    assert_eq!(DEFAULT_TIMEZONE, "Europe/Berlin");
    let step = RssStep::Fetched { reply: sent(200), timezone: None, ignore_users: String::new() };
    let expected = render(&dashboard(), "Europe/Berlin", vec![""]).unwrap().to_string();
    assert!(expected.contains("Arrival: 00:30<br />"));
    assert_eq!(rss(&client(), step), document(expected));
}

#[test]
fn feed_is_rendered_in_the_time_zone_asked_for() {
    let step = RssStep::Fetched {
        reply: sent(200),
        timezone: Some(String::from("Asia/Tokyo")),
        ignore_users: String::new(),
    };
    let expected = render(&dashboard(), "Asia/Tokyo", vec![""]).unwrap().to_string();
    assert!(expected.contains("Arrival: 08:30<br />"));
    assert_eq!(rss(&client(), step), document(expected));
}

#[test]
fn feed_leaves_out_the_users_between_the_commas() {
    let step = RssStep::Fetched {
        reply: sent(200),
        timezone: None,
        ignore_users: String::from("carol,alice"),
    };
    let expected = render(&dashboard(), "Europe/Berlin", vec!["carol", "alice"]).unwrap();
    assert_eq!(expected.items.len(), 1);
    assert_eq!(expected.items[0].title, "bob: RE1 from A to B");
    assert_eq!(rss(&client(), step), document(expected.to_string()));
}

#[test]
fn feed_in_an_unknown_time_zone_is_abandoned() {
    for zone in ["Europe/Atlantis", "", "europe/berlin"] {
        let step = RssStep::Fetched {
            reply: sent(200),
            timezone: Some(String::from(zone)),
            ignore_users: String::new(),
        };
        assert_eq!(rss(&client(), step), RssNext::InvalidTimezone);
    }
}

#[test]
fn delete_flow_asks_the_store_and_succeeds_with_it() {
    assert_eq!(
        delete_rss(DeleteStep::Begin { id: String::from("abc123") }),
        DeleteNext::Delete { id: String::from("abc123") }
    );
    assert_eq!(
        delete_rss(DeleteStep::Deleted { outcome: Ok(()) }),
        DeleteNext::Done { result: Ok(String::from("Success")) }
    );
    assert_eq!(
        delete_rss(DeleteStep::Deleted { outcome: Err(StoreFailure) }),
        DeleteNext::Done { result: Err(Error::InternalServerError) }
    );
}

#[test]
fn issued_feed_serves_the_token_it_was_issued_for() {
    let mut rows = Rows { rows: vec![(String::from("older"), String::from("access-0"))] };
    let (issued, page) = run_callback(&mut rows, granted("access-1"));
    let id = issued.unwrap();
    assert_eq!(page, Ok(feed_page(PUBLIC_URL, &id)));
    assert_eq!(rows.rows.len(), 2);
    let (bearer, last) = run_rss(&rows, &id, sent(200));
    assert_eq!(bearer.as_deref(), Some("access-1"));
    assert_eq!(last, document(render(&dashboard(), "Europe/Berlin", vec![""]).unwrap().to_string()));
    let (again, _) = run_rss(&rows, &id, sent(200));
    assert_eq!(again.as_deref(), Some("access-1"));
    let (older, _) = run_rss(&rows, "older", sent(200));
    assert_eq!(older.as_deref(), Some("access-0"));
}

#[test]
fn failed_exchange_issues_no_feed() {
    let mut rows = Rows { rows: vec![] };
    let (issued, page) = run_callback(&mut rows, Reply::Answer { status: 401, payload: None });
    assert_eq!(issued, None);
    assert_eq!(page, Err(Error::TraewellingConnectionError));
    assert!(rows.rows.is_empty());
}

#[test]
fn deleted_feed_is_gone() {
    let mut rows = Rows { rows: vec![] };
    let (issued, _) = run_callback(&mut rows, granted("access-1"));
    let (other, _) = run_callback(&mut rows, granted("access-2"));
    let id = issued.unwrap();
    assert_eq!(run_delete(&mut rows, &id), Ok(String::from("Success")));
    let (bearer, last) = run_rss(&rows, &id, sent(200));
    assert_eq!(bearer, None);
    assert_eq!(last, RssNext::Done { result: Err(Error::InternalServerError) });
    let (kept, _) = run_rss(&rows, &other.unwrap(), sent(200));
    assert_eq!(kept.as_deref(), Some("access-2"));
}

#[test]
fn deleting_an_unknown_feed_succeeds_and_changes_nothing() {
    let mut rows = Rows { rows: vec![(String::from("abc123"), String::from("access-1"))] };
    assert_eq!(run_delete(&mut rows, "never-issued"), Ok(String::from("Success")));
    assert_eq!(rows.rows, vec![(String::from("abc123"), String::from("access-1"))]);
    assert_eq!(run_delete(&mut rows, "never-issued"), Ok(String::from("Success")));
    let mut empty = Rows { rows: vec![] };
    assert_eq!(run_delete(&mut empty, "abc123"), Ok(String::from("Success")));
    assert!(empty.rows.is_empty());
}
