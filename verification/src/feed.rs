//! From a dashboard to an RSS channel.

use vstd::prelude::*;

use crate::text::{decimal_text, push_decimal, texts};
use crate::time::{is_known_timezone, local_clock_text, rfc2822_text, timezone_known};
use crate::traewelling::{
    DashboardData, DashboardDataView, DashboardResponse, DashboardResponseView, BASE_URL,
};

verus! {

/// One entry of the channel.
#[derive(Debug, PartialEq, Eq)]
pub struct FeedItem {
    pub title: String,
    pub link: String,
    /// The date of publication, in RFC 2822 notation.
    pub pub_date: String,
    /// The content, an HTML fragment.
    pub content: String,
}

/// The mathematical content of a [`FeedItem`].
pub ghost struct FeedItemView {
    pub title: Seq<char>,
    pub link: Seq<char>,
    pub pub_date: Seq<char>,
    pub content: Seq<char>,
}

impl View for FeedItem {
    type V = FeedItemView;

    open spec fn view(&self) -> FeedItemView {
        FeedItemView {
            title: self.title@,
            link: self.link@,
            pub_date: self.pub_date@,
            content: self.content@,
        }
    }
}

/// An RSS channel.
#[derive(Debug, PartialEq, Eq)]
pub struct Feed {
    pub title: String,
    pub link: String,
    pub description: String,
    pub items: Vec<FeedItem>,
}

/// The mathematical content of a [`Feed`].
pub ghost struct FeedView {
    pub title: Seq<char>,
    pub link: Seq<char>,
    pub description: Seq<char>,
    pub items: Seq<FeedItemView>,
}

/// The content of each item of a sequence.
pub open spec fn item_views(items: Seq<FeedItem>) -> Seq<FeedItemView> {
    items.map_values(|item: FeedItem| item@)
}

impl View for Feed {
    type V = FeedView;

    open spec fn view(&self) -> FeedView {
        FeedView {
            title: self.title@,
            link: self.link@,
            description: self.description@,
            items: item_views(self.items@),
        }
    }
}

/// The XML document that the `rss` crate writes for a channel with this
/// title, link and description whose items each have a title, a link, a
/// date of publication and a content, and nothing else.
pub uninterp spec fn channel_xml(feed: FeedView) -> Seq<char>;

/// Calls `rss::ItemBuilder` and `rss::ChannelBuilder` to build the channel,
/// and `Channel::to_string` to write it.
///
/// Trusted: the document depends on the fields handed over alone, and
/// writing it does not panic.
#[verifier::external_body]
fn rss_channel_xml(feed: &Feed) -> (xml: String)
    ensures
        xml@ == channel_xml(feed@),
{
    let items: Vec<rss::Item> = feed.items.iter().map(|item| {
        rss::ItemBuilder::default()
            .title(Some(item.title.clone()))
            .link(Some(item.link.clone()))
            .pub_date(Some(item.pub_date.clone()))
            .content(Some(item.content.clone()))
            .build()
    }).collect();
    rss::ChannelBuilder::default()
        .title(feed.title.clone())
        .link(feed.link.clone())
        .description(feed.description.clone())
        .items(items)
        .build()
        .to_string()
}

impl Feed {
    /// The channel as an XML document.
    pub fn to_string(&self) -> (xml: String)
        ensures
            xml@ == channel_xml(self@),
    {
        rss_channel_xml(self)
    }
}

/// The content of the item for a check-in: a line with the real time of
/// arrival at the destination on a clock in the time zone `zone`, if that
/// time is known, and then the text of the check-in as it is, if there is
/// any.
pub open spec fn content_text(d: DashboardDataView, zone: Seq<char>) -> Seq<char> {
    let arrival = match d.train.destination.arrival_real {
        Some(at) => "Arrival: "@ + local_clock_text(at.seconds(), zone) + "<br />"@,
        None => Seq::empty(),
    };
    let body = if d.body.len() > 0 {
        "Body: "@ + d.body
    } else {
        Seq::empty()
    };
    arrival + body
}

/// The title of the item for a check-in.
pub open spec fn title_text(d: DashboardDataView) -> Seq<char> {
    d.username + ": "@ + d.train.line_name + " from "@ + d.train.origin.name + " to "@
        + d.train.destination.name
}

/// The address of a check-in at Traewelling.
pub open spec fn link_text(d: DashboardDataView) -> Seq<char> {
    BASE_URL@ + "/status/"@ + decimal_text(d.id)
}

/// The item for a check-in. The date of publication is the time of the
/// check-in in UTC, whatever the time zone of the reader.
pub open spec fn item_view(d: DashboardDataView, zone: Seq<char>) -> FeedItemView {
    FeedItemView {
        title: title_text(d),
        link: link_text(d),
        pub_date: rfc2822_text(d.created_at.seconds(), d.created_at.nanoseconds()),
        content: content_text(d, zone),
    }
}

/// The test that a check-in passes if its user name is none of `ignored`.
/// Names are compared letter by letter, upper and lower case apart.
pub open spec fn is_kept(ignored: Seq<Seq<char>>) -> spec_fn(DashboardDataView) -> bool {
    |d: DashboardDataView| !ignored.contains(d.username)
}

/// The check-ins of a dashboard that are kept, in the order of the
/// dashboard.
pub open spec fn kept(dashboard: DashboardResponseView, ignored: Seq<Seq<char>>) -> Seq<
    DashboardDataView,
> {
    dashboard.data.filter(is_kept(ignored))
}

/// The channel for a dashboard: one item for each check-in whose user name
/// is not among `ignored`, in the order of the dashboard.
pub open spec fn channel_view(
    dashboard: DashboardResponseView,
    zone: Seq<char>,
    ignored: Seq<Seq<char>>,
) -> FeedView {
    FeedView {
        title: "Your Traewelling dashboard"@,
        link: "https://traewelling.de/dashboard"@,
        description: "An rss feed with your traewelling dashboard content"@,
        items: kept(dashboard, ignored).map_values(|d: DashboardDataView| item_view(d, zone)),
    }
}

/// The content of the item for the check-in `d`, with times on a clock in
/// the time zone `timezone`.
pub fn get_content(d: &DashboardData, timezone: &str) -> (content: String)
    requires
        timezone_known(timezone@),
    ensures
        content@ == content_text(d@, timezone@),
{
    let mut s = String::new();
    match &d.train.destination.arrival_real {
        Some(arrival) => {
            let clock = arrival.local_clock(timezone);
            s.append("Arrival: ");
            s.append(clock.as_str());
            s.append("<br />");
        },
        None => {},
    }
    if !d.body.as_str().is_empty() {
        s.append("Body: ");
        s.append(d.body.as_str());
    }
    s
}

/// Whether `username` is one of `ignore_users`, letter by letter.
pub fn is_ignored(username: &str, ignore_users: &Vec<&str>) -> (found: bool)
    ensures
        found == texts(ignore_users@).contains(username@),
{
    let mut i: usize = 0;
    while i < ignore_users.len()
        invariant
            i <= ignore_users.len(),
            forall|j: int| 0 <= j < i ==> texts(ignore_users@)[j] != username@,
        decreases ignore_users.len() - i,
    {
        let candidate: &str = ignore_users[i];
        if candidate.eq(username) {
            return true;
        }
        assert(texts(ignore_users@)[i as int] == candidate@);
        i = i + 1;
    }
    false
}

/// The item for the check-in `d`.
fn item(d: &DashboardData, timezone: &str) -> (made: FeedItem)
    requires
        timezone_known(timezone@),
    ensures
        made@ == item_view(d@, timezone@),
{
    let mut title = d.username.clone();
    title.append(": ");
    title.append(d.train.line_name.as_str());
    title.append(" from ");
    title.append(d.train.origin.name.as_str());
    title.append(" to ");
    title.append(d.train.destination.name.as_str());
    let mut link = BASE_URL.to_owned();
    link.append("/status/");
    push_decimal(&mut link, d.id);
    FeedItem {
        title,
        link,
        pub_date: d.created_at.to_rfc2822(),
        content: get_content(d, timezone),
    }
}

impl DashboardResponse {
    /// Renders the dashboard as a channel, with times of arrival on a clock
    /// in the time zone `timezone` and without the check-ins of
    /// `ignore_users`.
    pub fn to_channel(&self, timezone: String, ignore_users: Vec<&str>) -> (feed: Feed)
        requires
            timezone_known(timezone@),
        ensures
            feed@ == channel_view(self@, timezone@, texts(ignore_users@)),
    {
        let ghost ignored = texts(ignore_users@);
        let ghost keep = is_kept(ignored);
        let ghost make = |d: DashboardDataView| item_view(d, timezone@);
        let mut items: Vec<FeedItem> = Vec::new();
        let mut i: usize = 0;
        proof {
            reveal(Seq::filter);
        }
        while i < self.data.len()
            invariant
                i <= self.data.len(),
                timezone_known(timezone@),
                ignored == texts(ignore_users@),
                keep == is_kept(ignored),
                make == |d: DashboardDataView| item_view(d, timezone@),
                item_views(items@) == self@.data.take(i as int).filter(keep).map_values(make),
            decreases self.data.len() - i,
        {
            let d = &self.data[i];
            let ghost before = self@.data.take(i as int);
            let ghost made = item_views(items@);
            proof {
                assert(self@.data.take(i + 1) =~= before.push(d@));
                before.lemma_filter_push(d@, keep);
            }
            if !is_ignored(d.username.as_str(), &ignore_users) {
                let next = item(d, timezone.as_str());
                items.push(next);
                assert(before.filter(keep).push(d@).map_values(make) =~= made.push(make(d@)));
            }
            i = i + 1;
        }
        assert(self@.data.take(i as int) =~= self@.data);
        Feed {
            title: "Your Traewelling dashboard".to_owned(),
            link: "https://traewelling.de/dashboard".to_owned(),
            description: "An rss feed with your traewelling dashboard content".to_owned(),
            items,
        }
    }
}

/// Renders `dashboard` as a channel if `timezone` names a time zone, and
/// not at all if it does not: a feed with times on the wrong clock would
/// look as good as a right one.
pub fn render(dashboard: &DashboardResponse, timezone: &str, excluded_usernames: Vec<&str>) -> (feed:
    Option<Feed>)
    ensures
        feed is Some <==> timezone_known(timezone@),
        feed matches Some(f) ==> f@ == channel_view(
            dashboard@,
            timezone@,
            texts(excluded_usernames@),
        ),
{
    if is_known_timezone(timezone) {
        Some(dashboard.to_channel(timezone.to_owned(), excluded_usernames))
    } else {
        None
    }
}

/// Where in a sequence the elements stand that pass a test, in rising order.
pub open spec fn passing<A>(s: Seq<A>, test: spec_fn(A) -> bool) -> Seq<int>
    decreases s.len(),
{
    if s.len() == 0 {
        Seq::empty()
    } else if test(s.last()) {
        passing(s.drop_last(), test).push(s.len() - 1)
    } else {
        passing(s.drop_last(), test)
    }
}

/// Filtering picks the elements at the passing places, one for one.
pub proof fn lemma_filter_by_places<A>(s: Seq<A>, test: spec_fn(A) -> bool)
    ensures
        passing(s, test).len() == s.filter(test).len(),
        forall|k: int|
            0 <= k < passing(s, test).len() ==> 0 <= #[trigger] passing(s, test)[k] < s.len()
                && test(s[passing(s, test)[k]]) && s.filter(test)[k] == s[passing(s, test)[k]],
        forall|j: int, k: int|
            0 <= j < k < passing(s, test).len() ==> passing(s, test)[j] < passing(s, test)[k],
        forall|i: int|
            0 <= i < s.len() && test(#[trigger] s[i]) ==> passing(s, test).contains(i),
    decreases s.len(),
{
    reveal(Seq::filter);
    if s.len() > 0 {
        let front = s.drop_last();
        lemma_filter_by_places(front, test);
        let places = passing(s, test);
        let before = passing(front, test);
        assert forall|i: int| 0 <= i < s.len() && test(s[i]) implies places.contains(i) by {
            if i < s.len() - 1 {
                assert(test(front[i]));
                let k = choose|k: int| 0 <= k < before.len() && before[k] == i;
                assert(places[k] == i);
            } else {
                assert(places[places.len() - 1] == i);
            }
        }
        assert forall|j: int, k: int| 0 <= j < k < places.len() implies places[j] < places[k] by {}
    }
}

/// The channel has one item for each check-in whose user name is not
/// ignored, and none besides, in the order of the dashboard.
///
/// There is a strictly rising sequence of places in the dashboard that
/// holds the place of every such check-in and of no other, and the item at
/// each position of the channel is the one made from the check-in at the
/// place of that position.
pub proof fn law_one_item_per_kept_entry(
    dashboard: DashboardResponseView,
    zone: Seq<char>,
    ignored: Seq<Seq<char>>,
)
    ensures
        ({
            let items = channel_view(dashboard, zone, ignored).items;
            let places = passing(dashboard.data, is_kept(ignored));
            &&& items.len() == places.len()
            &&& forall|k: int|
                0 <= k < places.len() ==> 0 <= #[trigger] places[k] < dashboard.data.len()
                    && !ignored.contains(dashboard.data[places[k]].username) && items[k]
                    == item_view(dashboard.data[places[k]], zone)
            &&& forall|j: int, k: int| 0 <= j < k < places.len() ==> places[j] < places[k]
            &&& forall|i: int|
                0 <= i < dashboard.data.len() && !ignored.contains(
                    (#[trigger] dashboard.data[i]).username,
                ) ==> places.contains(i)
        }),
{
    lemma_filter_by_places(dashboard.data, is_kept(ignored));
}

} // verus!
