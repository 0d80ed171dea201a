//! The decisions around fetching a forecast: where to ask, whether a cached
//! forecast may be served instead, and what an answer gives.
use vstd::prelude::*;
use crate::calendar::Date;
use crate::document::{page_forecast, parse_forecast_page, Granularity};
use crate::scrape::{days_view, Error};
use crate::text::str_eq;
use crate::weather::DailyForecast;

verus! {

/// What `reqwest::Url::parse` makes of a text: the URL in its serialized
/// form, or `None` when the text is not a URL.
pub uninterp spec fn parsed_url(s: Seq<char>) -> Option<Seq<char>>;

/// Relies on reqwest::Url::parse (the url crate's `Url::parse`), whose
/// result depends on the text alone; a URL is handed on in its serialized
/// form (`Url::as_str`).
#[verifier::external_body]
fn parse_url(s: &str) -> (r: Option<String>)
    ensures
        match r {
            Some(u) => parsed_url(s@) == Some(u@),
            None => parsed_url(s@) is None,
        },
{
    reqwest::Url::parse(s).ok().map(|u| u.as_str().to_string())
}

/// The address of the forecast page of a location.
pub open spec fn forecast_url(location: Seq<char>, granularity: Granularity) -> Seq<char> {
    "https://tenki.jp/forecast/"@ + location + match granularity {
        Granularity::EveryHour => "/1hour.html"@,
        Granularity::EveryThreeHours => "/3hours.html"@,
    }
}

/// The address of the forecast page of `location`, or `InvalidLocation`
/// when that is no URL.
pub fn forecast_address(location: &str, granularity: Granularity) -> (r: Result<String, Error>)
    ensures
        match parsed_url(forecast_url(location@, granularity)) {
            Some(u) => r matches Ok(s) && s@ == u,
            None => r matches Err(e) && e is InvalidLocation,
        },
{
    let mut url = String::from_str("https://tenki.jp/forecast/");
    url.append(location);
    match granularity {
        Granularity::EveryHour => url.append("/1hour.html"),
        Granularity::EveryThreeHours => url.append("/3hours.html"),
    }
    match parse_url(url.as_str()) {
        Some(u) => Ok(u),
        None => Err(Error::InvalidLocation),
    }
}

/// How long, in seconds, a cached forecast may be served.
pub const FRESHNESS_WINDOW_SECS: u64 = 3600;

/// Whether a cached forecast may be served.
#[derive(Clone, Copy, Debug, PartialEq, Eq, Structural)]
pub enum Freshness {
    Fresh,
    Stale,
}

/// A cached forecast is fresh when it is for the requested location and
/// younger than the freshness window.
pub open spec fn freshness(requested: Seq<char>, cached: Seq<char>, age_secs: int) -> Freshness {
    if requested == cached && 0 <= age_secs < FRESHNESS_WINDOW_SECS {
        Freshness::Fresh
    } else {
        Freshness::Stale
    }
}

/// Whether a forecast cached for `cached_location`, `age_secs` seconds ago,
/// may be served for `requested`.
pub fn cache_freshness(requested: &str, cached_location: &str, age_secs: u64) -> (r: Freshness)
    ensures
        r == freshness(requested@, cached_location@, age_secs as int),
{
    if str_eq(requested, cached_location) && age_secs < FRESHNESS_WINDOW_SECS {
        Freshness::Fresh
    } else {
        Freshness::Stale
    }
}

/// A forecast kept from an earlier fetch: the location it was fetched for
/// and when, in seconds since the Unix epoch.
pub struct CachedSnapshot {
    pub days: [DailyForecast; 3],
    pub location: String,
    pub fetched_at: i64,
}

/// Whether the snapshot, if there is one, may be served at time `now`. One
/// stamped later than `now` is stale.
pub open spec fn snapshot_freshness(requested: Seq<char>, snapshot: Option<&CachedSnapshot>, now: i64) -> Freshness {
    match snapshot {
        Some(s) => freshness(requested, s.location@, now - s.fetched_at),
        None => Freshness::Stale,
    }
}

/// What to do first for a forecast request.
pub enum FetchStep {
    /// Serve the cached snapshot.
    UseCache,
    /// Ask the network for the page at this address.
    Request { url: String },
    /// Give up with this error.
    Fail(Error),
}

/// Decides, from the cache, whether the network must be asked, and where.
pub fn begin_fetch(location: &str, granularity: Granularity, snapshot: Option<&CachedSnapshot>, now: i64) -> (r:
    FetchStep)
    ensures
        snapshot_freshness(location@, snapshot, now) is Fresh ==> r is UseCache,
        snapshot_freshness(location@, snapshot, now) is Stale ==> match parsed_url(
            forecast_url(location@, granularity),
        ) {
            Some(u) => r matches FetchStep::Request { url } && url@ == u,
            None => r matches FetchStep::Fail(e) && e is InvalidLocation,
        },
{
    if let Some(s) = snapshot {
        if s.fetched_at <= now {
            let age = now as i128 - s.fetched_at as i128;
            if age < FRESHNESS_WINDOW_SECS as i128 {
                if cache_freshness(location, s.location.as_str(), age as u64) == Freshness::Fresh {
                    return FetchStep::UseCache;
                }
            }
        }
    }
    match forecast_address(location, granularity) {
        Ok(url) => FetchStep::Request { url },
        Err(e) => FetchStep::Fail(e),
    }
}

/// What came back from the network: the HTTP status and the body.
pub struct HttpResponse {
    pub status: u16,
    pub body: String,
}

pub open spec fn is_success(status: u16) -> bool {
    200 <= status <= 299
}

/// Turns the network's answer into the forecast: a transport failure or an
/// unsuccessful status is a `NetworkError` (a transport message is kept as it
/// is); otherwise the body is read as a forecast page.
pub fn finish_fetch(response: Result<HttpResponse, String>, granularity: Granularity, today: Date) -> (r:
    Result<[DailyForecast; 3], Error>)
    requires
        today.wf(),
    ensures
        match response {
            Err(m) => r matches Err(Error::NetworkError { msg }) && msg@ == m@,
            Ok(resp) => if is_success(resp.status) {
                match page_forecast(resp.body@, granularity, today) {
                    Some(v) => r matches Ok(days) && days_view(days) == v,
                    None => r matches Err(e) && e is InvalidHtml,
                }
            } else {
                r matches Err(e) && e is NetworkError
            },
        },
{
    match response {
        Err(msg) => Err(Error::NetworkError { msg }),
        Ok(resp) => if resp.status < 200 || resp.status > 299 {
            Err(Error::NetworkError { msg: String::from_str("the server did not answer with success") })
        } else {
            parse_forecast_page(resp.body.as_str(), granularity, today)
        },
    }
}

} // verus!
