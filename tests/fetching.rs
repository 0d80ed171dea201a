use tenki::calendar::Date;
use tenki::document::Granularity;
use tenki::fetch::{
    begin_fetch, cache_freshness, finish_fetch, forecast_address, CachedSnapshot, FetchStep,
    Freshness, HttpResponse,
};
use tenki::scrape::Error;
use tenki::weather::DailyForecast;

#[test]
fn cache_gate_window() {
    let loc = "3/11/4020/8220";
    assert_eq!(cache_freshness(loc, loc, 59 * 60), Freshness::Fresh);
    assert_eq!(cache_freshness(loc, loc, 61 * 60), Freshness::Stale);
    assert_eq!(cache_freshness(loc, loc, 3600), Freshness::Stale);
    assert_eq!(cache_freshness(loc, "3/16/4410/13101", 59 * 60), Freshness::Stale);
    assert_eq!(cache_freshness(loc, "3/16/4410/13101", 61 * 60), Freshness::Stale);
}

#[test]
fn forecast_addresses() {
    assert_eq!(
        forecast_address("3/11/4020/8220", Granularity::EveryThreeHours).unwrap(),
        "https://tenki.jp/forecast/3/11/4020/8220/3hours.html"
    );
    assert_eq!(
        forecast_address("3/11/4020/8220", Granularity::EveryHour).unwrap(),
        "https://tenki.jp/forecast/3/11/4020/8220/1hour.html"
    );
    assert_eq!(
        forecast_address("a b", Granularity::EveryHour).unwrap(),
        "https://tenki.jp/forecast/a%20b/1hour.html"
    );
}

fn empty_day() -> DailyForecast {
    DailyForecast {
        location: String::new(),
        date: Date { year: 2024, month: 3, day: 10 },
        weathers: Vec::new(),
    }
}

fn snapshot(location: &str, fetched_at: i64) -> CachedSnapshot {
    CachedSnapshot {
        days: [empty_day(), empty_day(), empty_day()],
        location: location.to_owned(),
        fetched_at,
    }
}

#[test]
fn begin_fetch_serves_fresh_cache() {
    let loc = "3/11/4020/8220";
    let now = 1_700_000_000;
    let s = snapshot(loc, now - 59 * 60);
    assert!(matches!(begin_fetch(loc, Granularity::EveryThreeHours, Some(&s), now), FetchStep::UseCache));
    let s = snapshot(loc, now - 61 * 60);
    match begin_fetch(loc, Granularity::EveryThreeHours, Some(&s), now) {
        FetchStep::Request { url } => {
            assert_eq!(url, "https://tenki.jp/forecast/3/11/4020/8220/3hours.html")
        }
        _ => panic!("expected a request"),
    }
    let s = snapshot("3/16/4410/13101", now - 60);
    assert!(matches!(begin_fetch(loc, Granularity::EveryHour, Some(&s), now), FetchStep::Request { .. }));
    let s = snapshot(loc, now + 60);
    assert!(matches!(begin_fetch(loc, Granularity::EveryHour, Some(&s), now), FetchStep::Request { .. }));
    assert!(matches!(begin_fetch(loc, Granularity::EveryHour, None, now), FetchStep::Request { .. }));
}

#[test]
fn finish_fetch_classifies_failures() {
    let today = Date { year: 2024, month: 3, day: 10 };
    match finish_fetch(Err("connection refused".to_owned()), Granularity::EveryHour, today) {
        Err(Error::NetworkError { msg }) => assert_eq!(msg, "connection refused"),
        other => panic!("unexpected {:?}", other),
    }
    let resp = HttpResponse { status: 404, body: String::new() };
    assert!(matches!(
        finish_fetch(Ok(resp), Granularity::EveryHour, today),
        Err(Error::NetworkError { .. })
    ));
    let resp = HttpResponse { status: 200, body: "<html></html>".to_owned() };
    assert!(matches!(
        finish_fetch(Ok(resp), Granularity::EveryHour, today),
        Err(Error::InvalidHtml { .. })
    ));
}

#[test]
fn error_messages() {
    assert_eq!(Error::InvalidLocation.message(), "Invalid Location");
    assert_eq!(
        Error::NetworkError { msg: "timed out".to_owned() }.message(),
        "Network Error: timed out"
    );
    assert_eq!(
        Error::InvalidHtml { msg: "section not found".to_owned() }.message(),
        "Invalid HTML: section not found"
    );
}
