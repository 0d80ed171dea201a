use tenki::calendar::Date;
use tenki::document::{parse_forecast_page, Granularity};
use tenki::scrape::Error;
use tenki::weather::{Announce, WeatherKind, WindDirection};

fn section_html(id: &str, header: &str, hours: &[u32], extra_humidity: bool) -> String {
    let mut rows = String::new();
    rows.push_str(&format!("<tr class=\"head\"><td><div>{}</div></td></tr>", header));
    let mut hour = String::new();
    let mut kind = String::new();
    let mut temp = String::new();
    let mut prob = String::new();
    let mut precip = String::new();
    let mut humid = String::new();
    let mut dir = String::new();
    let mut speed = String::new();
    for (i, h) in hours.iter().enumerate() {
        let class = if i == 0 { " class=\"past\"" } else { "" };
        hour.push_str(&format!("<td><span{}>{:02}</span></td>", class, h));
        let k = if i + 1 == hours.len() { "---" } else { "曇り" };
        kind.push_str(&format!("<td><p>{}</p></td>", k));
        temp.push_str("<td>\n  12.5 </td>");
        prob.push_str("<td>30</td>");
        precip.push_str("<td>1</td>");
        humid.push_str("<td>70</td>");
        dir.push_str("<td><p>南南東</p></td>");
        speed.push_str("<td>2</td>");
    }
    if extra_humidity {
        humid.push_str("<td>71</td>");
    }
    rows.push_str(&format!("<tr class=\"hour\">{}</tr>", hour));
    rows.push_str(&format!("<tr class=\"weather\">{}</tr>", kind));
    rows.push_str(&format!("<tr class=\"temperature\">{}</tr>", temp));
    rows.push_str(&format!("<tr class=\"prob-precip\">{}</tr>", prob));
    rows.push_str(&format!("<tr class=\"precipitation\">{}</tr>", precip));
    rows.push_str(&format!("<tr class=\"humidity\">{}</tr>", humid));
    rows.push_str(&format!("<tr class=\"wind-blow\">{}</tr>", dir));
    rows.push_str(&format!("<tr class=\"wind-speed\">{}</tr>", speed));
    format!("<table id=\"{}\">{}</table>", id, rows)
}

fn page(mismatch_in_second: bool) -> String {
    let hours = [3, 6, 9, 12, 15, 18, 21, 24];
    format!(
        "<html><body><h2>つくば市の天気<time>10日11:00発表</time></h2>{}{}{}</body></html>",
        section_html("forecast-point-3h-today", "今日&nbsp;2024年03月10日(日)", &hours, false),
        section_html("forecast-point-3h-tomorrow", "明日&nbsp;03月11日(月)", &hours, mismatch_in_second),
        section_html("forecast-point-3h-dayaftertomorrow", "明後日", &hours, false),
    )
}

#[test]
fn three_section_page_gives_three_days() {
    let today = Date { year: 2024, month: 3, day: 10 };
    let days = parse_forecast_page(&page(false), Granularity::EveryThreeHours, today).unwrap();
    assert_eq!(days.len(), 3);
    assert_eq!(days[0].date, Date { year: 2024, month: 3, day: 10 });
    assert_eq!(days[1].date, Date { year: 2024, month: 3, day: 11 });
    assert_eq!(days[2].date, Date { year: 2024, month: 3, day: 12 });
    for d in days.iter() {
        assert_eq!(d.location, "つくば市の天気 (10日11:00発表)");
        let hs: Vec<u32> = d.weathers.iter().map(|(h, _)| *h).collect();
        assert_eq!(hs, vec![3, 6, 9, 12, 15, 18, 21, 0]);
        match &d.weathers[0].1 {
            Announce::Past(w) => {
                assert_eq!(w.kind, WeatherKind::Cloudy);
                assert_eq!(w.wind_direction, WindDirection::SSE);
                assert_eq!(w.prob_precip, Some(30));
                assert_eq!(w.temperature.mantissa, 125);
            }
            other => panic!("unexpected {:?}", other),
        }
        assert!(matches!(d.weathers[1].1, Announce::Regular(_)));
        assert!(matches!(d.weathers[7].1, Announce::NotYet));
    }
}

#[test]
fn mismatch_in_second_section_fails_page() {
    let today = Date { year: 2024, month: 3, day: 10 };
    let r = parse_forecast_page(&page(true), Granularity::EveryThreeHours, today);
    assert!(matches!(r, Err(Error::InvalidHtml { .. })));
}

#[test]
fn missing_section_fails_page() {
    let today = Date { year: 2024, month: 3, day: 10 };
    let r = parse_forecast_page(&page(false), Granularity::EveryHour, today);
    assert!(matches!(r, Err(Error::InvalidHtml { .. })));
    let r = parse_forecast_page("<html><body></body></html>", Granularity::EveryThreeHours, today);
    assert!(matches!(r, Err(Error::InvalidHtml { .. })));
}

#[test]
fn section_without_header_fails_page() {
    let today = Date { year: 2024, month: 3, day: 10 };
    let broken = page(false).replace("<tr class=\"head\">", "<tr class=\"top\">");
    let r = parse_forecast_page(&broken, Granularity::EveryThreeHours, today);
    match r {
        Err(Error::InvalidHtml { msg }) => assert_eq!(msg, "the section has no header"),
        other => panic!("unexpected {:?}", other),
    }
    let r = parse_forecast_page(
        "<html><body><h2>only one text</h2></body></html>",
        Granularity::EveryThreeHours,
        today,
    );
    match r {
        Err(Error::InvalidHtml { msg }) => assert_eq!(msg, "location, announced_time not found"),
        other => panic!("unexpected {:?}", other),
    }
}

#[test]
fn one_hour_view_reads_one_hour_sections() {
    let today = Date { year: 2024, month: 3, day: 10 };
    let one_hour = page(false).replace("-3h-", "-1h-");
    let days = parse_forecast_page(&one_hour, Granularity::EveryHour, today).unwrap();
    assert_eq!(days[2].date, Date { year: 2024, month: 3, day: 12 });
    let r = parse_forecast_page(&one_hour, Granularity::EveryThreeHours, today);
    match r {
        Err(Error::InvalidHtml { msg }) => {
            assert_eq!(msg, "section not found: #forecast-point-3h-today")
        }
        other => panic!("unexpected {:?}", other),
    }
}
