use tenki::calendar::Date;
use tenki::numbers::Temperature;
use tenki::scrape::{assemble_forecast, assemble_section, read_slot, Error, HourCell, SectionCells};
use tenki::weather::{Announce, Weather, WeatherKind, WindDirection};

fn s(t: &str) -> String {
    t.to_owned()
}

fn hour(text: &str, past: bool) -> HourCell {
    HourCell { text: s(text), past }
}

fn slot(h: HourCell, cells: [&str; 7]) -> Result<(u32, Announce), Error> {
    read_slot(
        &h,
        &s(cells[0]),
        &s(cells[1]),
        &s(cells[2]),
        &s(cells[3]),
        &s(cells[4]),
        &s(cells[5]),
        &s(cells[6]),
    )
}

fn section(header: &str, hours: &[&str]) -> SectionCells {
    let n = hours.len();
    SectionCells {
        header: s(header),
        hours: hours.iter().map(|h| hour(h, false)).collect(),
        kinds: vec![s("晴れ"); n],
        temperatures: vec![s("10.5"); n],
        prob_precips: vec![s("20"); n],
        precipitations: vec![s("0"); n],
        humidities: vec![s("60"); n],
        wind_directions: vec![s("北西"); n],
        wind_speeds: vec![s("3"); n],
    }
}

fn sunny() -> Weather {
    Weather {
        kind: WeatherKind::Sunny,
        temperature: Temperature { negative: false, mantissa: 105, scale: 1 },
        prob_precip: Some(20),
        precipitation: 0,
        humidity: 60,
        wind_direction: WindDirection::NW,
        wind_speed: 3,
    }
}

#[test]
fn hour_twenty_four_is_stored_as_zero() {
    let r = slot(hour("24", false), ["晴れ", "10.5", "20", "0", "60", "北西", "3"]).unwrap();
    assert_eq!(r, (0, Announce::Regular(sunny())));
}

#[test]
fn not_yet_mark_ignores_malformed_cells() {
    let r = slot(hour("15", false), ["---", "x", "y", "z", "w", "どこか", "v"]).unwrap();
    assert_eq!(r, (15, Announce::NotYet));
    let r = slot(hour("27", true), ["---", "", "", "", "", "", ""]).unwrap();
    assert_eq!(r, (3, Announce::NotYet));
}

#[test]
fn past_hours_are_marked_past() {
    let r = slot(hour("3", true), ["晴れ", "10.5", "20", "0", "60", "北西", "3"]).unwrap();
    assert_eq!(r, (3, Announce::Past(sunny())));
}

#[test]
fn missing_probability_is_absent() {
    let r = slot(hour("6", false), ["霧", "-2", "---", "1", "90", "静穏", "0"]).unwrap();
    let w = Weather {
        kind: WeatherKind::Other(s("霧")),
        temperature: Temperature { negative: true, mantissa: 2, scale: 0 },
        prob_precip: None,
        precipitation: 1,
        humidity: 90,
        wind_direction: WindDirection::Calm,
        wind_speed: 0,
    };
    assert_eq!(r, (6, Announce::Regular(w)));
}

#[test]
fn unreadable_mandatory_cells_fail() {
    let good = ["晴れ", "10.5", "20", "0", "60", "北西", "3"];
    assert!(matches!(slot(hour("x", false), good), Err(Error::InvalidHtml { .. })));
    for (k, name) in [
        (1usize, "temperature"),
        (3, "precipitation"),
        (4, "humidity"),
        (5, "wind direction"),
        (6, "wind speed"),
    ] {
        let mut cells = good;
        cells[k] = "?";
        match slot(hour("3", false), cells) {
            Err(Error::InvalidHtml { msg }) => {
                assert_eq!(msg, format!("cannot read the {} cell: ?", name))
            }
            other => panic!("unexpected {:?}", other),
        }
    }
    match slot(hour("x", false), ["晴れ", "?", "20", "0", "60", "北西", "3"]) {
        Err(Error::InvalidHtml { msg }) => assert_eq!(msg, "cannot read the hour cell: x"),
        other => panic!("unexpected {:?}", other),
    }
}

#[test]
fn column_length_mismatch_fails_section() {
    let mut c = section("3月10日", &["3", "6"]);
    c.humidities.pop();
    let r = assemble_section(&c, "つくば", Date { year: 2024, month: 3, day: 10 }, None);
    match r {
        Err(Error::InvalidHtml { msg }) => {
            assert_eq!(msg, "the humidity row does not match the hours")
        }
        other => panic!("unexpected {:?}", other),
    }
}

#[test]
fn section_without_date_and_no_previous_fails() {
    let c = section("明後日", &["3", "6"]);
    let r = assemble_section(&c, "つくば", Date { year: 2024, month: 3, day: 10 }, None);
    match r {
        Err(Error::InvalidHtml { msg }) => assert_eq!(msg, "the section header gives no date"),
        other => panic!("unexpected {:?}", other),
    }
}

#[test]
fn first_unreadable_column_is_named() {
    let mut c = section("3月10日", &["3", "6", "9"]);
    c.wind_speeds[1] = s("強い");
    c.humidities[2] = s("多い");
    let r = assemble_section(&c, "つくば", Date { year: 2024, month: 3, day: 10 }, None);
    match r {
        Err(Error::InvalidHtml { msg }) => assert_eq!(msg, "cannot read the wind speed cell: 強い"),
        other => panic!("unexpected {:?}", other),
    }
}

#[test]
fn section_without_date_follows_previous() {
    let c = section("明後日", &["3", "6"]);
    let today = Date { year: 2024, month: 3, day: 10 };
    let d = assemble_section(&c, "つくば", today, Some(Date { year: 2024, month: 3, day: 10 })).unwrap();
    assert_eq!(d.date, Date { year: 2024, month: 3, day: 11 });
    assert_eq!(d.location, "つくば");
    assert_eq!(d.weathers.len(), 2);
}

#[test]
fn three_sections_assemble_in_order() {
    let today = Date { year: 2024, month: 12, day: 31 };
    let hours = ["3", "6", "9", "12", "15", "18", "21", "24"];
    let days = assemble_forecast(
        "つくば",
        &section("今日 12月31日", &hours),
        &section("明日 1月1日", &hours),
        &section("明後日", &hours),
        today,
    )
    .unwrap();
    assert_eq!(days[0].date, Date { year: 2024, month: 12, day: 31 });
    assert_eq!(days[1].date, Date { year: 2025, month: 1, day: 1 });
    assert_eq!(days[2].date, Date { year: 2025, month: 1, day: 2 });
    for d in days.iter() {
        let hs: Vec<u32> = d.weathers.iter().map(|(h, _)| *h).collect();
        assert_eq!(hs, vec![3, 6, 9, 12, 15, 18, 21, 0]);
    }
}

#[test]
fn mismatch_in_second_section_fails_everything() {
    let today = Date { year: 2024, month: 3, day: 10 };
    let mut second = section("明日 3月11日", &["3", "6"]);
    second.wind_speeds.push(s("4"));
    let r = assemble_forecast(
        "つくば",
        &section("今日 3月10日", &["3", "6"]),
        &second,
        &section("明後日 3月12日", &["3", "6"]),
        today,
    );
    assert!(matches!(r, Err(Error::InvalidHtml { .. })));
}
