use tenki::weather::{WeatherKind, WindDirection};

#[test]
fn test_parse_weather_kind() {
    let w = WeatherKind::parse("晴れ");
    let e = WeatherKind::Sunny;
    assert_eq!(w, e);
    let w = WeatherKind::parse("曇り");
    let e = WeatherKind::Cloudy;
    assert_eq!(w, e);
    let w = WeatherKind::parse("雨");
    let e = WeatherKind::Rainy;
    assert_eq!(w, e);
    let w = WeatherKind::parse("弱雨");
    let e = WeatherKind::WeakRain;
    assert_eq!(w, e);

    let w = WeatherKind::parse("ひょう");
    let e = WeatherKind::Other("ひょう".to_owned());
    assert_eq!(w, e);
}

#[test]
fn test_display_weather_kind() {
    assert_eq!(WeatherKind::Sunny.label(), "晴れ".to_owned());
}

#[test]
fn test_parse_dir() {
    let d = WindDirection::parse("北").unwrap();
    let e = WindDirection::N;
    assert_eq!(d, e);
    let d = WindDirection::parse("北北西").unwrap();
    let e = WindDirection::NNW;
    assert_eq!(d, e);
}

#[test]
fn test_display_dir() {
    assert_eq!(WindDirection::N.label(), "北".to_owned());
}

const CONDITION_LABELS: [&str; 10] =
    ["晴れ", "曇り", "小雨", "弱雨", "雨", "強雨", "豪雨", "乾雪", "湿雪", "みぞれ"];

const DIRECTION_LABELS: [&str; 17] = [
    "北", "北北東", "北東", "東北東", "東", "東南東", "南東", "南南東", "南", "南南西", "南西",
    "西南西", "西", "西北西", "北西", "北北西", "静穏",
];

#[test]
fn condition_labels_round_trip() {
    for label in CONDITION_LABELS {
        let kind = WeatherKind::parse(label);
        assert!(!matches!(kind, WeatherKind::Other(_)), "{} is known", label);
        assert_eq!(kind.label(), label);
    }
}

#[test]
fn unknown_condition_round_trips_through_other() {
    let kind = WeatherKind::parse("霧");
    assert_eq!(kind, WeatherKind::Other("霧".to_owned()));
    assert_eq!(kind.label(), "霧");
}

#[test]
fn direction_labels_round_trip() {
    for label in DIRECTION_LABELS {
        let d = WindDirection::parse(label).unwrap();
        assert_eq!(d.label(), label);
    }
    assert_eq!(WindDirection::parse("静穏"), Some(WindDirection::Calm));
}

#[test]
fn unknown_direction_fails() {
    assert_eq!(WindDirection::parse("北北北"), None);
    assert_eq!(WindDirection::parse(""), None);
    assert_eq!(WindDirection::parse("N"), None);
}
