//! How forecasts are shown: a color for each condition and Japanese names of
//! the days of the week.
use vstd::prelude::*;
use crate::weather::{Condition, WeatherKind};

verus! {

/// The color (red, green, blue) in which a condition is shown.
pub open spec fn condition_color(c: Condition) -> (u8, u8, u8) {
    match c {
        Condition::Sunny => (255, 159, 33),
        Condition::Cloudy => (194, 189, 182),
        Condition::LittleRain => (85, 208, 242),
        Condition::WeakRain => (85, 150, 242),
        Condition::Rainy => (0, 106, 255),
        Condition::HeavyRain => (143, 74, 255),
        Condition::Storm => (255, 18, 97),
        Condition::DrySnow => (64, 219, 154),
        Condition::WetSnow => (108, 224, 211),
        Condition::Sleet => (139, 180, 247),
        Condition::Other(_) => (255, 18, 180),
    }
}

/// The color in which a condition is shown.
pub fn weather_color(kind: &WeatherKind) -> (r: (u8, u8, u8))
    ensures
        r == condition_color(kind@),
{
    match kind {
        WeatherKind::Sunny => (255, 159, 33),
        WeatherKind::Cloudy => (194, 189, 182),
        WeatherKind::LittleRain => (85, 208, 242),
        WeatherKind::WeakRain => (85, 150, 242),
        WeatherKind::Rainy => (0, 106, 255),
        WeatherKind::HeavyRain => (143, 74, 255),
        WeatherKind::Storm => (255, 18, 97),
        WeatherKind::DrySnow => (64, 219, 154),
        WeatherKind::WetSnow => (108, 224, 211),
        WeatherKind::Sleet => (139, 180, 247),
        WeatherKind::Other(_) => (255, 18, 180),
    }
}

/// The one-character Japanese name of a day of the week, counted from Monday.
pub open spec fn weekday_name(days_from_monday: nat) -> Seq<char> {
    if days_from_monday == 0 {
        "月"@
    } else if days_from_monday == 1 {
        "火"@
    } else if days_from_monday == 2 {
        "水"@
    } else if days_from_monday == 3 {
        "木"@
    } else if days_from_monday == 4 {
        "金"@
    } else if days_from_monday == 5 {
        "土"@
    } else {
        "日"@
    }
}

/// The Japanese name of a day of the week, counted from Monday (0) to
/// Sunday (6).
pub fn japanese_weekday(days_from_monday: u32) -> (r: String)
    requires
        days_from_monday < 7,
    ensures
        r@ == weekday_name(days_from_monday as nat),
{
    match days_from_monday {
        0 => String::from_str("月"),
        1 => String::from_str("火"),
        2 => String::from_str("水"),
        3 => String::from_str("木"),
        4 => String::from_str("金"),
        5 => String::from_str("土"),
        _ => String::from_str("日"),
    }
}

} // verus!
