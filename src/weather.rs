//! Weather vocabulary (conditions, wind directions) and the records that a
//! forecast is made of.
use vstd::prelude::*;
use crate::calendar::Date;
use crate::numbers::Temperature;
use crate::text::str_eq;

verus! {

/// A weather condition as the forecast names it.
#[derive(Debug, Clone, PartialEq, Eq)]
pub enum WeatherKind {
    Sunny,
    Cloudy,
    LittleRain,
    WeakRain,
    Rainy,
    HeavyRain,
    Storm,
    DrySnow,
    WetSnow,
    Sleet,
    /// A label outside the known vocabulary, kept as it was written.
    Other(String),
}

/// The mathematical value of a `WeatherKind`.
pub enum Condition {
    Sunny,
    Cloudy,
    LittleRain,
    WeakRain,
    Rainy,
    HeavyRain,
    Storm,
    DrySnow,
    WetSnow,
    Sleet,
    Other(Seq<char>),
}

impl View for WeatherKind {
    type V = Condition;

    open spec fn view(&self) -> Condition {
        match self {
            WeatherKind::Sunny => Condition::Sunny,
            WeatherKind::Cloudy => Condition::Cloudy,
            WeatherKind::LittleRain => Condition::LittleRain,
            WeatherKind::WeakRain => Condition::WeakRain,
            WeatherKind::Rainy => Condition::Rainy,
            WeatherKind::HeavyRain => Condition::HeavyRain,
            WeatherKind::Storm => Condition::Storm,
            WeatherKind::DrySnow => Condition::DrySnow,
            WeatherKind::WetSnow => Condition::WetSnow,
            WeatherKind::Sleet => Condition::Sleet,
            WeatherKind::Other(s) => Condition::Other(s@),
        }
    }
}

/// The label of a condition.
pub open spec fn condition_label(c: Condition) -> Seq<char> {
    match c {
        Condition::Sunny => "晴れ"@,
        Condition::Cloudy => "曇り"@,
        Condition::LittleRain => "小雨"@,
        Condition::WeakRain => "弱雨"@,
        Condition::Rainy => "雨"@,
        Condition::HeavyRain => "強雨"@,
        Condition::Storm => "豪雨"@,
        Condition::DrySnow => "乾雪"@,
        Condition::WetSnow => "湿雪"@,
        Condition::Sleet => "みぞれ"@,
        Condition::Other(s) => s,
    }
}

/// The condition that a label names: a known one, or `Other` with the label.
pub open spec fn condition_of(s: Seq<char>) -> Condition {
    if s == "晴れ"@ {
        Condition::Sunny
    } else if s == "曇り"@ {
        Condition::Cloudy
    } else if s == "小雨"@ {
        Condition::LittleRain
    } else if s == "弱雨"@ {
        Condition::WeakRain
    } else if s == "雨"@ {
        Condition::Rainy
    } else if s == "強雨"@ {
        Condition::HeavyRain
    } else if s == "豪雨"@ {
        Condition::Storm
    } else if s == "乾雪"@ {
        Condition::DrySnow
    } else if s == "湿雪"@ {
        Condition::WetSnow
    } else if s == "みぞれ"@ {
        Condition::Sleet
    } else {
        Condition::Other(s)
    }
}

impl WeatherKind {
    /// Reads a condition label; a label outside the vocabulary gives `Other`.
    pub fn parse(s: &str) -> (r: WeatherKind)
        ensures
            r@ == condition_of(s@),
    {
        if str_eq(s, "晴れ") {
            WeatherKind::Sunny
        } else if str_eq(s, "曇り") {
            WeatherKind::Cloudy
        } else if str_eq(s, "小雨") {
            WeatherKind::LittleRain
        } else if str_eq(s, "弱雨") {
            WeatherKind::WeakRain
        } else if str_eq(s, "雨") {
            WeatherKind::Rainy
        } else if str_eq(s, "強雨") {
            WeatherKind::HeavyRain
        } else if str_eq(s, "豪雨") {
            WeatherKind::Storm
        } else if str_eq(s, "乾雪") {
            WeatherKind::DrySnow
        } else if str_eq(s, "湿雪") {
            WeatherKind::WetSnow
        } else if str_eq(s, "みぞれ") {
            WeatherKind::Sleet
        } else {
            WeatherKind::Other(String::from_str(s))
        }
    }

    /// The label of this condition.
    pub fn label(&self) -> (r: String)
        ensures
            r@ == condition_label(self@),
    {
        match self {
            WeatherKind::Sunny => String::from_str("晴れ"),
            WeatherKind::Cloudy => String::from_str("曇り"),
            WeatherKind::LittleRain => String::from_str("小雨"),
            WeatherKind::WeakRain => String::from_str("弱雨"),
            WeatherKind::Rainy => String::from_str("雨"),
            WeatherKind::HeavyRain => String::from_str("強雨"),
            WeatherKind::Storm => String::from_str("豪雨"),
            WeatherKind::DrySnow => String::from_str("乾雪"),
            WeatherKind::WetSnow => String::from_str("湿雪"),
            WeatherKind::Sleet => String::from_str("みぞれ"),
            WeatherKind::Other(s) => s.clone(),
        }
    }
}

/// Reading a label and writing it back gives the label, known or not.
pub proof fn lemma_condition_round_trip(s: Seq<char>)
    ensures
        condition_label(condition_of(s)) == s,
{
}

/// Writing a known condition and reading the label back gives the condition.
pub proof fn lemma_condition_label_round_trip(c: Condition)
    requires
        !(c is Other),
    ensures
        condition_of(condition_label(c)) == c,
{
    reveal_strlit("晴れ");
    reveal_strlit("曇り");
    reveal_strlit("小雨");
    reveal_strlit("弱雨");
    reveal_strlit("雨");
    reveal_strlit("強雨");
    reveal_strlit("豪雨");
    reveal_strlit("乾雪");
    reveal_strlit("湿雪");
    reveal_strlit("みぞれ");
    assert("晴れ"@[0] == '晴');
    assert("曇り"@[0] == '曇');
    assert("小雨"@[0] == '小');
    assert("弱雨"@[0] == '弱');
    assert("雨"@[0] == '雨');
    assert("強雨"@[0] == '強');
    assert("豪雨"@[0] == '豪');
    assert("乾雪"@[0] == '乾');
    assert("湿雪"@[0] == '湿');
    assert("みぞれ"@[0] == 'み');
}

/// A label outside the vocabulary reads as `Other`, with the label kept.
pub proof fn lemma_unknown_condition(s: Seq<char>)
    requires
        forall|c: Condition| !(c is Other) ==> condition_label(c) != s,
    ensures
        condition_of(s) == Condition::Other(s),
{
    assert(condition_label(Condition::Sunny) != s);
    assert(condition_label(Condition::Cloudy) != s);
    assert(condition_label(Condition::LittleRain) != s);
    assert(condition_label(Condition::WeakRain) != s);
    assert(condition_label(Condition::Rainy) != s);
    assert(condition_label(Condition::HeavyRain) != s);
    assert(condition_label(Condition::Storm) != s);
    assert(condition_label(Condition::DrySnow) != s);
    assert(condition_label(Condition::WetSnow) != s);
    assert(condition_label(Condition::Sleet) != s);
}

/// A wind direction: one of sixteen compass points, or calm.
#[derive(Clone, Copy, Debug, PartialEq, Eq, Structural)]
pub enum WindDirection {
    N,
    NNE,
    NE,
    ENE,
    E,
    ESE,
    SE,
    SSE,
    S,
    SSW,
    SW,
    WSW,
    W,
    WNW,
    NW,
    NNW,
    Calm,
}

/// The label of a wind direction.
pub open spec fn direction_label(d: WindDirection) -> Seq<char> {
    match d {
        WindDirection::N => "北"@,
        WindDirection::NNE => "北北東"@,
        WindDirection::NE => "北東"@,
        WindDirection::ENE => "東北東"@,
        WindDirection::E => "東"@,
        WindDirection::ESE => "東南東"@,
        WindDirection::SE => "南東"@,
        WindDirection::SSE => "南南東"@,
        WindDirection::S => "南"@,
        WindDirection::SSW => "南南西"@,
        WindDirection::SW => "南西"@,
        WindDirection::WSW => "西南西"@,
        WindDirection::W => "西"@,
        WindDirection::WNW => "西北西"@,
        WindDirection::NW => "北西"@,
        WindDirection::NNW => "北北西"@,
        WindDirection::Calm => "静穏"@,
    }
}

/// The wind direction that a label names, if any.
pub open spec fn direction_of(s: Seq<char>) -> Option<WindDirection> {
    if s == "北"@ {
        Some(WindDirection::N)
    } else if s == "北北東"@ {
        Some(WindDirection::NNE)
    } else if s == "北東"@ {
        Some(WindDirection::NE)
    } else if s == "東北東"@ {
        Some(WindDirection::ENE)
    } else if s == "東"@ {
        Some(WindDirection::E)
    } else if s == "東南東"@ {
        Some(WindDirection::ESE)
    } else if s == "南東"@ {
        Some(WindDirection::SE)
    } else if s == "南南東"@ {
        Some(WindDirection::SSE)
    } else if s == "南"@ {
        Some(WindDirection::S)
    } else if s == "南南西"@ {
        Some(WindDirection::SSW)
    } else if s == "南西"@ {
        Some(WindDirection::SW)
    } else if s == "西南西"@ {
        Some(WindDirection::WSW)
    } else if s == "西"@ {
        Some(WindDirection::W)
    } else if s == "西北西"@ {
        Some(WindDirection::WNW)
    } else if s == "北西"@ {
        Some(WindDirection::NW)
    } else if s == "北北西"@ {
        Some(WindDirection::NNW)
    } else if s == "静穏"@ {
        Some(WindDirection::Calm)
    } else {
        None
    }
}

impl WindDirection {
    /// Reads a wind direction label; `None` for a label outside the vocabulary.
    pub fn parse(s: &str) -> (r: Option<WindDirection>)
        ensures
            r == direction_of(s@),
    {
        if str_eq(s, "北") {
            Some(WindDirection::N)
        } else if str_eq(s, "北北東") {
            Some(WindDirection::NNE)
        } else if str_eq(s, "北東") {
            Some(WindDirection::NE)
        } else if str_eq(s, "東北東") {
            Some(WindDirection::ENE)
        } else if str_eq(s, "東") {
            Some(WindDirection::E)
        } else if str_eq(s, "東南東") {
            Some(WindDirection::ESE)
        } else if str_eq(s, "南東") {
            Some(WindDirection::SE)
        } else if str_eq(s, "南南東") {
            Some(WindDirection::SSE)
        } else if str_eq(s, "南") {
            Some(WindDirection::S)
        } else if str_eq(s, "南南西") {
            Some(WindDirection::SSW)
        } else if str_eq(s, "南西") {
            Some(WindDirection::SW)
        } else if str_eq(s, "西南西") {
            Some(WindDirection::WSW)
        } else if str_eq(s, "西") {
            Some(WindDirection::W)
        } else if str_eq(s, "西北西") {
            Some(WindDirection::WNW)
        } else if str_eq(s, "北西") {
            Some(WindDirection::NW)
        } else if str_eq(s, "北北西") {
            Some(WindDirection::NNW)
        } else if str_eq(s, "静穏") {
            Some(WindDirection::Calm)
        } else {
            None
        }
    }

    /// The label of this direction.
    pub fn label(&self) -> (r: String)
        ensures
            r@ == direction_label(*self),
    {
        match self {
            WindDirection::N => String::from_str("北"),
            WindDirection::NNE => String::from_str("北北東"),
            WindDirection::NE => String::from_str("北東"),
            WindDirection::ENE => String::from_str("東北東"),
            WindDirection::E => String::from_str("東"),
            WindDirection::ESE => String::from_str("東南東"),
            WindDirection::SE => String::from_str("南東"),
            WindDirection::SSE => String::from_str("南南東"),
            WindDirection::S => String::from_str("南"),
            WindDirection::SSW => String::from_str("南南西"),
            WindDirection::SW => String::from_str("南西"),
            WindDirection::WSW => String::from_str("西南西"),
            WindDirection::W => String::from_str("西"),
            WindDirection::WNW => String::from_str("西北西"),
            WindDirection::NW => String::from_str("北西"),
            WindDirection::NNW => String::from_str("北北西"),
            WindDirection::Calm => String::from_str("静穏"),
        }
    }
}

/// Writing a direction and reading the label back gives the direction.
pub proof fn lemma_direction_round_trip(d: WindDirection)
    ensures
        direction_of(direction_label(d)) == Some(d),
{
    reveal_strlit("北");
    reveal_strlit("北北東");
    reveal_strlit("北東");
    reveal_strlit("東北東");
    reveal_strlit("東");
    reveal_strlit("東南東");
    reveal_strlit("南東");
    reveal_strlit("南南東");
    reveal_strlit("南");
    reveal_strlit("南南西");
    reveal_strlit("南西");
    reveal_strlit("西南西");
    reveal_strlit("西");
    reveal_strlit("西北西");
    reveal_strlit("北西");
    reveal_strlit("北北西");
    reveal_strlit("静穏");
    assert("北"@.len() == 1);
    assert("北"@[0] == '北');
    assert("北北東"@.len() == 3);
    assert("北北東"@[0] == '北');
    assert("北北東"@[1] == '北');
    assert("北北東"@[2] == '東');
    assert("北東"@.len() == 2);
    assert("北東"@[0] == '北');
    assert("北東"@[1] == '東');
    assert("東北東"@.len() == 3);
    assert("東北東"@[0] == '東');
    assert("東北東"@[1] == '北');
    assert("東北東"@[2] == '東');
    assert("東"@.len() == 1);
    assert("東"@[0] == '東');
    assert("東南東"@.len() == 3);
    assert("東南東"@[0] == '東');
    assert("東南東"@[1] == '南');
    assert("東南東"@[2] == '東');
    assert("南東"@.len() == 2);
    assert("南東"@[0] == '南');
    assert("南東"@[1] == '東');
    assert("南南東"@.len() == 3);
    assert("南南東"@[0] == '南');
    assert("南南東"@[1] == '南');
    assert("南南東"@[2] == '東');
    assert("南"@.len() == 1);
    assert("南"@[0] == '南');
    assert("南南西"@.len() == 3);
    assert("南南西"@[0] == '南');
    assert("南南西"@[1] == '南');
    assert("南南西"@[2] == '西');
    assert("南西"@.len() == 2);
    assert("南西"@[0] == '南');
    assert("南西"@[1] == '西');
    assert("西南西"@.len() == 3);
    assert("西南西"@[0] == '西');
    assert("西南西"@[1] == '南');
    assert("西南西"@[2] == '西');
    assert("西"@.len() == 1);
    assert("西"@[0] == '西');
    assert("西北西"@.len() == 3);
    assert("西北西"@[0] == '西');
    assert("西北西"@[1] == '北');
    assert("西北西"@[2] == '西');
    assert("北西"@.len() == 2);
    assert("北西"@[0] == '北');
    assert("北西"@[1] == '西');
    assert("北北西"@.len() == 3);
    assert("北北西"@[0] == '北');
    assert("北北西"@[1] == '北');
    assert("北北西"@[2] == '西');
    assert("静穏"@.len() == 2);
    assert("静穏"@[0] == '静');
    assert("静穏"@[1] == '穏');
}

/// Reading a label that names a direction and writing it back gives the label;
/// a label outside the vocabulary names none.
pub proof fn lemma_direction_label_round_trip(s: Seq<char>)
    ensures
        match direction_of(s) {
            Some(d) => direction_label(d) == s,
            None => forall|d: WindDirection| direction_label(d) != s,
        },
{
    if direction_of(s) is None {
        assert forall|d: WindDirection| direction_label(d) != s by {
            match d {
                WindDirection::N => {},
                WindDirection::NNE => {},
                WindDirection::NE => {},
                WindDirection::ENE => {},
                WindDirection::E => {},
                WindDirection::ESE => {},
                WindDirection::SE => {},
                WindDirection::SSE => {},
                WindDirection::S => {},
                WindDirection::SSW => {},
                WindDirection::SW => {},
                WindDirection::WSW => {},
                WindDirection::W => {},
                WindDirection::WNW => {},
                WindDirection::NW => {},
                WindDirection::NNW => {},
                WindDirection::Calm => {},
            }
        }
    }
}

/// One hourly reading.
#[derive(Debug, Clone, PartialEq)]
pub struct Weather {
    pub kind: WeatherKind,
    /// In degrees Celsius.
    pub temperature: Temperature,
    /// Probability of precipitation in percent, when the forecast gives one.
    pub prob_precip: Option<u8>,
    /// In mm/h.
    pub precipitation: u32,
    /// In percent.
    pub humidity: u32,
    pub wind_direction: WindDirection,
    /// In m/s.
    pub wind_speed: u32,
}

pub struct WeatherView {
    pub kind: Condition,
    pub temperature: Temperature,
    pub prob_precip: Option<u8>,
    pub precipitation: u32,
    pub humidity: u32,
    pub wind_direction: WindDirection,
    pub wind_speed: u32,
}

impl View for Weather {
    type V = WeatherView;

    open spec fn view(&self) -> WeatherView {
        WeatherView {
            kind: self.kind@,
            temperature: self.temperature,
            prob_precip: self.prob_precip,
            precipitation: self.precipitation,
            humidity: self.humidity,
            wind_direction: self.wind_direction,
            wind_speed: self.wind_speed,
        }
    }
}

/// An hour slot of a forecast table.
#[derive(Debug, Clone, PartialEq)]
pub enum Announce {
    /// The hour had passed when the table was published.
    Past(Weather),
    /// The current hour or one to come.
    Regular(Weather),
    /// The slot is there, but nothing is published for it yet.
    NotYet,
}

pub enum AnnounceView {
    Past(WeatherView),
    Regular(WeatherView),
    NotYet,
}

impl View for Announce {
    type V = AnnounceView;

    open spec fn view(&self) -> AnnounceView {
        match self {
            Announce::Past(w) => AnnounceView::Past(w@),
            Announce::Regular(w) => AnnounceView::Regular(w@),
            Announce::NotYet => AnnounceView::NotYet,
        }
    }
}

/// The forecast of one day: where and when it was announced, the day, and
/// each hour slot (hour of the day, 0 to 23) in table order.
#[derive(Debug, Clone, PartialEq)]
pub struct DailyForecast {
    pub location: String,
    pub date: Date,
    pub weathers: Vec<(u32, Announce)>,
}

pub struct DailyView {
    pub location: Seq<char>,
    pub date: Date,
    pub weathers: Seq<(u32, AnnounceView)>,
}

pub open spec fn slot_view(slot: (u32, Announce)) -> (u32, AnnounceView) {
    (slot.0, slot.1@)
}

impl View for DailyForecast {
    type V = DailyView;

    open spec fn view(&self) -> DailyView {
        DailyView {
            location: self.location@,
            date: self.date,
            weathers: self.weathers@.map_values(|slot: (u32, Announce)| slot_view(slot)),
        }
    }
}

} // verus!
