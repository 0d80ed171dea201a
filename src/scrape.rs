//! From the cells of a forecast page to typed daily forecasts.
use vstd::prelude::*;
use crate::calendar::{date_label, header_date, infer_date, next_day, Date};
use crate::numbers::{
    parse_temperature, parse_u32, parse_u8, temperature_of, u32_of, u8_of,
};
use crate::text::str_eq;
use crate::weather::{
    condition_of, direction_of, Announce, AnnounceView, DailyForecast, DailyView, Weather,
    WeatherKind, WeatherView, WindDirection, slot_view,
};

verus! {

/// Why a forecast could not be had.
#[derive(Debug)]
pub enum Error {
    /// The location does not make a valid address.
    InvalidLocation,
    /// The request failed, or the server did not answer with success.
    NetworkError { msg: String },
    /// The page does not have the expected shape; `msg` says what was missing.
    InvalidHtml { msg: String },
}

/// The description of an error, as shown to a user.
pub open spec fn error_message(e: Error) -> Seq<char> {
    match e {
        Error::InvalidLocation => "Invalid Location"@,
        Error::NetworkError { msg } => "Network Error: "@ + msg@,
        Error::InvalidHtml { msg } => "Invalid HTML: "@ + msg@,
    }
}

impl Error {
    /// The description of this error, as shown to a user.
    pub fn message(&self) -> (r: String)
        ensures
            r@ == error_message(*self),
    {
        match self {
            Error::InvalidLocation => String::from_str("Invalid Location"),
            Error::NetworkError { msg } => {
                let mut r = String::from_str("Network Error: ");
                r.append(msg.as_str());
                r
            },
            Error::InvalidHtml { msg } => {
                let mut r = String::from_str("Invalid HTML: ");
                r.append(msg.as_str());
                r
            },
        }
    }
}

/// The text of a cell that marks an hour whose forecast is not published yet.
pub const NOT_YET_MARK: &'static str = "---";

/// The text of an hour cell, and whether it is marked as past.
pub struct HourCell {
    pub text: String,
    pub past: bool,
}

/// The raw cells of one section (one day) of a forecast page: the header
/// that holds its date, and one list per row of the table.
pub struct SectionCells {
    pub header: String,
    pub hours: Vec<HourCell>,
    pub kinds: Vec<String>,
    pub temperatures: Vec<String>,
    pub prob_precips: Vec<String>,
    pub precipitations: Vec<String>,
    pub humidities: Vec<String>,
    pub wind_directions: Vec<String>,
    pub wind_speeds: Vec<String>,
}

pub struct SectionView {
    pub header: Seq<char>,
    pub hours: Seq<(Seq<char>, bool)>,
    pub kinds: Seq<Seq<char>>,
    pub temperatures: Seq<Seq<char>>,
    pub prob_precips: Seq<Seq<char>>,
    pub precipitations: Seq<Seq<char>>,
    pub humidities: Seq<Seq<char>>,
    pub wind_directions: Seq<Seq<char>>,
    pub wind_speeds: Seq<Seq<char>>,
}

pub open spec fn texts(v: Seq<String>) -> Seq<Seq<char>> {
    v.map_values(|s: String| s@)
}

impl View for SectionCells {
    type V = SectionView;

    open spec fn view(&self) -> SectionView {
        SectionView {
            header: self.header@,
            hours: self.hours@.map_values(|h: HourCell| (h.text@, h.past)),
            kinds: texts(self.kinds@),
            temperatures: texts(self.temperatures@),
            prob_precips: texts(self.prob_precips@),
            precipitations: texts(self.precipitations@),
            humidities: texts(self.humidities@),
            wind_directions: texts(self.wind_directions@),
            wind_speeds: texts(self.wind_speeds@),
        }
    }
}

/// Every row of the section has one cell per hour.
pub open spec fn columns_agree(c: SectionView) -> bool {
    let n = c.hours.len();
    &&& c.kinds.len() == n
    &&& c.temperatures.len() == n
    &&& c.prob_precips.len() == n
    &&& c.precipitations.len() == n
    &&& c.humidities.len() == n
    &&& c.wind_directions.len() == n
    &&& c.wind_speeds.len() == n
}

/// The hour slot that one column of cells gives: the hour (taken modulo 24)
/// and `NotYet` when the condition cell is the not-yet mark; otherwise the
/// reading, `Past` or `Regular` by the hour cell's mark. `None` when the hour,
/// the temperature, the precipitation, the humidity, the wind direction or
/// the wind speed cannot be read. A probability that cannot be read is absent.
pub open spec fn slot_of(
    hour: Seq<char>,
    past: bool,
    kind: Seq<char>,
    temperature: Seq<char>,
    prob_precip: Seq<char>,
    precipitation: Seq<char>,
    humidity: Seq<char>,
    wind_direction: Seq<char>,
    wind_speed: Seq<char>,
) -> Option<(u32, AnnounceView)> {
    match u32_of(hour) {
        None => None,
        Some(h) => if kind == NOT_YET_MARK@ {
            Some(((h % 24) as u32, AnnounceView::NotYet))
        } else if temperature_of(temperature) is Some && u32_of(precipitation) is Some && u32_of(
            humidity,
        ) is Some && direction_of(wind_direction) is Some && u32_of(wind_speed) is Some {
            let w = WeatherView {
                kind: condition_of(kind),
                temperature: temperature_of(temperature).unwrap(),
                prob_precip: u8_of(prob_precip),
                precipitation: u32_of(precipitation).unwrap(),
                humidity: u32_of(humidity).unwrap(),
                wind_direction: direction_of(wind_direction).unwrap(),
                wind_speed: u32_of(wind_speed).unwrap(),
            };
            Some(((h % 24) as u32, if past { AnnounceView::Past(w) } else { AnnounceView::Regular(w) }))
        } else {
            None
        },
    }
}

/// The slot of the `j`-th column of a section.
pub open spec fn slot_at(c: SectionView, j: int) -> Option<(u32, AnnounceView)> {
    slot_of(
        c.hours[j].0,
        c.hours[j].1,
        c.kinds[j],
        c.temperatures[j],
        c.prob_precips[j],
        c.precipitations[j],
        c.humidities[j],
        c.wind_directions[j],
        c.wind_speeds[j],
    )
}

/// The forecast that a section gives, when its rows agree in length, its
/// date can be had and every column reads.
pub open spec fn section_forecast(
    c: SectionView,
    location: Seq<char>,
    today: Date,
    prev: Option<Date>,
) -> Option<DailyView> {
    if columns_agree(c) && header_date(c.header, today, prev) is Some && forall|j: int|
        0 <= j < c.hours.len() ==> #[trigger] slot_at(c, j) is Some {
        Some(
            DailyView {
                location,
                date: header_date(c.header, today, prev).unwrap(),
                weathers: Seq::new(c.hours.len(), |j: int| slot_at(c, j).unwrap()),
            },
        )
    } else {
        None
    }
}

fn structural(msg: &str) -> (r: Error)
    ensures
        r matches Error::InvalidHtml { msg: m } && m@ == msg@,
{
    Error::InvalidHtml { msg: String::from_str(msg) }
}

/// The message for a cell that cannot be read: which row, and its text.
pub open spec fn unreadable_message(what: Seq<char>, text: Seq<char>) -> Seq<char> {
    "cannot read the "@ + what + " cell: "@ + text
}

/// The message for a column whose slot cannot be read: the first cell, in
/// the order hour, temperature, precipitation, humidity, wind direction,
/// wind speed, that cannot be read.
pub open spec fn slot_error(
    hour: Seq<char>,
    temperature: Seq<char>,
    precipitation: Seq<char>,
    humidity: Seq<char>,
    wind_direction: Seq<char>,
    wind_speed: Seq<char>,
) -> Seq<char> {
    if u32_of(hour) is None {
        unreadable_message("hour"@, hour)
    } else if temperature_of(temperature) is None {
        unreadable_message("temperature"@, temperature)
    } else if u32_of(precipitation) is None {
        unreadable_message("precipitation"@, precipitation)
    } else if u32_of(humidity) is None {
        unreadable_message("humidity"@, humidity)
    } else if direction_of(wind_direction) is None {
        unreadable_message("wind direction"@, wind_direction)
    } else {
        unreadable_message("wind speed"@, wind_speed)
    }
}

/// The message for the `j`-th column of a section, when it cannot be read.
pub open spec fn slot_error_at(c: SectionView, j: int) -> Seq<char> {
    slot_error(
        c.hours[j].0,
        c.temperatures[j],
        c.precipitations[j],
        c.humidities[j],
        c.wind_directions[j],
        c.wind_speeds[j],
    )
}

/// The message for a section whose rows disagree in length: the first row,
/// in table order, that does not have one cell per hour.
pub open spec fn column_mismatch(c: SectionView) -> Seq<char> {
    let n = c.hours.len();
    if c.kinds.len() != n {
        "the weather row does not match the hours"@
    } else if c.temperatures.len() != n {
        "the temperature row does not match the hours"@
    } else if c.prob_precips.len() != n {
        "the precipitation probability row does not match the hours"@
    } else if c.precipitations.len() != n {
        "the precipitation row does not match the hours"@
    } else if c.humidities.len() != n {
        "the humidity row does not match the hours"@
    } else if c.wind_directions.len() != n {
        "the wind direction row does not match the hours"@
    } else {
        "the wind speed row does not match the hours"@
    }
}

fn unreadable(what: &str, text: &String) -> (r: Error)
    ensures
        r matches Error::InvalidHtml { msg } && msg@ == unreadable_message(what@, text@),
{
    let mut msg = String::from_str("cannot read the ");
    msg.append(what);
    msg.append(" cell: ");
    msg.append(text.as_str());
    Error::InvalidHtml { msg }
}

/// Reads one column of a section into an hour slot.
pub fn read_slot(
    hour: &HourCell,
    kind: &String,
    temperature: &String,
    prob_precip: &String,
    precipitation: &String,
    humidity: &String,
    wind_direction: &String,
    wind_speed: &String,
) -> (r: Result<(u32, Announce), Error>)
    ensures
        match slot_of(
            hour.text@,
            hour.past,
            kind@,
            temperature@,
            prob_precip@,
            precipitation@,
            humidity@,
            wind_direction@,
            wind_speed@,
        ) {
            Some(v) => r matches Ok(s) && slot_view(s) == v,
            None => r matches Err(Error::InvalidHtml { msg }) && msg@ == slot_error(
                hour.text@,
                temperature@,
                precipitation@,
                humidity@,
                wind_direction@,
                wind_speed@,
            ),
        },
{
    let h = match parse_u32(hour.text.as_str()) {
        Some(h) => h,
        None => return Err(unreadable("hour", &hour.text)),
    };
    if str_eq(kind.as_str(), NOT_YET_MARK) {
        return Ok((h % 24, Announce::NotYet));
    }
    let temperature_value = match parse_temperature(temperature.as_str()) {
        Some(t) => t,
        None => return Err(unreadable("temperature", temperature)),
    };
    let precipitation_value = match parse_u32(precipitation.as_str()) {
        Some(v) => v,
        None => return Err(unreadable("precipitation", precipitation)),
    };
    let humidity_value = match parse_u32(humidity.as_str()) {
        Some(v) => v,
        None => return Err(unreadable("humidity", humidity)),
    };
    let direction = match WindDirection::parse(wind_direction.as_str()) {
        Some(d) => d,
        None => return Err(unreadable("wind direction", wind_direction)),
    };
    let speed = match parse_u32(wind_speed.as_str()) {
        Some(v) => v,
        None => return Err(unreadable("wind speed", wind_speed)),
    };
    let w = Weather {
        kind: WeatherKind::parse(kind.as_str()),
        temperature: temperature_value,
        prob_precip: parse_u8(prob_precip.as_str()),
        precipitation: precipitation_value,
        humidity: humidity_value,
        wind_direction: direction,
        wind_speed: speed,
    };
    if hour.past {
        Ok((h % 24, Announce::Past(w)))
    } else {
        Ok((h % 24, Announce::Regular(w)))
    }
}

/// Checks that every row of a section has one cell per hour, naming the
/// first row that does not.
pub fn check_columns(c: &SectionCells) -> (r: Result<(), Error>)
    ensures
        r is Ok <==> columns_agree(c@),
        r matches Err(e) ==> e matches Error::InvalidHtml { msg } && msg@ == column_mismatch(c@),
{
    let n = c.hours.len();
    if c.kinds.len() != n {
        Err(structural("the weather row does not match the hours"))
    } else if c.temperatures.len() != n {
        Err(structural("the temperature row does not match the hours"))
    } else if c.prob_precips.len() != n {
        Err(structural("the precipitation probability row does not match the hours"))
    } else if c.precipitations.len() != n {
        Err(structural("the precipitation row does not match the hours"))
    } else if c.humidities.len() != n {
        Err(structural("the humidity row does not match the hours"))
    } else if c.wind_directions.len() != n {
        Err(structural("the wind direction row does not match the hours"))
    } else if c.wind_speeds.len() != n {
        Err(structural("the wind speed row does not match the hours"))
    } else {
        Ok(())
    }
}

/// `msg` says why a section fails: the first row whose length disagrees,
/// else that the header gives no date, else the first column whose slot
/// cannot be read.
pub open spec fn section_error(c: SectionView, today: Date, prev: Option<Date>, msg: Seq<char>) -> bool {
    if !columns_agree(c) {
        msg == column_mismatch(c)
    } else if header_date(c.header, today, prev) is None {
        msg == "the section header gives no date"@
    } else {
        exists|j: int|
            0 <= j < c.hours.len() && #[trigger] slot_at(c, j) is None && (forall|k: int|
                0 <= k < j ==> #[trigger] slot_at(c, k) is Some) && msg == slot_error_at(c, j)
    }
}

/// The forecast of one section, dated from its header, or from the day after
/// `prev` when the header has no date.
pub fn assemble_section(c: &SectionCells, location: &str, today: Date, prev: Option<Date>) -> (r:
    Result<DailyForecast, Error>)
    requires
        today.wf(),
        prev matches Some(p) ==> p.wf(),
    ensures
        match section_forecast(c@, location@, today, prev) {
            Some(v) => r matches Ok(f) && f@ == v && f.date.wf(),
            None => r matches Err(Error::InvalidHtml { msg }) && section_error(c@, today, prev, msg@),
        },
{
    check_columns(c)?;
    let date = match infer_date(c.header.as_str(), today, prev) {
        Some(d) => d,
        None => return Err(structural("the section header gives no date")),
    };
    let n = c.hours.len();
    let ghost cv = c@;
    let mut weathers: Vec<(u32, Announce)> = Vec::new();
    let mut j: usize = 0;
    while j < n
        invariant
            n == c.hours@.len(),
            cv == c@,
            columns_agree(cv),
            header_date(cv.header, today, prev) is Some,
            j <= n,
            weathers@.len() == j,
            forall|k: int| 0 <= k < j ==> #[trigger] slot_at(cv, k) is Some,
            forall|k: int| 0 <= k < j ==> slot_view(#[trigger] weathers@[k]) == slot_at(cv, k).unwrap(),
        decreases n - j,
    {
        let slot = read_slot(
            &c.hours[j],
            &c.kinds[j],
            &c.temperatures[j],
            &c.prob_precips[j],
            &c.precipitations[j],
            &c.humidities[j],
            &c.wind_directions[j],
            &c.wind_speeds[j],
        );
        proof {
            assert(cv.hours[j as int] == (c.hours@[j as int].text@, c.hours@[j as int].past));
            assert(cv.kinds[j as int] == c.kinds@[j as int]@);
            assert(cv.temperatures[j as int] == c.temperatures@[j as int]@);
            assert(cv.prob_precips[j as int] == c.prob_precips@[j as int]@);
            assert(cv.precipitations[j as int] == c.precipitations@[j as int]@);
            assert(cv.humidities[j as int] == c.humidities@[j as int]@);
            assert(cv.wind_directions[j as int] == c.wind_directions@[j as int]@);
            assert(cv.wind_speeds[j as int] == c.wind_speeds@[j as int]@);
        }
        let slot = match slot {
            Ok(s) => s,
            Err(e) => {
                assert(slot_at(cv, j as int) is None);
                assert(e matches Error::InvalidHtml { msg } && msg@ == slot_error_at(cv, j as int));
                assert(0 <= j < cv.hours.len() && slot_at(cv, j as int) is None && (forall|k: int|
                    0 <= k < j ==> #[trigger] slot_at(cv, k) is Some));
                return Err(e);
            },
        };
        weathers.push(slot);
        j = j + 1;
    }
    let f = DailyForecast { location: String::from_str(location), date, weathers };
    assert(f@.weathers =~= Seq::new(n as nat, |k: int| slot_at(cv, k).unwrap()));
    Ok(f)
}

/// The forecast of the three sections of a page (today, tomorrow, the day
/// after), each dated from its header or else from the day after the section
/// before; `None` when any section fails.
pub open spec fn forecast_of(
    location: Seq<char>,
    first: SectionView,
    second: SectionView,
    third: SectionView,
    today: Date,
) -> Option<Seq<DailyView>> {
    match section_forecast(first, location, today, None) {
        None => None,
        Some(d0) => match section_forecast(second, location, today, Some(d0.date)) {
            None => None,
            Some(d1) => match section_forecast(third, location, today, Some(d1.date)) {
                None => None,
                Some(d2) => Some(seq![d0, d1, d2]),
            },
        },
    }
}

pub open spec fn days_view(days: [DailyForecast; 3]) -> Seq<DailyView> {
    days@.map_values(|d: DailyForecast| d@)
}

/// The forecasts of the three sections of a page, in order.
pub fn assemble_forecast(
    location: &str,
    first: &SectionCells,
    second: &SectionCells,
    third: &SectionCells,
    today: Date,
) -> (r: Result<[DailyForecast; 3], Error>)
    requires
        today.wf(),
    ensures
        match forecast_of(location@, first@, second@, third@, today) {
            Some(v) => r matches Ok(days) && days_view(days) == v,
            None => r matches Err(e) && e is InvalidHtml,
        },
{
    let d0 = assemble_section(first, location, today, None)?;
    let d1 = assemble_section(second, location, today, Some(d0.date))?;
    let d2 = assemble_section(third, location, today, Some(d1.date))?;
    let days = [d0, d1, d2];
    assert(days_view(days) =~= seq![days[0]@, days[1]@, days[2]@]);
    Ok(days)
}

/// A section whose rows disagree in length fails the whole page: no other
/// section's forecast is returned.
pub proof fn lemma_column_mismatch_fails_page(
    location: Seq<char>,
    first: SectionView,
    second: SectionView,
    third: SectionView,
    today: Date,
)
    requires
        !columns_agree(first) || !columns_agree(second) || !columns_agree(third),
    ensures
        forecast_of(location, first, second, third, today) is None,
{
}

/// A condition cell holding the not-yet mark gives a `NotYet` slot at the
/// hour, whatever the other cells of the column hold.
pub proof fn lemma_not_yet_ignores_readings(
    hour: Seq<char>,
    past: bool,
    temperature: Seq<char>,
    prob_precip: Seq<char>,
    precipitation: Seq<char>,
    humidity: Seq<char>,
    wind_direction: Seq<char>,
    wind_speed: Seq<char>,
)
    requires
        u32_of(hour) is Some,
    ensures
        slot_of(
            hour,
            past,
            NOT_YET_MARK@,
            temperature,
            prob_precip,
            precipitation,
            humidity,
            wind_direction,
            wind_speed,
        ) == Some(((u32_of(hour).unwrap() % 24) as u32, AnnounceView::NotYet)),
{
}

/// Every slot of an assembled forecast lies in the hours of a day.
pub proof fn lemma_slot_hour_in_day(
    hour: Seq<char>,
    past: bool,
    kind: Seq<char>,
    temperature: Seq<char>,
    prob_precip: Seq<char>,
    precipitation: Seq<char>,
    humidity: Seq<char>,
    wind_direction: Seq<char>,
    wind_speed: Seq<char>,
)
    ensures
        slot_of(
            hour,
            past,
            kind,
            temperature,
            prob_precip,
            precipitation,
            humidity,
            wind_direction,
            wind_speed,
        ) matches Some((h, _)) ==> h < 24,
{
}

/// A later section whose header has no date label is dated the day after the
/// section before it.
pub proof fn lemma_unlabelled_sections_follow(
    location: Seq<char>,
    first: SectionView,
    second: SectionView,
    third: SectionView,
    today: Date,
)
    requires
        forecast_of(location, first, second, third, today) is Some,
    ensures
        ({
            let v = forecast_of(location, first, second, third, today).unwrap();
            &&& v.len() == 3
            &&& date_label(second.header) is None ==> Some(v[1].date) == next_day(v[0].date)
            &&& date_label(third.header) is None ==> Some(v[2].date) == next_day(v[1].date)
        }),
{
}

} // verus!
