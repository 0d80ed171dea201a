//! Reading the cells of a forecast page out of its HTML.
use vstd::prelude::*;
use scraper::{Html, Selector};
use crate::calendar::Date;
use crate::scrape::{
    assemble_forecast, days_view, forecast_of, texts, Error, HourCell, SectionCells, SectionView,
};
use crate::text::{trim, trimmed};
use crate::weather::DailyForecast;

verus! {

/// What the library reads of an element: its HTML, its text nodes, and its
/// classes.
pub struct Element {
    pub html: String,
    pub texts: Vec<String>,
    pub classes: Vec<String>,
}

pub struct ElementView {
    pub html: Seq<char>,
    pub texts: Seq<Seq<char>>,
    pub classes: Seq<Seq<char>>,
}

impl View for Element {
    type V = ElementView;

    open spec fn view(&self) -> ElementView {
        ElementView { html: self.html@, texts: texts(self.texts@), classes: texts(self.classes@) }
    }
}

pub open spec fn elements_view(v: Seq<Element>) -> Seq<ElementView> {
    v.map_values(|e: Element| e@)
}

/// The elements that scraper selects with the CSS selector group `selector`
/// in the HTML document `source`; `None` when the selector does not parse.
pub uninterp spec fn document_selection(source: Seq<char>, selector: Seq<char>) -> Option<Seq<ElementView>>;

/// The elements that scraper selects with the CSS selector group `selector`
/// in the HTML fragment `source`; `None` when the selector does not parse.
pub uninterp spec fn fragment_selection(source: Seq<char>, selector: Seq<char>) -> Option<Seq<ElementView>>;

/// Relies on scraper's Selector::parse, Html::parse_document and Html::select,
/// which depend on the two texts alone; each selected element is read as its
/// HTML (`ElementRef::html`), its text nodes (`ElementRef::text`) and its
/// classes (`Element::classes`), in the order `Select` yields them.
#[verifier::external_body]
fn select_in_document(source: &str, selector: &str) -> (r: Option<Vec<Element>>)
    ensures
        match r {
            Some(v) => document_selection(source@, selector@) == Some(elements_view(v@)),
            None => document_selection(source@, selector@) is None,
        },
{
    let selector = Selector::parse(selector).ok()?;
    Some(Html::parse_document(source).select(&selector).map(|e| Element {
        html: e.html(),
        texts: e.text().map(|t| t.to_string()).collect(),
        classes: e.value().classes().map(|c| c.to_string()).collect(),
    }).collect())
}

/// Relies on scraper's Selector::parse, Html::parse_fragment and Html::select,
/// which depend on the two texts alone; each selected element is read as its
/// HTML (`ElementRef::html`), its text nodes (`ElementRef::text`) and its
/// classes (`Element::classes`), in the order `Select` yields them.
#[verifier::external_body]
fn select_in_fragment(source: &str, selector: &str) -> (r: Option<Vec<Element>>)
    ensures
        match r {
            Some(v) => fragment_selection(source@, selector@) == Some(elements_view(v@)),
            None => fragment_selection(source@, selector@) is None,
        },
{
    let selector = Selector::parse(selector).ok()?;
    Some(Html::parse_fragment(source).select(&selector).map(|e| Element {
        html: e.html(),
        texts: e.text().map(|t| t.to_string()).collect(),
        classes: e.value().classes().map(|c| c.to_string()).collect(),
    }).collect())
}

fn not_a_selector(selector: &str) -> (r: Error)
    ensures
        r is InvalidHtml,
{
    let mut msg = String::from_str("not a selector: ");
    msg.append(selector);
    Error::InvalidHtml { msg }
}

/// The texts of `s`, one after another.
pub open spec fn joined(s: Seq<Seq<char>>) -> Seq<char>
    decreases s.len(),
{
    if s.len() == 0 {
        Seq::empty()
    } else {
        joined(s.drop_last()) + s.last()
    }
}

/// The text of an element: its text nodes one after another.
pub fn element_text(e: &Element) -> (r: String)
    ensures
        r@ == joined(e@.texts),
{
    let ghost v = e@.texts;
    let mut r = String::new();
    let mut i: usize = 0;
    while i < e.texts.len()
        invariant
            i <= e.texts@.len(),
            v == e@.texts,
            r@ == joined(v.take(i as int)),
        decreases e.texts@.len() - i,
    {
        assert(v.take(i + 1).drop_last() =~= v.take(i as int));
        r.append(e.texts[i].as_str());
        i = i + 1;
    }
    assert(v.take(i as int) =~= v);
    r
}

/// Whether `c` is the class `past`, in any ASCII case.
pub open spec fn is_past_class(c: Seq<char>) -> bool {
    &&& c.len() == 4
    &&& (c[0] == 'p' || c[0] == 'P')
    &&& (c[1] == 'a' || c[1] == 'A')
    &&& (c[2] == 's' || c[2] == 'S')
    &&& (c[3] == 't' || c[3] == 'T')
}

/// Whether an element carries the class `past`, in any ASCII case.
pub open spec fn has_past(e: ElementView) -> bool {
    exists|k: int| 0 <= k < e.classes.len() && is_past_class(#[trigger] e.classes[k])
}

/// Whether an element carries the class `past`, in any ASCII case.
pub fn has_past_class(e: &Element) -> (r: bool)
    ensures
        r == has_past(e@),
{
    let ghost v = e@.classes;
    let mut i: usize = 0;
    while i < e.classes.len()
        invariant
            i <= e.classes@.len(),
            v == e@.classes,
            forall|k: int| 0 <= k < i ==> !is_past_class(#[trigger] v[k]),
        decreases e.classes@.len() - i,
    {
        let c = e.classes[i].as_str();
        assert(v[i as int] == c@);
        if c.unicode_len() == 4 {
            let a = c.get_char(0);
            let b = c.get_char(1);
            let d = c.get_char(2);
            let f = c.get_char(3);
            if (a == 'p' || a == 'P') && (b == 'a' || b == 'A') && (d == 's' || d == 'S') && (f
                == 't' || f == 'T') {
                assert(is_past_class(v[i as int]));
                return true;
            }
        }
        i = i + 1;
    }
    false
}

/// The text of a cell: its element's text, trimmed.
pub open spec fn cell_text(e: ElementView) -> Seq<char> {
    trimmed(joined(e.texts))
}

/// The cell texts of the elements that `selector` selects in a section.
pub open spec fn cells_of(section: Seq<char>, selector: Seq<char>) -> Option<Seq<Seq<char>>> {
    match fragment_selection(section, selector) {
        Some(es) => Some(es.map_values(|e: ElementView| cell_text(e))),
        None => None,
    }
}

/// The cells of a section, read from the section's own HTML: the header is
/// the text of the first `tr.head > td > div`; the hours are the
/// `tr.hour > td > span` cells, with the class `past` marking past hours; the
/// other rows are `tr.weather`, `tr.temperature`, `tr.prob-precip`,
/// `tr.precipitation`, `tr.humidity`, `tr.wind-direction` or
/// `tr.wind-blow`, and `tr.wind-speed`, each read from its `td` cells.
/// `None` when there is no header.
pub open spec fn section_view_of(section: Seq<char>) -> Option<SectionView> {
    let heads = fragment_selection(section, "tr.head > td > div"@);
    let hours = fragment_selection(section, "tr.hour > td > span"@);
    let kinds = cells_of(section, "tr.weather > td"@);
    let temperatures = cells_of(section, "tr.temperature > td"@);
    let prob_precips = cells_of(section, "tr.prob-precip > td"@);
    let precipitations = cells_of(section, "tr.precipitation > td"@);
    let humidities = cells_of(section, "tr.humidity > td"@);
    let wind_directions = cells_of(section, "tr.wind-direction > td, tr.wind-blow > td"@);
    let wind_speeds = cells_of(section, "tr.wind-speed > td"@);
    if heads is Some && heads.unwrap().len() > 0 && hours is Some && kinds is Some && temperatures is Some
        && prob_precips is Some && precipitations is Some && humidities is Some
        && wind_directions is Some && wind_speeds is Some {
        Some(
            SectionView {
                header: joined(heads.unwrap()[0].texts),
                hours: hours.unwrap().map_values(|e: ElementView| (cell_text(e), has_past(e))),
                kinds: kinds.unwrap(),
                temperatures: temperatures.unwrap(),
                prob_precips: prob_precips.unwrap(),
                precipitations: precipitations.unwrap(),
                humidities: humidities.unwrap(),
                wind_directions: wind_directions.unwrap(),
                wind_speeds: wind_speeds.unwrap(),
            },
        )
    } else {
        None
    }
}

/// The trimmed text of each element that matches `selector` in a section.
fn cell_texts(section: &str, selector: &str) -> (r: Result<Vec<String>, Error>)
    ensures
        match cells_of(section@, selector@) {
            Some(v) => r matches Ok(t) && texts(t@) == v,
            None => r matches Err(e) && e is InvalidHtml,
        },
{
    let elements = match select_in_fragment(section, selector) {
        Some(es) => es,
        None => return Err(not_a_selector(selector)),
    };
    let ghost ev = elements_view(elements@);
    let mut r: Vec<String> = Vec::new();
    let mut i: usize = 0;
    while i < elements.len()
        invariant
            i <= elements@.len(),
            ev == elements_view(elements@),
            r@.len() == i,
            forall|k: int| 0 <= k < i ==> (#[trigger] r@[k])@ == cell_text(ev[k]),
        decreases elements@.len() - i,
    {
        let t = element_text(&elements[i]);
        r.push(trim(t.as_str()));
        i = i + 1;
    }
    assert(texts(r@) =~= ev.map_values(|e: ElementView| cell_text(e)));
    Ok(r)
}

/// The cells of one section of a page, read from its own HTML.
fn section_cells(section: &str) -> (r: Result<SectionCells, Error>)
    ensures
        match section_view_of(section@) {
            Some(v) => r matches Ok(c) && c@ == v,
            None => r matches Err(e) && e is InvalidHtml,
        },
{
    let heads = match select_in_fragment(section, "tr.head > td > div") {
        Some(es) => es,
        None => return Err(not_a_selector("tr.head > td > div")),
    };
    if heads.len() == 0 {
        return Err(Error::InvalidHtml { msg: String::from_str("the section has no header") });
    }
    let header = element_text(&heads[0]);
    let hour_elements = match select_in_fragment(section, "tr.hour > td > span") {
        Some(es) => es,
        None => return Err(not_a_selector("tr.hour > td > span")),
    };
    let ghost hv = elements_view(hour_elements@);
    let mut hours: Vec<HourCell> = Vec::new();
    let mut i: usize = 0;
    while i < hour_elements.len()
        invariant
            i <= hour_elements@.len(),
            hv == elements_view(hour_elements@),
            hours@.len() == i,
            forall|k: int|
                0 <= k < i ==> (#[trigger] hours@[k]).text@ == cell_text(hv[k]) && hours@[k].past
                    == has_past(hv[k]),
        decreases hour_elements@.len() - i,
    {
        let t = element_text(&hour_elements[i]);
        hours.push(HourCell { text: trim(t.as_str()), past: has_past_class(&hour_elements[i]) });
        i = i + 1;
    }
    let kinds = cell_texts(section, "tr.weather > td")?;
    let temperatures = cell_texts(section, "tr.temperature > td")?;
    let prob_precips = cell_texts(section, "tr.prob-precip > td")?;
    let precipitations = cell_texts(section, "tr.precipitation > td")?;
    let humidities = cell_texts(section, "tr.humidity > td")?;
    let wind_directions = cell_texts(section, "tr.wind-direction > td, tr.wind-blow > td")?;
    let wind_speeds = cell_texts(section, "tr.wind-speed > td")?;
    let c = SectionCells {
        header,
        hours,
        kinds,
        temperatures,
        prob_precips,
        precipitations,
        humidities,
        wind_directions,
        wind_speeds,
    };
    assert(c@.hours =~= hv.map_values(|e: ElementView| (cell_text(e), has_past(e))));
    Ok(c)
}

/// How often a forecast page gives a reading.
#[derive(Clone, Copy, Debug, PartialEq, Eq, Structural)]
pub enum Granularity {
    EveryHour,
    EveryThreeHours,
}

/// The selectors of the three sections of a page (today, tomorrow, the day
/// after) for a granularity.
pub open spec fn section_selectors(granularity: Granularity) -> (Seq<char>, Seq<char>, Seq<char>) {
    match granularity {
        Granularity::EveryHour => (
            "#forecast-point-1h-today"@,
            "#forecast-point-1h-tomorrow"@,
            "#forecast-point-1h-dayaftertomorrow"@,
        ),
        Granularity::EveryThreeHours => (
            "#forecast-point-3h-today"@,
            "#forecast-point-3h-tomorrow"@,
            "#forecast-point-3h-dayaftertomorrow"@,
        ),
    }
}

/// The cells of the first element of the page that `selector` selects;
/// `None` when there is none.
pub open spec fn section_at(html: Seq<char>, selector: Seq<char>) -> Option<SectionView> {
    match document_selection(html, selector) {
        Some(found) => if found.len() > 0 {
            section_view_of(found[0].html)
        } else {
            None
        },
        None => None,
    }
}

/// The place and announcement time of a page, as `place (time)`.
pub open spec fn location_label(place: Seq<char>, time: Seq<char>) -> Seq<char> {
    place + " ("@ + time + ")"@
}

/// The label of a page: the first two text nodes of its first `h2`; `None`
/// when there are not two.
pub open spec fn page_label(html: Seq<char>) -> Option<Seq<char>> {
    match document_selection(html, "h2"@) {
        Some(hs) => if hs.len() > 0 && hs[0].texts.len() >= 2 {
            Some(location_label(hs[0].texts[0], hs[0].texts[1]))
        } else {
            None
        },
        None => None,
    }
}

/// The label and the cells of the three sections of a page; `None` when the
/// label or a section (or a section's header) is missing.
pub open spec fn page_cells(html: Seq<char>, granularity: Granularity) -> Option<
    (Seq<char>, SectionView, SectionView, SectionView),
> {
    let (s0, s1, s2) = section_selectors(granularity);
    match (page_label(html), section_at(html, s0), section_at(html, s1), section_at(html, s2)) {
        (Some(l), Some(a), Some(b), Some(c)) => Some((l, a, b, c)),
        _ => None,
    }
}

/// The forecast of a page: that of its three sections, under its label.
pub open spec fn page_forecast(html: Seq<char>, granularity: Granularity, today: Date) -> Option<
    Seq<crate::weather::DailyView>,
> {
    match page_cells(html, granularity) {
        Some((l, a, b, c)) => forecast_of(l, a, b, c, today),
        None => None,
    }
}

/// The cells of the section of the page that `selector` selects.
fn find_section(html: &str, selector: &str) -> (r: Result<SectionCells, Error>)
    ensures
        match section_at(html@, selector@) {
            Some(v) => r matches Ok(c) && c@ == v,
            None => r matches Err(e) && e is InvalidHtml,
        },
{
    let found = match select_in_document(html, selector) {
        Some(es) => es,
        None => return Err(not_a_selector(selector)),
    };
    if found.len() == 0 {
        let mut msg = String::from_str("section not found: ");
        msg.append(selector);
        return Err(Error::InvalidHtml { msg });
    }
    assert(elements_view(found@)[0].html == found@[0].html@);
    section_cells(found[0].html.as_str())
}

/// Reads the three daily forecasts of a forecast page.
pub fn parse_forecast_page(html: &str, granularity: Granularity, today: Date) -> (r: Result<
    [DailyForecast; 3],
    Error,
>)
    requires
        today.wf(),
    ensures
        match page_forecast(html@, granularity, today) {
            Some(v) => r matches Ok(days) && days_view(days) == v,
            None => r matches Err(e) && e is InvalidHtml,
        },
{
    let headings = match select_in_document(html, "h2") {
        Some(es) => es,
        None => return Err(not_a_selector("h2")),
    };
    if headings.len() == 0 || headings[0].texts.len() < 2 {
        return Err(
            Error::InvalidHtml { msg: String::from_str("location, announced_time not found") },
        );
    }
    let mut location = headings[0].texts[0].clone();
    location.append(" (");
    location.append(headings[0].texts[1].as_str());
    location.append(")");
    proof {
        let hv = elements_view(headings@);
        assert(hv[0].texts[0] == headings@[0].texts@[0]@);
        assert(hv[0].texts[1] == headings@[0].texts@[1]@);
        assert(location@ =~= location_label(hv[0].texts[0], hv[0].texts[1]));
    }
    let (first, second, third) = match granularity {
        Granularity::EveryHour => (
            find_section(html, "#forecast-point-1h-today")?,
            find_section(html, "#forecast-point-1h-tomorrow")?,
            find_section(html, "#forecast-point-1h-dayaftertomorrow")?,
        ),
        Granularity::EveryThreeHours => (
            find_section(html, "#forecast-point-3h-today")?,
            find_section(html, "#forecast-point-3h-tomorrow")?,
            find_section(html, "#forecast-point-3h-dayaftertomorrow")?,
        ),
    };
    assemble_forecast(location.as_str(), &first, &second, &third, today)
}

} // verus!
