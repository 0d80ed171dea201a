//! Calendar dates, and the date that a section header gives.
use vstd::prelude::*;
use crate::text::{capped, chars_of, digit_run, digit_run_end, digits_capped, digits_value, lemma_digit_run, DIGITS_CAP};

verus! {

/// A day of the proleptic Gregorian calendar.
#[derive(Clone, Copy, Debug, PartialEq, Eq, Structural)]
pub struct Date {
    pub year: i32,
    pub month: u32,
    pub day: u32,
}

pub open spec fn is_leap_year(y: int) -> bool {
    (y % 4 == 0 && y % 100 != 0) || y % 400 == 0
}

pub open spec fn days_in_month(y: int, m: int) -> int {
    if m == 2 {
        if is_leap_year(y) {
            29
        } else {
            28
        }
    } else if m == 4 || m == 6 || m == 9 || m == 11 {
        30
    } else {
        31
    }
}

/// Whether year `y`, month `m` and day `d` name a day that a `Date` can hold.
pub open spec fn valid_date(y: int, m: int, d: int) -> bool {
    &&& i32::MIN <= y <= i32::MAX
    &&& 1 <= m <= 12
    &&& 1 <= d <= days_in_month(y, m)
}

/// The day after `d`, when its year still fits.
pub open spec fn next_day(d: Date) -> Option<Date> {
    if d.day < days_in_month(d.year as int, d.month as int) {
        Some(Date { day: (d.day + 1) as u32, ..d })
    } else if d.month < 12 {
        Some(Date { month: (d.month + 1) as u32, day: 1, ..d })
    } else if d.year < i32::MAX {
        Some(Date { year: (d.year + 1) as i32, month: 1, day: 1 })
    } else {
        None
    }
}

fn month_length(y: i32, m: u32) -> (r: u32)
    requires
        1 <= m <= 12,
    ensures
        r == days_in_month(y as int, m as int),
{
    if m == 2 {
        let y4 = y % 4;
        let y100 = y % 100;
        let y400 = y % 400;
        assert(y4 == 0 <==> (y as int) % 4 == 0);
        assert(y100 == 0 <==> (y as int) % 100 == 0);
        assert(y400 == 0 <==> (y as int) % 400 == 0);
        if (y4 == 0 && y100 != 0) || y400 == 0 {
            29
        } else {
            28
        }
    } else if m == 4 || m == 6 || m == 9 || m == 11 {
        30
    } else {
        31
    }
}

impl Date {
    pub open spec fn wf(&self) -> bool {
        valid_date(self.year as int, self.month as int, self.day as int)
    }

    /// The date with these fields, if it exists.
    pub fn from_ymd(year: i32, month: u32, day: u32) -> (r: Option<Date>)
        ensures
            r is Some <==> valid_date(year as int, month as int, day as int),
            r is Some ==> r == Some(Date { year, month, day }),
    {
        if month < 1 || month > 12 || day < 1 || day > month_length(year, month) {
            None
        } else {
            Some(Date { year, month, day })
        }
    }

    /// The next day; `None` only after the last day of the last year.
    pub fn succ(&self) -> (r: Option<Date>)
        requires
            self.wf(),
        ensures
            r == next_day(*self),
            r matches Some(n) ==> n.wf(),
    {
        if self.day < month_length(self.year, self.month) {
            Some(Date { year: self.year, month: self.month, day: self.day + 1 })
        } else if self.month < 12 {
            Some(Date { year: self.year, month: self.month + 1, day: 1 })
        } else if self.year < 2147483647 {
            Some(Date { year: self.year + 1, month: 1, day: 1 })
        } else {
            None
        }
    }
}

/// The month and day that `s` writes at `i` as `<digits>月<digits>日`.
pub open spec fn month_day_at(s: Seq<char>, i: int) -> Option<(nat, nat)> {
    let j = i + digit_run(s, i);
    let k = j + 1 + digit_run(s, j + 1);
    if digit_run(s, i) > 0 && j < s.len() && s[j] == '月' && digit_run(s, j + 1) > 0 && k
        < s.len() && s[k] == '日' {
        Some((digits_value(s.subrange(i, j)), digits_value(s.subrange(j + 1, k))))
    } else {
        None
    }
}

/// The date label that starts at `i`: `<digits>年` followed by a month and
/// day, or a month and day alone. The year is `None` when it is not written.
pub open spec fn date_label_at(s: Seq<char>, i: int) -> Option<(Option<nat>, nat, nat)> {
    let j = i + digit_run(s, i);
    if digit_run(s, i) > 0 && j < s.len() && s[j] == '年' && month_day_at(s, j + 1) is Some {
        let (m, d) = month_day_at(s, j + 1).unwrap();
        Some((Some(digits_value(s.subrange(i, j))), m, d))
    } else {
        match month_day_at(s, i) {
            Some((m, d)) => Some((None, m, d)),
            None => None,
        }
    }
}

/// The leftmost date label in `s` at or after `i`.
pub open spec fn date_label_from(s: Seq<char>, i: int) -> Option<(Option<nat>, nat, nat)>
    decreases s.len() - i,
{
    if i < 0 || i >= s.len() {
        None
    } else if date_label_at(s, i) is Some {
        date_label_at(s, i)
    } else {
        date_label_from(s, i + 1)
    }
}

/// The leftmost date label in `s`.
pub open spec fn date_label(s: Seq<char>) -> Option<(Option<nat>, nat, nat)> {
    date_label_from(s, 0)
}

/// The year that a label means: the written one, else the current one,
/// except that January seen in December belongs to the next year.
pub open spec fn label_year(year: Option<nat>, month: nat, today: Date) -> int {
    match year {
        Some(y) => y as int,
        None => if month == 1 && today.month == 12 {
            today.year + 1
        } else {
            today.year as int
        },
    }
}

/// The date of a section, from its header, today's date and the date of the
/// section before it: the header's label if it has one, else the day after
/// the previous section; `None` when neither gives a date that exists.
pub open spec fn header_date(header: Seq<char>, today: Date, prev: Option<Date>) -> Option<Date> {
    match date_label(header) {
        Some((y, m, d)) => {
            let year = label_year(y, m, today);
            if valid_date(year, m as int, d as int) {
                Some(Date { year: year as i32, month: m as u32, day: d as u32 })
            } else {
                None
            }
        },
        None => match prev {
            Some(p) => next_day(p),
            None => None,
        },
    }
}

fn month_day_at_exec(s: &Vec<char>, i: usize) -> (r: Option<(u64, u64)>)
    requires
        i <= s@.len(),
    ensures
        match month_day_at(s@, i as int) {
            Some((m, d)) => r == Some((capped(m) as u64, capped(d) as u64)),
            None => r is None,
        },
{
    let j = digit_run_end(s, i);
    proof {
        lemma_digit_run(s@, i as int);
    }
    if j == i || j >= s.len() || s[j] != '月' {
        return None;
    }
    let k = digit_run_end(s, j + 1);
    proof {
        lemma_digit_run(s@, j + 1);
    }
    if k == j + 1 || k >= s.len() || s[k] != '日' {
        return None;
    }
    Some((digits_capped(s, i, j), digits_capped(s, j + 1, k)))
}

fn date_label_at_exec(s: &Vec<char>, i: usize) -> (r: Option<(Option<u64>, u64, u64)>)
    requires
        i <= s@.len(),
    ensures
        match date_label_at(s@, i as int) {
            Some((y, m, d)) => r == Some(
                (
                    match y {
                        Some(y) => Some(capped(y) as u64),
                        None => None,
                    },
                    capped(m) as u64,
                    capped(d) as u64,
                ),
            ),
            None => r is None,
        },
{
    let j = digit_run_end(s, i);
    proof {
        lemma_digit_run(s@, i as int);
    }
    if j > i && j < s.len() && s[j] == '年' {
        if let Some((m, d)) = month_day_at_exec(s, j + 1) {
            return Some((Some(digits_capped(s, i, j)), m, d));
        }
    }
    match month_day_at_exec(s, i) {
        Some((m, d)) => Some((None, m, d)),
        None => None,
    }
}

/// The date of a section, as `header_date` gives it; `None` where that has none.
pub fn infer_date(header: &str, today: Date, prev: Option<Date>) -> (r: Option<Date>)
    requires
        today.wf(),
        prev matches Some(p) ==> p.wf(),
    ensures
        r == header_date(header@, today, prev),
        r matches Some(d) ==> d.wf(),
{
    let s = chars_of(header);
    let n = s.len();
    let mut i: usize = 0;
    let mut found: Option<(Option<u64>, u64, u64)> = None;
    while i < n
        invariant
            i <= n == s@.len(),
            s@ == header@,
            found is None ==> date_label(s@) == date_label_from(s@, i as int),
            found is Some ==> date_label(s@) == date_label_at(s@, i as int) && date_label_at(
                s@,
                i as int,
            ) is Some,
            found is Some ==> i < n,
            found matches Some((y, m, d)) ==> date_label_at(s@, i as int) matches Some((
                yy,
                mm,
                dd,
            )) && m == capped(mm) && d == capped(dd) && (match yy {
                Some(v) => y == Some(capped(v) as u64),
                None => y is None,
            }),
        ensures
            found is None ==> i >= n,
            found is Some ==> date_label(s@) == date_label_at(s@, i as int),
            found matches Some((y, m, d)) ==> date_label_at(s@, i as int) matches Some((
                yy,
                mm,
                dd,
            )) && m == capped(mm) && d == capped(dd) && (match yy {
                Some(v) => y == Some(capped(v) as u64),
                None => y is None,
            }),
        decreases n - i,
    {
        found = date_label_at_exec(&s, i);
        if found.is_some() {
            break;
        }
        i = i + 1;
    }
    match found {
        None => {
            assert(date_label_from(s@, n as int) is None);
            match prev {
                Some(p) => p.succ(),
                None => None,
            }
        },
        Some((y, m, d)) => {
            let year: i64 = match y {
                Some(y) => if y > 2147483647 {
                    return None;
                } else {
                    y as i64
                },
                None => if m == 1 && today.month == 12 {
                    today.year as i64 + 1
                } else {
                    today.year as i64
                },
            };
            if year > 2147483647 || m > 12 || d > 31 {
                return None;
            }
            Date::from_ymd(year as i32, m as u32, d as u32)
        },
    }
}

/// A label of January without a year is dated in the next year when seen in
/// December, and in the current year when seen in any other month. A date
/// seen in December of the last year that a `Date` holds has no next year,
/// so it is left out.
pub proof fn lemma_january_label_year(header: Seq<char>, today: Date, prev: Option<Date>, day: nat)
    requires
        today.wf(),
        date_label(header) == Some((None::<nat>, 1nat, day)),
        1 <= day <= 31,
        today.month == 12 ==> today.year < i32::MAX,
    ensures
        today.month == 12 ==> header_date(header, today, prev) == Some(
            Date { year: (today.year + 1) as i32, month: 1, day: day as u32 },
        ),
        today.month != 12 ==> header_date(header, today, prev) == Some(
            Date { year: today.year, month: 1, day: day as u32 },
        ),
{
}

} // verus!
