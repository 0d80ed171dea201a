use tenki::calendar::{infer_date, Date};

fn date(year: i32, month: u32, day: u32) -> Date {
    Date { year, month, day }
}

#[test]
fn january_seen_in_december_is_next_year() {
    let today = date(2024, 12, 30);
    assert_eq!(infer_date("1月5日", today, None), Some(date(2025, 1, 5)));
}

#[test]
fn january_seen_in_other_months_is_this_year() {
    for month in 1..=11 {
        let today = date(2024, month, 3);
        assert_eq!(infer_date("1月5日", today, None), Some(date(2024, 1, 5)));
    }
}

#[test]
fn written_year_is_used() {
    let today = date(2024, 12, 30);
    assert_eq!(
        infer_date("今日 2023年01月05日(木)", today, None),
        Some(date(2023, 1, 5))
    );
    assert_eq!(
        infer_date("明日&nbsp;12月31日(火)", today, None),
        Some(date(2024, 12, 31))
    );
}

#[test]
fn missing_label_follows_previous_section() {
    let today = date(2024, 3, 9);
    assert_eq!(
        infer_date("明後日", today, Some(date(2024, 3, 10))),
        Some(date(2024, 3, 11))
    );
    assert_eq!(infer_date("明後日", today, None), None);
}

#[test]
fn previous_day_rolls_over() {
    let today = date(2024, 1, 1);
    assert_eq!(infer_date("", today, Some(date(2024, 2, 28))), Some(date(2024, 2, 29)));
    assert_eq!(infer_date("", today, Some(date(2023, 2, 28))), Some(date(2023, 3, 1)));
    assert_eq!(infer_date("", today, Some(date(2023, 12, 31))), Some(date(2024, 1, 1)));
    assert_eq!(infer_date("", today, Some(date(2024, 4, 30))), Some(date(2024, 5, 1)));
}

#[test]
fn impossible_dates_fail() {
    let today = date(2023, 6, 1);
    assert_eq!(infer_date("2月29日", today, None), None);
    assert_eq!(infer_date("13月1日", today, None), None);
    assert_eq!(infer_date("99999999999年1月1日", today, None), None);
    assert_eq!(infer_date("2024年2月29日", today, None), Some(date(2024, 2, 29)));
}

#[test]
fn date_succ_and_from_ymd() {
    assert_eq!(date(2024, 2, 28).succ(), Some(date(2024, 2, 29)));
    assert_eq!(date(2100, 2, 28).succ(), Some(date(2100, 3, 1)));
    assert_eq!(date(2000, 2, 28).succ(), Some(date(2000, 2, 29)));
    assert_eq!(date(i32::MAX, 12, 31).succ(), None);
    assert_eq!(Date::from_ymd(2024, 4, 31), None);
    assert_eq!(Date::from_ymd(2024, 4, 30), Some(date(2024, 4, 30)));
}
