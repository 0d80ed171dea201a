use tenki::style::{japanese_weekday, weather_color};
use tenki::table::{Cell, Error, Table};
use tenki::weather::WeatherKind;

#[test]
fn cells_pad_to_display_width() {
    assert_eq!(Cell::new_left("ab".to_owned()).render(5), "ab   ");
    assert_eq!(Cell::new_right("ab".to_owned()).render(5), "   ab");
    assert_eq!(Cell::new_center("ab".to_owned()).render(5), " ab  ");
    assert_eq!(Cell::new_left("晴れ".to_owned()).render(7), "晴れ   ");
    assert_eq!(Cell::new_right("晴れ".to_owned()).render(3), "晴れ");
    assert_eq!(Cell::VarticalBorder.render(3), "  |");
    assert_eq!(Cell::HorizontalBorder.render(4), "====");
    assert_eq!(Cell::Empty.render(2), "  ");
}

#[test]
fn rows_must_match_columns() {
    let mut t = Table::empty("title".to_owned(), 2);
    assert_eq!(t.add_row(vec![Cell::Empty]), Err(Error::Incompatible));
    assert_eq!(t.add_row(vec![Cell::new_left("a".to_owned()), Cell::new_left("b".to_owned())]), Ok(()));
    t.add_horizontal_border();
    assert_eq!(t.render(), "title\nab               \n=================");
}

#[test]
fn table_column_widths() {
    let mut t = Table::empty("T".to_owned(), 5);
    t.add_row(vec![
        Cell::new_left("x".to_owned()),
        Cell::new_left("y".to_owned()),
        Cell::new_left("z".to_owned()),
        Cell::new_left("w".to_owned()),
        Cell::new_left("v".to_owned()),
    ])
    .unwrap();
    assert_eq!(t.render(), format!("T\nx{}{}{}{}", "y               ", "z ", "w      ", "v "));
}

#[test]
fn condition_colors_and_weekdays() {
    assert_eq!(weather_color(&WeatherKind::Sunny), (255, 159, 33));
    assert_eq!(weather_color(&WeatherKind::Other("霧".to_owned())), (255, 18, 180));
    assert_eq!(japanese_weekday(0), "月");
    assert_eq!(japanese_weekday(6), "日");
}
