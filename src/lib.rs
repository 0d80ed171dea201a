//! Hourly weather forecasts read from tenki.jp pages: vocabulary, dates,
//! record assembly, the cache gate and a plain text table.
pub mod calendar;
pub mod document;
pub mod fetch;
pub mod numbers;
pub mod scrape;
pub mod style;
pub mod table;
pub mod text;
pub mod weather;
