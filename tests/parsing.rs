use tcp_line_driver::backoff::Backoff;
use tcp_line_driver::number::float_text;
use tcp_line_driver::parser::{parse_timestamp, CsvConfig, FrameFormat, ParseError, TcpLineParser};
use tcp_line_driver::text::{trim, trim_str};
use tcp_line_driver::time::Instant;

fn csv(has_header: bool, columns: &[&str], delimiter: &str) -> CsvConfig {
    CsvConfig {
        has_header,
        columns: columns.iter().map(|c| c.to_string()).collect(),
        delimiter: delimiter.to_string(),
    }
}

fn now() -> Instant {
    Instant { secs: 1_000, nanos: 0 }
}

#[test]
fn backoff_doubles_to_cap_and_resets() {
    let mut b = Backoff::new(100, 1000);
    let got: Vec<u64> = (0..7).map(|_| b.next()).collect();
    assert_eq!(got, vec![100, 200, 400, 800, 1000, 1000, 1000]);
    b.reset();
    assert_eq!(b.next(), 100);
    assert_eq!(b.next(), 200);
}

#[test]
fn backoff_zero_bounds_retry_at_once() {
    let mut b = Backoff::new(0, 0);
    assert_eq!(b.next(), 0);
    assert_eq!(b.next(), 0);
}

#[test]
fn backoff_saturates_near_the_top() {
    let mut b = Backoff::new(u64::MAX - 1, u64::MAX);
    assert_eq!(b.next(), u64::MAX - 1);
    assert_eq!(b.next(), u64::MAX);
}

#[test]
fn float_text_follows_the_float_grammar() {
    for ok in ["10", "-1.5", "+.5", "5.", "1e5", "1E-3", "2.5e+10", "inf", "-Infinity", "NaN"] {
        let v: Vec<char> = ok.chars().collect();
        assert!(float_text(&v), "{}", ok);
    }
    for bad in ["", ".", "e5", "1e", "1e+", "abc", " 1", "1 ", "1.2.3", "--1", "infin"] {
        let v: Vec<char> = bad.chars().collect();
        assert!(!float_text(&v), "{}", bad);
    }
}

#[test]
fn trim_strips_unicode_white_space() {
    assert_eq!(trim_str("  a b \t\r\n"), "a b");
    assert_eq!(trim_str("\u{3000}x\u{a0}"), "x");
    assert_eq!(trim_str("   "), "");
    let v: Vec<char> = " q ".chars().collect();
    assert_eq!(trim(&v), vec!['q']);
}

#[test]
fn timestamp_parses_or_fails() {
    let t = parse_timestamp("2024-01-01T00:00:00Z").unwrap();
    assert_eq!(t, Instant { secs: 1_704_067_200, nanos: 0 });
    let t = parse_timestamp("2024-01-01T01:00:00.250+01:00").unwrap();
    assert_eq!(t, Instant { secs: 1_704_067_200, nanos: 250_000_000 });
    assert_eq!(parse_timestamp("yesterday"), Err(ParseError::InvalidTimestamp));
}

#[test]
fn json_line_maps_channels_and_extras() {
    let mut p = TcpLineParser::new(FrameFormat::Jsonl, csv(false, &[], ","));
    let line = r#"{"ts":"2024-01-01T00:00:00Z","btC":"10","etC":20.5,"fanPct":"","zone":" hot ","gain":3,"flag":true}"#;
    let s = p.parse_line(line, now()).unwrap().unwrap();
    assert_eq!(s.ts, Instant { secs: 1_704_067_200, nanos: 0 });
    assert_eq!(s.bt_c.as_deref(), Some("10"));
    assert_eq!(s.et_c.as_deref(), Some("20.5"));
    assert_eq!(s.fan_pct, None);
    assert_eq!(s.power_pct, None);
    assert_eq!(s.drum_rpm, None);
    assert_eq!(s.extras.len(), 2);
    assert_eq!(s.extras[0].key, "gain");
    assert_eq!(s.extras[0].number_value.as_deref(), Some("3"));
    assert_eq!(s.extras[1].key, "zone");
    assert_eq!(s.extras[1].text_value.as_deref(), Some("hot"));
}

#[test]
fn json_line_without_ts_is_stamped_now() {
    let mut p = TcpLineParser::new(FrameFormat::Jsonl, csv(false, &[], ","));
    let s = p.parse_line("{\"drumRpm\":60}", now()).unwrap().unwrap();
    assert_eq!(s.ts, now());
    assert_eq!(s.drum_rpm.as_deref(), Some("60"));
}

#[test]
fn json_errors_and_empty_lines() {
    let mut p = TcpLineParser::new(FrameFormat::Jsonl, csv(false, &[], ","));
    assert_eq!(p.parse_line("   ", now()).unwrap().is_none(), true);
    assert_eq!(p.parse_line("{not json", now()).err(), Some(ParseError::InvalidJson));
    assert_eq!(p.parse_line("[1,2]", now()).err(), Some(ParseError::InvalidJson));
    assert_eq!(p.parse_line(r#"{"ts":"soon","btC":1}"#, now()).err(), Some(ParseError::InvalidTimestamp));
    assert!(p.parse_line(r#"{"other":""}"#, now()).unwrap().is_none());
    assert!(p.parse_line(r#"{"btC":"warm"}"#, now()).unwrap().is_none());
}

#[test]
fn csv_header_sets_columns() {
    let mut p = TcpLineParser::new(FrameFormat::Csv, csv(true, &[], ";"));
    assert!(p.parse_line("etC; btC ;note", now()).unwrap().is_none());
    assert!(p.csv_header_parsed);
    assert_eq!(p.csv_columns, vec!["etC".to_string(), "btC".to_string(), "note".to_string()]);
    let s = p.parse_line("150; 200 ; first crack ;ignored", now()).unwrap().unwrap();
    assert_eq!(s.et_c.as_deref(), Some("150"));
    assert_eq!(s.bt_c.as_deref(), Some("200"));
    assert_eq!(s.extras.len(), 1);
    assert_eq!(s.extras[0].key, "note");
    assert_eq!(s.extras[0].text_value.as_deref(), Some("first crack"));
    p.reset();
    assert!(!p.csv_header_parsed);
    assert!(p.parse_line("btC", now()).unwrap().is_none());
    assert_eq!(p.csv_columns, vec!["btC".to_string()]);
}

#[test]
fn csv_default_columns_without_header() {
    let mut p = TcpLineParser::new(FrameFormat::Csv, csv(false, &[], ","));
    let s = p.parse_line("2024-01-01T00:00:01Z,10,20,30,40,50", now()).unwrap().unwrap();
    assert_eq!(s.ts, Instant { secs: 1_704_067_201, nanos: 0 });
    assert_eq!(s.bt_c.as_deref(), Some("10"));
    assert_eq!(s.et_c.as_deref(), Some("20"));
    assert_eq!(s.power_pct.as_deref(), Some("30"));
    assert_eq!(s.fan_pct.as_deref(), Some("40"));
    assert_eq!(s.drum_rpm.as_deref(), Some("50"));
    assert!(s.extras.is_empty());
    assert_eq!(p.parse_line(",1", now()).err(), Some(ParseError::InvalidTimestamp));
}

#[test]
fn csv_configured_columns() {
    let mut p = TcpLineParser::new(FrameFormat::Csv, csv(false, &["btC", "humidity"], ","));
    let s = p.parse_line("7,55", now()).unwrap().unwrap();
    assert_eq!(s.ts, now());
    assert_eq!(s.bt_c.as_deref(), Some("7"));
    assert_eq!(s.extras[0].number_value.as_deref(), Some("55"));
}

#[test]
fn parse_error_messages() {
    assert_eq!(ParseError::InvalidJson.message(), "invalid json");
    assert_eq!(ParseError::InvalidTimestamp.message(), "invalid timestamp");
}

#[test]
fn csv_split_edge_cases() {
    let mut p = TcpLineParser::new(FrameFormat::Csv, csv(false, &["x", "btC", "etC"], ""));
    let s = p.parse_line("12", now()).unwrap().unwrap();
    assert_eq!(s.bt_c.as_deref(), Some("1"));
    assert_eq!(s.et_c.as_deref(), Some("2"));
    let mut p = TcpLineParser::new(FrameFormat::Csv, csv(false, &["btC", "etC", "fanPct"], "::"));
    let s = p.parse_line("1::::3", now()).unwrap().unwrap();
    assert_eq!(s.bt_c.as_deref(), Some("1"));
    assert_eq!(s.et_c, None);
    assert_eq!(s.fan_pct.as_deref(), Some("3"));
}

#[test]
fn non_string_ts_is_invalid() {
    let mut p = TcpLineParser::new(FrameFormat::Jsonl, csv(false, &[], ","));
    assert_eq!(p.parse_line(r#"{"ts":1704067200,"btC":1}"#, now()).err(), Some(ParseError::InvalidTimestamp));
    assert_eq!(p.parse_line(r#"{"ts":null,"btC":1}"#, now()).err(), Some(ParseError::InvalidTimestamp));
}
