use tcp_line_driver::driver::{Action, DriverInner, DriverState, ReconnectConfig, TcpLineDriverConfig};
use tcp_line_driver::parser::{CsvConfig, FrameFormat};
use tcp_line_driver::time::Instant;

fn config(format: FrameFormat, dedupe: u64, reconnect: bool) -> TcpLineDriverConfig {
    TcpLineDriverConfig {
        host: "127.0.0.1".to_string(),
        port: 9000,
        format,
        csv: CsvConfig { has_header: false, columns: vec![], delimiter: ",".to_string() },
        emit_interval_ms: 100,
        dedupe_within_ms: dedupe,
        reconnect: ReconnectConfig { enabled: reconnect, min_backoff_ms: 100, max_backoff_ms: 1000 },
    }
}

fn connected(format: FrameFormat, dedupe: u64, reconnect: bool) -> DriverInner {
    let mut d = DriverInner::new(config(format, dedupe, reconnect), "m-1".to_string());
    assert!(d.ensure_loop());
    assert_eq!(d.begin_cycle(), Action::Connect);
    assert_eq!(d.state, DriverState::CONNECTING);
    assert_eq!(d.handle_connected(), Action::ReadLine);
    d
}

#[test]
fn end_to_end_two_lines_with_offset() {
    let mut d = connected(FrameFormat::Jsonl, 0, true);
    let offset_bt = 2.0f64;
    assert_eq!(d.handle_line(r#"{"ts":"2024-01-01T00:00:00Z","btC":"10"}"#), Action::ReadLine);
    let p1 = d.read_telemetry().unwrap();
    assert_eq!(d.handle_line(r#"{"ts":"2024-01-01T00:00:01Z","btC":"12"}"#), Action::ReadLine);
    let p2 = d.read_telemetry().unwrap();
    let bt = |p: &Option<String>| p.as_ref().unwrap().parse::<f64>().unwrap() + offset_bt;
    assert_eq!(bt(&p1.bt_c), 12.0);
    assert_eq!(bt(&p2.bt_c), 14.0);
    assert_eq!(p1.elapsed_ms as f64 / 1000.0, 0.0);
    assert_eq!(p2.elapsed_ms as f64 / 1000.0, 1.0);
    assert_eq!(p1.ts, "2024-01-01T00:00:00.000Z");
    assert_eq!(p2.ts, "2024-01-01T00:00:01.000Z");
    assert_eq!(p1.machine_id, "m-1");
    let st = d.get_status();
    assert_eq!(st.metrics.lines_received, 2);
    assert_eq!(st.metrics.lines_parsed, 2);
    assert_eq!(st.metrics.telemetry_emitted, 2);
    assert_eq!(st.metrics.last_line_at.as_deref(), Some("2024-01-01T00:00:01.000Z"));
}

#[test]
fn dedupe_window_drops_close_samples() {
    let mut d = connected(FrameFormat::Jsonl, 500, true);
    d.handle_line(r#"{"ts":"2024-01-01T00:00:00Z","btC":"1"}"#);
    d.handle_line(r#"{"ts":"2024-01-01T00:00:00.499Z","btC":"2"}"#);
    assert_eq!(d.metrics.lines_parsed, 1);
    assert_eq!(d.read_telemetry().unwrap().bt_c.as_deref(), Some("1"));
    d.handle_line(r#"{"ts":"2024-01-01T00:00:00.500Z","btC":"3"}"#);
    assert_eq!(d.metrics.lines_parsed, 2);
    let p = d.read_telemetry().unwrap();
    assert_eq!(p.bt_c.as_deref(), Some("3"));
    assert_eq!(p.elapsed_ms, 500);
}

#[test]
fn elapsed_time_clamps_at_zero() {
    let mut d = connected(FrameFormat::Jsonl, 0, true);
    d.handle_line(r#"{"ts":"2024-01-01T00:00:05Z","btC":"1"}"#);
    d.handle_line(r#"{"ts":"2024-01-01T00:00:02Z","btC":"2"}"#);
    let p = d.read_telemetry().unwrap();
    assert_eq!(p.bt_c.as_deref(), Some("2"));
    assert_eq!(p.elapsed_ms, 0);
}

#[test]
fn parse_errors_are_counted_not_fatal() {
    let mut d = connected(FrameFormat::Jsonl, 0, true);
    assert_eq!(d.handle_line("{broken"), Action::ReadLine);
    assert_eq!(d.metrics.parse_errors, 1);
    assert_eq!(d.metrics.lines_received, 1);
    assert_eq!(d.metrics.last_error.as_deref(), Some("invalid json"));
    assert_eq!(d.state, DriverState::CONNECTED);
}

#[test]
fn read_before_any_sample_fails() {
    let mut d = connected(FrameFormat::Jsonl, 0, true);
    assert_eq!(d.read_telemetry().err().as_deref(), Some("no telemetry yet"));
    assert!(d.sample_outcome().is_none());
    assert_eq!(d.read_timeout_ms(), 500);
}

#[test]
fn connect_twice_is_idempotent() {
    let mut d = connected(FrameFormat::Jsonl, 0, true);
    assert_eq!(d.connect_outcome(), Some(Ok(())));
    assert!(!d.ensure_loop());
    assert_eq!(d.connect_outcome(), Some(Ok(())));
}

#[test]
fn reconnect_cycles_back_off_and_reset() {
    let mut d = DriverInner::new(config(FrameFormat::Jsonl, 0, true), "m".to_string());
    assert!(d.ensure_loop());
    let mut delays = vec![];
    for _ in 0..6 {
        assert_eq!(d.begin_cycle(), Action::Connect);
        match d.connection_lost("connection failure: refused".to_string()) {
            Action::Sleep(ms) => delays.push(ms),
            other => panic!("{:?}", other),
        }
        assert_eq!(d.state, DriverState::DISCONNECTED);
        assert_eq!(d.connect_outcome(), None);
    }
    assert_eq!(delays, vec![100, 200, 400, 800, 1000, 1000]);
    assert_eq!(d.metrics.reconnects, 6);
    d.begin_cycle();
    d.handle_connected();
    assert_eq!(d.metrics.last_error, None);
    assert_eq!(d.connection_closed(), Action::Sleep(100));
    assert_eq!(d.metrics.last_error.as_deref(), Some("socket closed"));
}

#[test]
fn drop_without_reconnect_ends_pending_reads() {
    let mut d = connected(FrameFormat::Jsonl, 0, false);
    d.handle_line(r#"{"btC":"1"}"#);
    assert_eq!(d.sample_outcome(), Some(Ok(())));
    assert_eq!(d.connection_closed(), Action::Finish);
    assert_eq!(d.state, DriverState::DISCONNECTED);
    assert_eq!(d.sample_outcome(), Some(Err("socket closed".to_string())));
    assert_eq!(d.connect_outcome(), Some(Err("socket closed".to_string())));
    assert!(d.ensure_loop());
    assert!(!d.finished);
    assert!(!d.ensure_loop());
    assert_eq!(d.begin_cycle(), Action::Connect);
    assert_eq!(d.connect_outcome(), None);
}

#[test]
fn disconnect_stops_readers_and_connect() {
    let mut d = connected(FrameFormat::Jsonl, 0, true);
    d.disconnect();
    assert_eq!(d.state, DriverState::STOPPED);
    assert_eq!(d.sample_outcome(), Some(Err("driver stopped".to_string())));
    assert_eq!(d.connect_outcome(), Some(Err("driver stopped".to_string())));
    assert_eq!(d.handle_line(r#"{"btC":"1"}"#), Action::Finish);
    assert_eq!(d.state, DriverState::STOPPED);
    d.disconnect();
    assert_eq!(d.state, DriverState::STOPPED);
    assert!(!d.ensure_loop());
    assert_eq!(d.begin_cycle(), Action::Finish);
}

#[test]
fn connection_failure_surfaces_when_reconnect_is_off() {
    let mut d = DriverInner::new(config(FrameFormat::Jsonl, 0, false), "m".to_string());
    assert_eq!(d.connect_outcome(), Some(Err("disconnected".to_string())));
    d.ensure_loop();
    d.begin_cycle();
    assert_eq!(d.connect_outcome(), None);
    assert_eq!(d.connection_lost("connection failure: refused".to_string()), Action::Finish);
    assert_eq!(d.connect_outcome(), Some(Err("connection failure: refused".to_string())));
}

#[test]
fn reconnection_clears_connection_state() {
    let mut d = connected(FrameFormat::Jsonl, 0, true);
    d.handle_line(r#"{"ts":"2024-01-01T00:00:00Z","btC":"1"}"#);
    d.connection_closed();
    assert!(d.latest_sample.is_none());
    d.begin_cycle();
    d.handle_connected();
    d.handle_line(r#"{"ts":"2024-01-01T00:00:09Z","btC":"1"}"#);
    assert_eq!(d.read_telemetry().unwrap().elapsed_ms, 0);
}

#[test]
fn read_timeout_scales_with_interval() {
    let mut c = config(FrameFormat::Jsonl, 0, true);
    c.emit_interval_ms = 400;
    let d = DriverInner::new(c, "m".to_string());
    assert_eq!(d.read_timeout_ms(), 800);
}

#[test]
fn line_without_time_is_stamped_with_arrival() {
    let mut d = connected(FrameFormat::Jsonl, 0, true);
    let at = Instant { secs: 1_704_067_200, nanos: 0 };
    assert_eq!(d.handle_line_at(r#"{"fanPct":"40","mode":"auto"}"#, at), Action::ReadLine);
    let p = d.read_telemetry().unwrap();
    assert_eq!(p.ts, "2024-01-01T00:00:00.000Z");
    assert_eq!(p.fan_pct.as_deref(), Some("40"));
    assert_eq!(p.extras[0].key, "mode");
    assert_eq!(p.extras[0].text_value.as_deref(), Some("auto"));
    assert_eq!(d.handle_line_at(r#"{"ts":"never"}"#, at), Action::ReadLine);
    assert_eq!(d.metrics.parse_errors, 1);
    assert_eq!(d.metrics.last_error.as_deref(), Some("invalid timestamp"));
}

#[test]
fn elapsed_seconds_follow_sample_time() {
    let mut d = connected(FrameFormat::Jsonl, 0, true);
    d.handle_line(r#"{"ts":"2024-01-01T00:00:00Z","etC":"1"}"#);
    assert_eq!(d.read_telemetry().unwrap().elapsed_ms, 0);
    d.handle_line(r#"{"ts":"2024-01-01T00:00:01.500Z","etC":"1"}"#);
    let p = d.read_telemetry().unwrap();
    assert_eq!(p.elapsed_ms as f64 / 1000.0, 1.5);
    assert_eq!(p.et_c.as_deref(), Some("1"));
}

#[test]
fn read_after_disconnect_fails_even_with_a_sample() {
    let mut d = connected(FrameFormat::Jsonl, 0, true);
    d.handle_line(r#"{"ts":"2024-01-01T00:00:00Z","btC":"1"}"#);
    d.disconnect();
    assert_eq!(d.read_telemetry().err().as_deref(), Some("driver stopped"));
    assert_eq!(d.metrics.telemetry_emitted, 0);
}

#[test]
fn failure_keeps_counters_and_restores_columns() {
    let mut c = config(FrameFormat::Csv, 0, true);
    c.csv = CsvConfig { has_header: true, columns: vec!["btC".to_string()], delimiter: ",".to_string() };
    let mut d = DriverInner::new(c, "m".to_string());
    d.ensure_loop();
    d.begin_cycle();
    d.handle_connected();
    d.handle_line("etC,x");
    d.handle_line("5,y");
    d.read_telemetry().unwrap();
    assert_eq!(d.parser.csv_columns, vec!["etC".to_string(), "x".to_string()]);
    d.handle_failure("socket error: reset".to_string());
    assert_eq!(d.parser.csv_columns, vec!["btC".to_string()]);
    assert!(!d.parser.csv_header_parsed);
    assert_eq!(d.metrics.lines_received, 2);
    assert_eq!(d.metrics.lines_parsed, 1);
    assert_eq!(d.metrics.telemetry_emitted, 1);
    assert_eq!(d.metrics.last_error.as_deref(), Some("socket error: reset"));
    assert!(d.metrics.last_line_at.is_some());
}
