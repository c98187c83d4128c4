use tirds::daemon::{
    advance_phase, stream_step, timer_step, CycleDecision, DaemonPhase, StreamDecision,
    StreamWake, TimerWake,
};
use tirds::stream::{stream_message_to_cache_rows, StreamEventData, StreamPayloadKind};

fn news_event(tickers: Vec<&str>) -> StreamEventData {
    StreamEventData {
        kind: StreamPayloadKind::News,
        event_id: "550e8400-e29b-41d4-a716-446655440000".to_string(),
        source: "tds:Finnhub".to_string(),
        value_json: r#"{"headline":"AAPL beats earnings","summary":"Apple reported strong Q4 results"}"#
            .to_string(),
        tickers: tickers.into_iter().map(|t| t.to_string()).collect(),
    }
}

#[test]
fn news_message_produces_sentiment_rows() {
    let event = news_event(vec!["AAPL"]);
    let rows = stream_message_to_cache_rows(&event, 1800);

    assert_eq!(rows.len(), 1);
    assert_eq!(rows[0].key, "sentiment:news:AAPL");
    assert_eq!(rows[0].category, "sentiment");
    assert!(rows[0].value_json.contains("AAPL beats earnings"));
    assert_eq!(rows[0].symbol, Some("AAPL".to_string()));
}

#[test]
fn multi_ticker_message_produces_multiple_rows() {
    let event = news_event(vec!["AAPL", "MSFT"]);
    let rows = stream_message_to_cache_rows(&event, 1800);

    assert_eq!(rows.len(), 2);
    assert_eq!(rows[0].key, "sentiment:news:AAPL");
    assert_eq!(rows[1].key, "sentiment:news:MSFT");
}

#[test]
fn no_ticker_message_produces_general_row() {
    let event = StreamEventData {
        kind: StreamPayloadKind::News,
        event_id: "abc123".to_string(),
        source: "tds:Finnhub".to_string(),
        value_json: r#"{"headline":"Market update"}"#.to_string(),
        tickers: vec![],
    };
    let rows = stream_message_to_cache_rows(&event, 1800);

    assert_eq!(rows.len(), 1);
    assert!(rows[0].key.starts_with("sentiment:news:_general_"));
    assert!(rows[0].symbol.is_none());
}

#[test]
fn economic_data_uses_ref_key() {
    let event = StreamEventData {
        kind: StreamPayloadKind::EconomicData {
            indicator: "UNRATE".to_string(),
        },
        event_id: "evt1".to_string(),
        source: "tds:FredApi".to_string(),
        value_json: r#"{"indicator":"UNRATE","value":3.7,"previous_value":3.8}"#.to_string(),
        tickers: vec![],
    };
    let rows = stream_message_to_cache_rows(&event, 1800);

    assert_eq!(rows.len(), 1);
    assert_eq!(rows[0].key, "ref:econ:UNRATE");
    assert_eq!(rows[0].category, "reference_symbol");
    assert!(rows[0].value_json.contains("3.7"));
}

#[test]
fn filing_message_uses_subscription_category() {
    let event = StreamEventData {
        kind: StreamPayloadKind::Filing,
        event_id: "evt2".to_string(),
        source: "tds:SecEdgarApi".to_string(),
        value_json: r#"{"filing_type":"10-K","filer_name":"Apple Inc"}"#.to_string(),
        tickers: vec!["AAPL".to_string()],
    };
    let rows = stream_message_to_cache_rows(&event, 1800);

    assert_eq!(rows.len(), 1);
    assert_eq!(rows[0].key, "sentiment:filing:AAPL");
    assert_eq!(rows[0].category, "subscription");
}

#[test]
fn timer_loops_exit_on_cancellation() {
    assert_eq!(timer_step(&TimerWake::Tick), CycleDecision::RunCycle);
    assert_eq!(timer_step(&TimerWake::Cancelled), CycleDecision::Exit);
}

#[test]
fn stream_loop_exits_on_cancellation_and_close() {
    assert!(matches!(
        stream_step(StreamWake::Cancelled, 1800),
        StreamDecision::Exit
    ));
    assert!(matches!(
        stream_step(StreamWake::Closed, 1800),
        StreamDecision::Exit
    ));
    assert!(matches!(
        stream_step(StreamWake::Lagged(7), 1800),
        StreamDecision::NoteLag(7)
    ));
    let event = news_event(vec!["AAPL"]);
    match stream_step(StreamWake::Message(&event), 1800) {
        StreamDecision::WriteRows(rows) => {
            assert_eq!(rows.len(), 1);
            assert_eq!(rows[0].key, "sentiment:news:AAPL");
        }
        _ => panic!("an event must become a batch write"),
    }
}

#[test]
fn daemon_phases_advance_in_order() {
    let p0 = DaemonPhase::Idle;
    let p1 = advance_phase(&p0);
    assert_eq!(p1, DaemonPhase::Running);
    let p2 = advance_phase(&p1);
    assert_eq!(p2, DaemonPhase::ShuttingDown);
    let p3 = advance_phase(&p2);
    assert_eq!(p3, DaemonPhase::Stopped);
    assert_eq!(advance_phase(&p3), DaemonPhase::Stopped);
}
