use broker_client::client::a::types::{
    cached_layout, check_order_flags, check_replace_fields, is_false, AEvent, Cached, CachedLayout, CancelRequest,
    PanicRequest,
};
use broker_client::error::Error;
use broker_client::types::BrokerEvent;

fn json(text: &str) -> serde_json::Value {
    serde_json::from_str(text).unwrap()
}

/// The parts of an A-share frame `{type, timestamp_ms, data}` whose payload
/// carries no cache markers.
fn event(event_type: &str, timestamp_ms: Option<i64>, data: &str) -> AEvent {
    AEvent::from_parts(event_type.to_owned(), json(data), timestamp_ms, None, None)
}

#[test]
fn a_event_parses_all_documented_types() {
    let cases = [
        ("order.updated", "OrderUpdated"),
        ("position.changed", "PositionChanged"),
        ("account.changed", "AccountChanged"),
        ("account.balance_changed", "AccountBalanceChanged"),
        ("query.cache_hit", "QueryCacheHit"),
        ("replace.updated", "ReplaceUpdated"),
        ("order.no_mapping", "OrderNoMapping"),
        ("order.manual_review", "OrderManualReview"),
        ("risk.panic", "RiskPanic"),
        ("health.changed", "HealthChanged"),
        ("mock.account_changed", "MockAccountChanged"),
        ("ws.lagged", "WsLagged"),
    ];

    for (kind, variant) in cases {
        let event = event(kind, Some(1730000000000_i64), r#"{"value": 1}"#);
        let name = match &event {
            AEvent::OrderUpdated { .. } => "OrderUpdated",
            AEvent::PositionChanged { .. } => "PositionChanged",
            AEvent::AccountChanged { .. } => "AccountChanged",
            AEvent::AccountBalanceChanged { .. } => "AccountBalanceChanged",
            AEvent::QueryCacheHit { .. } => "QueryCacheHit",
            AEvent::ReplaceUpdated { .. } => "ReplaceUpdated",
            AEvent::OrderNoMapping { .. } => "OrderNoMapping",
            AEvent::OrderManualReview { .. } => "OrderManualReview",
            AEvent::RiskPanic { .. } => "RiskPanic",
            AEvent::HealthChanged { .. } => "HealthChanged",
            AEvent::MockAccountChanged { .. } => "MockAccountChanged",
            AEvent::WsLagged { .. } => "WsLagged",
            AEvent::Unknown { .. } => "Unknown",
        };
        assert_eq!(name, variant);

        if let AEvent::QueryCacheHit {
            data,
            timestamp_ms,
            from_cache,
            ..
        } = &event
        {
            assert_eq!(data["value"], 1);
            assert_eq!(*timestamp_ms, Some(1730000000000_i64));
            assert!(!from_cache);
        } else {
            assert!(!matches!(&event, AEvent::Unknown { .. }));
        }
    }
}

#[test]
fn a_event_unknown_preserves_type_data_and_timestamp() {
    let event = event("future.event", Some(42), r#"{"x": 1}"#);
    match event {
        AEvent::Unknown {
            event_type,
            data,
            timestamp_ms,
        } => {
            assert_eq!(event_type, "future.event");
            assert_eq!(data["x"], 1);
            assert_eq!(timestamp_ms, Some(42));
        }
        _ => panic!("expected unknown"),
    }
}

#[test]
fn a_event_converts_to_unified_broker_event() {
    let ev = event("order.updated", Some(42), r#"{"client_order_id": "C1"}"#);
    let unified: BrokerEvent = ev.into();
    assert!(matches!(
        unified,
        BrokerEvent::OrderUpdated {
            timestamp_ms: Some(42),
            ..
        }
    ));

    let unknown = event("future.event", Some(7), r#"{"x": 1}"#);
    let unified: BrokerEvent = unknown.into();
    match unified {
        BrokerEvent::Unknown {
            event_type,
            data,
            timestamp_ms,
        } => {
            assert_eq!(event_type, "future.event");
            assert_eq!(data["x"], 1);
            assert_eq!(timestamp_ms, Some(7));
        }
        _ => panic!("expected unknown"),
    }
}

#[test]
fn a_event_query_cache_hit_preserves_cache_markers() {
    let data = json(
        r#"{"from_cache": true, "cached_at": "2026-01-01T00:00:00Z", "account": "A1"}"#,
    );
    let event = AEvent::from_parts(
        "query.cache_hit".to_owned(),
        data,
        Some(7),
        Some(true),
        Some("2026-01-01T00:00:00Z".to_owned()),
    );
    match event {
        AEvent::QueryCacheHit {
            data,
            from_cache,
            cached_at,
            timestamp_ms,
        } => {
            assert!(from_cache);
            assert_eq!(cached_at.as_deref(), Some("2026-01-01T00:00:00Z"));
            assert_eq!(data["account"], "A1");
            assert_eq!(timestamp_ms, Some(7));
        }
        _ => panic!("expected query cache hit"),
    }
}

#[test]
fn a_event_new_v040_types_preserve_payload_and_timestamp() {
    let mock = event(
        "mock.account_changed",
        Some(1730000000000_i64),
        r#"{"cash": 100000.0, "positions": []}"#,
    );
    assert!(matches!(
        mock,
        AEvent::MockAccountChanged { data, timestamp_ms }
            if data["cash"] == 100000.0 && timestamp_ms == Some(1730000000000)
    ));

    let lagged = event(
        "ws.lagged",
        Some(1730000000001_i64),
        r#"{"skipped": 17, "message": "consumer lagged, some events were skipped"}"#,
    );
    match lagged {
        AEvent::WsLagged { data, timestamp_ms } => {
            assert_eq!(data["skipped"], 17);
            assert_eq!(timestamp_ms, Some(1730000000001));
        }
        other => panic!("expected WsLagged, got {other:?}"),
    }
}

#[test]
fn a_event_new_v040_types_convert_to_unified_events() {
    let mock = event("mock.account_changed", Some(42), r#"{"updated": true}"#);
    assert!(matches!(
        BrokerEvent::from(mock),
        BrokerEvent::MockAccountChanged {
            data,
            timestamp_ms: Some(42)
        } if data["updated"] == true
    ));

    let lagged = event("ws.lagged", Some(43), r#"{"skipped": 3}"#);
    assert!(matches!(
        BrokerEvent::from(lagged),
        BrokerEvent::WsLagged {
            data,
            timestamp_ms: Some(43)
        } if data["skipped"] == 3
    ));
}

#[test]
fn a_event_unknown_type_remains_unknown_after_new_types_are_added() {
    let event = event("future.event", Some(44), r#"{"x": 1}"#);
    assert!(matches!(event, AEvent::Unknown { event_type, .. } if event_type == "future.event"));
}

#[test]
fn a_event_without_timestamp_still_parses() {
    let event = event("order.updated", None, r#"{"status": "FILLED"}"#);
    match event {
        AEvent::OrderUpdated { timestamp_ms, data } => {
            assert_eq!(timestamp_ms, None);
            assert_eq!(data["status"], "FILLED");
        }
        _ => panic!("expected order updated"),
    }
}

#[test]
fn a_event_types_are_matched_exactly() {
    assert!(matches!(
        event("Order.Updated", None, "{}"),
        AEvent::Unknown { event_type, .. } if event_type == "Order.Updated"
    ));
    assert!(matches!(
        event("", None, "{}"),
        AEvent::Unknown { event_type, .. } if event_type.is_empty()
    ));
}

#[test]
fn a_events_keep_kind_payload_and_timestamp_when_unified() {
    let kinds = [
        "order.updated",
        "position.changed",
        "account.changed",
        "account.balance_changed",
        "replace.updated",
        "order.no_mapping",
        "order.manual_review",
        "risk.panic",
        "health.changed",
    ];
    for kind in kinds {
        let unified = BrokerEvent::from(event(kind, Some(9), r#"{"k": "v"}"#));
        let (data, ts) = match unified {
            BrokerEvent::OrderUpdated { data, timestamp_ms }
            | BrokerEvent::PositionChanged { data, timestamp_ms }
            | BrokerEvent::AccountChanged { data, timestamp_ms }
            | BrokerEvent::AccountBalanceChanged { data, timestamp_ms }
            | BrokerEvent::ReplaceUpdated { data, timestamp_ms }
            | BrokerEvent::OrderNoMapping { data, timestamp_ms }
            | BrokerEvent::OrderManualReview { data, timestamp_ms }
            | BrokerEvent::RiskPanic { data, timestamp_ms }
            | BrokerEvent::HealthChanged { data, timestamp_ms } => (data, timestamp_ms),
            other => panic!("unexpected {other:?} for {kind}"),
        };
        assert_eq!(data["k"], "v");
        assert_eq!(ts, Some(9));
    }
    let hit = AEvent::from_parts("query.cache_hit".to_owned(), json("{}"), None, Some(false), None);
    assert!(matches!(
        BrokerEvent::from(hit),
        BrokerEvent::QueryCacheHit { from_cache: false, cached_at: None, timestamp_ms: None, .. }
    ));
}

#[test]
fn cached_layout_is_wrapped_only_with_data_and_a_marker() {
    assert_eq!(cached_layout(true, true, false), CachedLayout::Wrapped);
    assert_eq!(cached_layout(true, false, true), CachedLayout::Wrapped);
    assert_eq!(cached_layout(true, false, false), CachedLayout::Bare);
    assert_eq!(cached_layout(false, true, true), CachedLayout::Bare);
    assert_eq!(cached_layout(false, false, false), CachedLayout::Bare);
}

#[test]
fn cached_markers_default_to_not_cached() {
    let direct = Cached::from_parts("A1".to_owned(), Some(true), Some("2026-08-28T10:00:00Z".to_owned()));
    assert!(direct.from_cache);
    assert_eq!(direct.cached_at.as_deref(), Some("2026-08-28T10:00:00Z"));
    assert_eq!(direct.data, "A1");

    let plain = Cached::from_parts(vec![1, 2], None, None);
    assert!(!plain.from_cache);
    assert_eq!(plain.cached_at, None);

    let explicit = Cached::from_parts((), Some(false), Some("t".to_owned()));
    assert!(!explicit.from_cache);
    assert_eq!(explicit.cached_at.as_deref(), Some("t"));
}

#[test]
fn cached_map_keeps_markers() {
    let cached = Cached::from_parts(vec![1, 2, 3], Some(true), Some("t".to_owned()));
    let mapped = cached.map(|v| v.len());
    assert_eq!(mapped.data, 3);
    assert!(mapped.from_cache);
    assert_eq!(mapped.cached_at.as_deref(), Some("t"));
}

#[test]
fn replace_request_must_set_a_field() {
    assert!(check_replace_fields(true, false).is_ok());
    assert!(check_replace_fields(false, true).is_ok());
    assert!(check_replace_fields(true, true).is_ok());
    assert_eq!(
        check_replace_fields(false, false),
        Err(Error::InvalidRequest(
            "replace request must set new_price and/or new_quantity".to_owned()
        ))
    );
}

#[test]
fn cancel_and_panic_requests_carry_optional_reasons() {
    assert_eq!(CancelRequest::new().reason, None);
    assert_eq!(CancelRequest::default(), CancelRequest::new());
    assert_eq!(CancelRequest::with_reason("user").reason.as_deref(), Some("user"));
    assert_eq!(PanicRequest::new().reason, None);
    assert_eq!(PanicRequest::default(), PanicRequest::new());
    assert_eq!(PanicRequest::with_reason("halt").reason.as_deref(), Some("halt"));
}

#[test]
fn unset_flags_are_false() {
    assert!(is_false(&false));
    assert!(!is_false(&true));
}

#[test]
fn mock_and_dry_run_are_refused_together() {
    assert_eq!(check_order_flags(false, false), Ok(()));
    assert_eq!(check_order_flags(true, false), Ok(()));
    assert_eq!(check_order_flags(false, true), Ok(()));
    assert_eq!(
        check_order_flags(true, true),
        Err(Error::InvalidRequest(
            "mock and dry_run are mutually exclusive".to_owned()
        ))
    );
}
