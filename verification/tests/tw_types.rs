use broker_client::client::tw::types::{
    broker_event_from_tw, LoginRequest, QuoteSubscription, QuoteSubscriptions, QuoteType,
    RecoveryResolveRequest, SubscribedSource, TwEventKind,
};
use broker_client::types::BrokerEvent;

fn json(text: &str) -> serde_json::Value {
    serde_json::from_str(text).unwrap()
}

fn sub(quote_type: QuoteType, symbols: &[&str]) -> QuoteSubscription {
    QuoteSubscription::new(quote_type, symbols.iter().map(|s| s.to_string()).collect())
}

#[test]
fn tw_event_kinds_follow_the_documented_types() {
    let cases = [
        ("welcome", TwEventKind::Welcome),
        ("Login", TwEventKind::Login),
        ("RR_RealReport", TwEventKind::RrRealReport),
        ("RR_RealReportMerge", TwEventKind::RrRealReportMerge),
        ("real_report", TwEventKind::RealReport),
        ("real_report_merge", TwEventKind::RealReportMerge),
        ("order.updated", TwEventKind::OrderUpdated),
        ("quote.updated", TwEventKind::QuoteUpdated),
        ("heartbeat", TwEventKind::Heartbeat),
        ("SubscribeWatchlist", TwEventKind::SubscribeWatchlist),
        ("SubscribeWatchlistAll", TwEventKind::SubscribeWatchlistAll),
        ("SubscribeFiveTickA", TwEventKind::SubscribeFiveTickA),
        ("SubscribeStockTick", TwEventKind::SubscribeStockTick),
        ("SubscribeMarketInformation", TwEventKind::SubscribeMarketInformation),
        ("SubscribeStockInformation", TwEventKind::SubscribeStockInformation),
        ("future.event", TwEventKind::Unknown),
        ("login", TwEventKind::Unknown),
        ("", TwEventKind::Unknown),
    ];
    for (name, kind) in cases {
        assert_eq!(TwEventKind::of_type(name), kind, "{name}");
    }
}

#[test]
fn tw_frames_convert_to_unified_broker_events() {
    let order = broker_event_from_tw(
        TwEventKind::of_type("order.updated"),
        "order.updated".to_owned(),
        json(r#"{"client_order_id": "C1", "status": "FILLED"}"#),
        None,
    );
    assert!(matches!(order, BrokerEvent::OrderUpdated { timestamp_ms: None, .. }));

    let unknown = broker_event_from_tw(
        TwEventKind::of_type("future.event"),
        "future.event".to_owned(),
        json(r#"{"hello": 1}"#),
        None,
    );
    match unknown {
        BrokerEvent::Unknown {
            event_type,
            data,
            timestamp_ms,
        } => {
            assert_eq!(event_type, "future.event");
            assert_eq!(data["hello"], 1);
            assert_eq!(timestamp_ms, None);
        }
        _ => panic!("expected unknown"),
    }

    let welcome = broker_event_from_tw(
        TwEventKind::Welcome,
        "welcome".to_owned(),
        json(r#"{"type": "welcome", "message": "connected"}"#),
        Some("connected".to_owned()),
    );
    assert_eq!(
        welcome,
        BrokerEvent::Welcome {
            message: Some("connected".to_owned())
        }
    );
}

#[test]
fn tw_report_and_subscribe_kinds_merge_in_unified_events() {
    let data = || json(r#"{"stk_code": "2330"}"#);
    for kind in [TwEventKind::RrRealReport, TwEventKind::RealReport] {
        assert!(matches!(
            broker_event_from_tw(kind, String::new(), data(), None),
            BrokerEvent::RealReport { timestamp_ms: None, .. }
        ));
    }
    for kind in [TwEventKind::RrRealReportMerge, TwEventKind::RealReportMerge] {
        assert!(matches!(
            broker_event_from_tw(kind, String::new(), data(), None),
            BrokerEvent::RealReportMerge { timestamp_ms: None, .. }
        ));
    }
    for kind in [
        TwEventKind::SubscribeWatchlist,
        TwEventKind::SubscribeWatchlistAll,
        TwEventKind::SubscribeFiveTickA,
        TwEventKind::SubscribeStockTick,
        TwEventKind::SubscribeMarketInformation,
        TwEventKind::SubscribeStockInformation,
    ] {
        match broker_event_from_tw(kind, String::new(), data(), None) {
            BrokerEvent::Subscribed { data, timestamp_ms } => {
                assert_eq!(data["stk_code"], "2330");
                assert_eq!(timestamp_ms, None);
            }
            other => panic!("expected Subscribed, got {other:?}"),
        }
    }
    assert!(matches!(
        broker_event_from_tw(TwEventKind::Login, "Login".to_owned(), data(), None),
        BrokerEvent::Login { .. }
    ));
    assert!(matches!(
        broker_event_from_tw(TwEventKind::QuoteUpdated, "quote.updated".to_owned(), data(), None),
        BrokerEvent::QuoteUpdated { .. }
    ));
    assert!(matches!(
        broker_event_from_tw(TwEventKind::Heartbeat, "heartbeat".to_owned(), data(), None),
        BrokerEvent::Heartbeat { .. }
    ));
}

#[test]
fn quote_types_and_sources_have_wire_names() {
    assert_eq!(QuoteType::Watchlist.wire_name(), "watchlist");
    assert_eq!(QuoteType::WatchlistAll.wire_name(), "watchlist_all");
    assert_eq!(QuoteType::FiveTick.wire_name(), "five_tick");
    assert_eq!(QuoteType::StockTick.wire_name(), "stock_tick");
    assert_eq!(QuoteType::MarketInfo.wire_name(), "market_info");
    assert_eq!(QuoteType::StockInfo.wire_name(), "stock_info");
    assert_eq!(SubscribedSource::Local.query_value(), "local");
    assert_eq!(SubscribedSource::Broker.query_value(), "broker");
    assert_eq!(SubscribedSource::Both.query_value(), "both");
}

#[test]
fn quote_subscription_builders_set_documented_fields() {
    let s = sub(QuoteType::FiveTick, &["2330", "2885"])
        .account("S98875005091")
        .market_type("TWSE")
        .index_flag(7);
    assert_eq!(s.quote_type, QuoteType::FiveTick);
    assert_eq!(s.symbols, vec!["2330".to_owned(), "2885".to_owned()]);
    assert_eq!(s.account.as_deref(), Some("S98875005091"));
    assert_eq!(s.market_type.as_deref(), Some("TWSE"));
    assert_eq!(s.index_flag, Some(7));
    assert!(s.same_as(&s.clone()));
    assert!(!s.same_as(&sub(QuoteType::FiveTick, &["2330", "2885"])));
}

#[test]
fn subscriptions_are_remembered_once_and_in_order() {
    let mut subs = QuoteSubscriptions::new();
    let a = sub(QuoteType::Watchlist, &["2330"]);
    let b = sub(QuoteType::FiveTick, &["2885"]);
    subs.remember(&a);
    subs.remember(&b);
    subs.remember(&a);
    assert_eq!(subs.len(), 2);
    assert!(subs.contains(&a));
    assert!(subs.contains(&b));
    let snapshot = subs.snapshot();
    assert_eq!(snapshot.len(), 2);
    assert!(snapshot[0].same_as(&a));
    assert!(snapshot[1].same_as(&b));
}

#[test]
fn forgetting_a_subscription_keeps_the_others() {
    let mut subs = QuoteSubscriptions::new();
    let a = sub(QuoteType::Watchlist, &["2330"]);
    let b = sub(QuoteType::FiveTick, &["2885"]);
    let c = sub(QuoteType::StockTick, &["2330", "2317"]);
    subs.remember(&a);
    subs.remember(&b);
    subs.remember(&c);
    subs.forget(&b);
    assert_eq!(subs.len(), 2);
    assert!(!subs.contains(&b));
    let snapshot = subs.snapshot();
    assert!(snapshot[0].same_as(&a));
    assert!(snapshot[1].same_as(&c));

    subs.forget(&sub(QuoteType::MarketInfo, &[]));
    assert_eq!(subs.len(), 2);
    subs.remember(&b);
    assert!(subs.snapshot()[2].same_as(&b));
}

#[test]
fn login_request_builders() {
    let empty = LoginRequest::empty();
    assert_eq!(empty, LoginRequest::default());
    assert_eq!(empty.account, None);
    let full = LoginRequest::new("S1", "pw", "/cert.pfx", "pp");
    assert_eq!(full.account.as_deref(), Some("S1"));
    assert_eq!(full.password.as_deref(), Some("pw"));
    assert_eq!(full.pfx_path.as_deref(), Some("/cert.pfx"));
    assert_eq!(full.pfx_pass.as_deref(), Some("pp"));
    let partial = LoginRequest::empty().account("S2").pfx_pass("x");
    assert_eq!(partial.account.as_deref(), Some("S2"));
    assert_eq!(partial.password, None);
    assert_eq!(partial.pfx_path, None);
    assert_eq!(partial.pfx_pass.as_deref(), Some("x"));
    assert_eq!(
        LoginRequest::empty().password("p").pfx_path("q"),
        LoginRequest {
            account: None,
            password: Some("p".to_owned()),
            pfx_path: Some("q".to_owned()),
            pfx_pass: None,
        }
    );
}

#[test]
fn recovery_resolve_request_sets_optional_fields() {
    let req = RecoveryResolveRequest::new("FILLED")
        .order_no("H00001")
        .trade_date("2026/08/28")
        .source("stock_orders")
        .note("人工確認");
    assert_eq!(req.status.as_deref(), Some("FILLED"));
    assert_eq!(req.order_no.as_deref(), Some("H00001"));
    assert_eq!(req.trade_date.as_deref(), Some("2026/08/28"));
    assert_eq!(req.source.as_deref(), Some("stock_orders"));
    assert_eq!(req.note.as_deref(), Some("人工確認"));
    let bare = RecoveryResolveRequest::new("CANCELLED");
    assert_eq!(bare.order_no, None);
    assert_eq!(bare.note, None);
    assert_eq!(RecoveryResolveRequest::default().status, None);
}
