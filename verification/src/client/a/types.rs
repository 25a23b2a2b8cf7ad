//! Models of the A-share (同花顺) server API that carry no floating-point
//! data, and the decisions taken on its responses and events.

use vstd::prelude::*;
use vstd::string::*;
use vstd::std_specs::convert::FromSpecImpl;

use crate::config::opt_view;
use crate::error::Error;
use crate::text::owned;
use crate::types::BrokerEvent;

verus! {

/// Returns `true` when a flag is unset (fields the server defaults to `false`
/// are left out of request bodies when unset).
pub fn is_false(value: &bool) -> (r: bool)
    ensures
        r == !*value,
{
    !*value
}

/// A query response that may have been served from a local cache snapshot.
///
/// The A server can downgrade a failed read to the most recent local snapshot
/// and mark the response with `from_cache` and `cached_at`; this type keeps
/// those markers.
#[derive(Debug, Clone, PartialEq)]
pub struct Cached<T> {
    /// The actual response payload (account, positions, orders, etc.).
    pub data: T,
    /// `true` when this response was served from a local cache snapshot.
    pub from_cache: bool,
    /// When the cache snapshot was taken, if the server sent it.
    pub cached_at: Option<String>,
}

/// How a cached response is laid out.
#[derive(Debug, Clone, Copy, PartialEq, Eq, Structural)]
pub enum CachedLayout {
    /// `{ "data": ..., "from_cache": ..., "cached_at": ... }`: the payload is
    /// the `data` member.
    Wrapped,
    /// The payload's own fields, with the cache markers beside them; the
    /// payload is the object without `from_cache` and `cached_at`.
    Bare,
}

/// A response is wrapped when it has a `data` member together with either
/// cache marker.
pub open spec fn spec_cached_layout(has_data: bool, has_from_cache: bool, has_cached_at: bool) -> CachedLayout {
    if has_data && (has_from_cache || has_cached_at) {
        CachedLayout::Wrapped
    } else {
        CachedLayout::Bare
    }
}

/// Decides the layout of a cached response from which of the members `data`,
/// `from_cache` and `cached_at` it has.
pub fn cached_layout(has_data: bool, has_from_cache: bool, has_cached_at: bool) -> (r: CachedLayout)
    ensures
        r == spec_cached_layout(has_data, has_from_cache, has_cached_at),
{
    if has_data && (has_from_cache || has_cached_at) {
        CachedLayout::Wrapped
    } else {
        CachedLayout::Bare
    }
}

impl<T> Cached<T> {
    /// Builds a cached response from its payload and the markers found in the
    /// response: a missing (or non-boolean) `from_cache` means `false`.
    pub fn from_parts(data: T, from_cache: Option<bool>, cached_at: Option<String>) -> (r: Self)
        ensures
            r.data == data,
            r.from_cache == (from_cache == Some(true)),
            r.cached_at == cached_at,
    {
        let flag = match from_cache {
            Some(b) => b,
            None => false,
        };
        Cached { data, from_cache: flag, cached_at }
    }

    /// Maps the payload while preserving cache metadata.
    pub fn map<U, F: FnOnce(T) -> U>(self, f: F) -> (r: Cached<U>)
        requires
            f.requires((self.data,)),
        ensures
            f.ensures((self.data,), r.data),
            r.from_cache == self.from_cache,
            r.cached_at == self.cached_at,
    {
        Cached { data: f(self.data), from_cache: self.from_cache, cached_at: self.cached_at }
    }
}

/// Request body for `POST /v1/orders/{client_order_id}/cancel`.
#[derive(Debug, Clone, PartialEq, Eq)]
pub struct CancelRequest {
    /// Optional cancellation reason.
    pub reason: Option<String>,
}

impl Default for CancelRequest {
    /// No reason.
    fn default() -> (r: Self)
        ensures
            r.reason is None,
    {
        CancelRequest { reason: None }
    }
}

impl CancelRequest {
    /// Creates an empty cancel request.
    pub fn new() -> (r: Self)
        ensures
            r.reason is None,
    {
        Self::default()
    }

    /// Creates a cancel request with a reason.
    pub fn with_reason(reason: &str) -> (r: Self)
        ensures
            opt_view(r.reason) == Some(reason@),
    {
        CancelRequest { reason: Some(owned(reason)) }
    }
}

/// Request body for `POST /v1/control/panic`.
#[derive(Debug, Clone, PartialEq, Eq)]
pub struct PanicRequest {
    /// Optional panic reason.
    pub reason: Option<String>,
}

impl Default for PanicRequest {
    /// No reason.
    fn default() -> (r: Self)
        ensures
            r.reason is None,
    {
        PanicRequest { reason: None }
    }
}

impl PanicRequest {
    /// Creates a panic request without a reason.
    pub fn new() -> (r: Self)
        ensures
            r.reason is None,
    {
        Self::default()
    }

    /// Creates a panic request with a reason.
    pub fn with_reason(reason: &str) -> (r: Self)
        ensures
            opt_view(r.reason) == Some(reason@),
    {
        PanicRequest { reason: Some(owned(reason)) }
    }
}

/// A replace request must set a new price, a new quantity, or both; one that
/// sets neither is refused before it is sent.
pub fn check_replace_fields(has_new_price: bool, has_new_quantity: bool) -> (r: Result<(), Error>)
    ensures
        (has_new_price || has_new_quantity) ==> r is Ok,
        !(has_new_price || has_new_quantity) ==> (r matches Err(Error::InvalidRequest(m))
            && m@ == "replace request must set new_price and/or new_quantity"@),
{
    if has_new_price || has_new_quantity {
        Ok(())
    } else {
        Err(Error::InvalidRequest(owned("replace request must set new_price and/or new_quantity")))
    }
}

/// An order may set `mock` or `dry_run` but not both: the server refuses the
/// pair with `400`, so the client refuses it before sending anything.
pub fn check_order_flags(mock: bool, dry_run: bool) -> (r: Result<(), Error>)
    ensures
        !(mock && dry_run) ==> r is Ok,
        (mock && dry_run) ==> (r matches Err(Error::InvalidRequest(m))
            && m@ == "mock and dry_run are mutually exclusive"@),
{
    if mock && dry_run {
        Err(Error::InvalidRequest(owned("mock and dry_run are mutually exclusive")))
    } else {
        Ok(())
    }
}

/// WebSocket events pushed by the A-share server.
///
/// Every known variant keeps the raw `data` JSON and the optional
/// `timestamp_ms` so callers never lose server-side details.
#[derive(Debug, Clone, PartialEq)]
pub enum AEvent {
    /// `order.updated`
    OrderUpdated {
        /// Raw event payload.
        data: serde_json::Value,
        /// Server timestamp in milliseconds.
        timestamp_ms: Option<i64>,
    },
    /// `position.changed`
    PositionChanged {
        /// Raw event payload.
        data: serde_json::Value,
        /// Server timestamp in milliseconds.
        timestamp_ms: Option<i64>,
    },
    /// `account.changed`
    AccountChanged {
        /// Raw event payload.
        data: serde_json::Value,
        /// Server timestamp in milliseconds.
        timestamp_ms: Option<i64>,
    },
    /// `account.balance_changed`
    AccountBalanceChanged {
        /// Raw event payload.
        data: serde_json::Value,
        /// Server timestamp in milliseconds.
        timestamp_ms: Option<i64>,
    },
    /// `query.cache_hit`
    QueryCacheHit {
        /// Raw event payload (includes `from_cache` / `cached_at` when sent).
        data: serde_json::Value,
        /// `true` when the query was served from cache.
        from_cache: bool,
        /// Cache snapshot time, if present.
        cached_at: Option<String>,
        /// Server timestamp in milliseconds.
        timestamp_ms: Option<i64>,
    },
    /// `replace.updated`
    ReplaceUpdated {
        /// Raw event payload.
        data: serde_json::Value,
        /// Server timestamp in milliseconds.
        timestamp_ms: Option<i64>,
    },
    /// `order.no_mapping`
    OrderNoMapping {
        /// Raw event payload.
        data: serde_json::Value,
        /// Server timestamp in milliseconds.
        timestamp_ms: Option<i64>,
    },
    /// `order.manual_review`
    OrderManualReview {
        /// Raw event payload.
        data: serde_json::Value,
        /// Server timestamp in milliseconds.
        timestamp_ms: Option<i64>,
    },
    /// `risk.panic`
    RiskPanic {
        /// Raw event payload.
        data: serde_json::Value,
        /// Server timestamp in milliseconds.
        timestamp_ms: Option<i64>,
    },
    /// `health.changed`
    HealthChanged {
        /// Raw event payload.
        data: serde_json::Value,
        /// Server timestamp in milliseconds.
        timestamp_ms: Option<i64>,
    },
    /// `mock.account_changed`
    MockAccountChanged {
        /// Raw event payload.
        data: serde_json::Value,
        /// Server timestamp in milliseconds.
        timestamp_ms: Option<i64>,
    },
    /// `ws.lagged`
    WsLagged {
        /// Raw event payload.
        data: serde_json::Value,
        /// Server timestamp in milliseconds.
        timestamp_ms: Option<i64>,
    },
    /// Any other event type.
    Unknown {
        /// The `type` string as received.
        event_type: String,
        /// Raw event data.
        data: serde_json::Value,
        /// Server timestamp in milliseconds.
        timestamp_ms: Option<i64>,
    },
}

/// The event an A-share frame stands for, from its `type`, its payload (the
/// `data` member, or the whole frame when there is none), its
/// `timestamp_ms`, and the `from_cache` / `cached_at` members of the payload.
pub open spec fn spec_a_event(
    event_type: String,
    data: serde_json::Value,
    timestamp_ms: Option<i64>,
    from_cache: Option<bool>,
    cached_at: Option<String>,
) -> AEvent {
    let name = event_type@;
    if name == "order.updated"@ {
        AEvent::OrderUpdated { data, timestamp_ms }
    } else if name == "position.changed"@ {
        AEvent::PositionChanged { data, timestamp_ms }
    } else if name == "account.changed"@ {
        AEvent::AccountChanged { data, timestamp_ms }
    } else if name == "account.balance_changed"@ {
        AEvent::AccountBalanceChanged { data, timestamp_ms }
    } else if name == "query.cache_hit"@ {
        AEvent::QueryCacheHit {
            data,
            from_cache: from_cache == Some(true),
            cached_at,
            timestamp_ms,
        }
    } else if name == "replace.updated"@ {
        AEvent::ReplaceUpdated { data, timestamp_ms }
    } else if name == "order.no_mapping"@ {
        AEvent::OrderNoMapping { data, timestamp_ms }
    } else if name == "order.manual_review"@ {
        AEvent::OrderManualReview { data, timestamp_ms }
    } else if name == "risk.panic"@ {
        AEvent::RiskPanic { data, timestamp_ms }
    } else if name == "health.changed"@ {
        AEvent::HealthChanged { data, timestamp_ms }
    } else if name == "mock.account_changed"@ {
        AEvent::MockAccountChanged { data, timestamp_ms }
    } else if name == "ws.lagged"@ {
        AEvent::WsLagged { data, timestamp_ms }
    } else {
        AEvent::Unknown { event_type, data, timestamp_ms }
    }
}

impl AEvent {
    /// Classifies an A-share frame by its `type`; unknown types are kept with
    /// their name, payload and timestamp.
    pub fn from_parts(
        event_type: String,
        data: serde_json::Value,
        timestamp_ms: Option<i64>,
        from_cache: Option<bool>,
        cached_at: Option<String>,
    ) -> (r: Self)
        ensures
            r == spec_a_event(event_type, data, timestamp_ms, from_cache, cached_at),
    {
        if event_type == owned("order.updated") {
            AEvent::OrderUpdated { data, timestamp_ms }
        } else if event_type == owned("position.changed") {
            AEvent::PositionChanged { data, timestamp_ms }
        } else if event_type == owned("account.changed") {
            AEvent::AccountChanged { data, timestamp_ms }
        } else if event_type == owned("account.balance_changed") {
            AEvent::AccountBalanceChanged { data, timestamp_ms }
        } else if event_type == owned("query.cache_hit") {
            let flag = match from_cache {
                Some(b) => b,
                None => false,
            };
            AEvent::QueryCacheHit { data, from_cache: flag, cached_at, timestamp_ms }
        } else if event_type == owned("replace.updated") {
            AEvent::ReplaceUpdated { data, timestamp_ms }
        } else if event_type == owned("order.no_mapping") {
            AEvent::OrderNoMapping { data, timestamp_ms }
        } else if event_type == owned("order.manual_review") {
            AEvent::OrderManualReview { data, timestamp_ms }
        } else if event_type == owned("risk.panic") {
            AEvent::RiskPanic { data, timestamp_ms }
        } else if event_type == owned("health.changed") {
            AEvent::HealthChanged { data, timestamp_ms }
        } else if event_type == owned("mock.account_changed") {
            AEvent::MockAccountChanged { data, timestamp_ms }
        } else if event_type == owned("ws.lagged") {
            AEvent::WsLagged { data, timestamp_ms }
        } else {
            AEvent::Unknown { event_type, data, timestamp_ms }
        }
    }
}

/// The unified event for an A-share event: the same kind, payload and
/// timestamp.
pub open spec fn spec_broker_event_of_a(event: AEvent) -> BrokerEvent {
    match event {
        AEvent::OrderUpdated { data, timestamp_ms } => BrokerEvent::OrderUpdated { data, timestamp_ms },
        AEvent::PositionChanged { data, timestamp_ms } => BrokerEvent::PositionChanged { data, timestamp_ms },
        AEvent::AccountChanged { data, timestamp_ms } => BrokerEvent::AccountChanged { data, timestamp_ms },
        AEvent::AccountBalanceChanged { data, timestamp_ms } => BrokerEvent::AccountBalanceChanged { data, timestamp_ms },
        AEvent::QueryCacheHit { data, from_cache, cached_at, timestamp_ms } => BrokerEvent::QueryCacheHit {
            data,
            from_cache,
            cached_at,
            timestamp_ms,
        },
        AEvent::ReplaceUpdated { data, timestamp_ms } => BrokerEvent::ReplaceUpdated { data, timestamp_ms },
        AEvent::OrderNoMapping { data, timestamp_ms } => BrokerEvent::OrderNoMapping { data, timestamp_ms },
        AEvent::OrderManualReview { data, timestamp_ms } => BrokerEvent::OrderManualReview { data, timestamp_ms },
        AEvent::RiskPanic { data, timestamp_ms } => BrokerEvent::RiskPanic { data, timestamp_ms },
        AEvent::HealthChanged { data, timestamp_ms } => BrokerEvent::HealthChanged { data, timestamp_ms },
        AEvent::MockAccountChanged { data, timestamp_ms } => BrokerEvent::MockAccountChanged { data, timestamp_ms },
        AEvent::WsLagged { data, timestamp_ms } => BrokerEvent::WsLagged { data, timestamp_ms },
        AEvent::Unknown { event_type, data, timestamp_ms } => BrokerEvent::Unknown {
            event_type,
            data,
            timestamp_ms,
        },
    }
}

impl From<AEvent> for BrokerEvent {
    fn from(event: AEvent) -> (r: Self) {
        match event {
            AEvent::OrderUpdated { data, timestamp_ms } => BrokerEvent::OrderUpdated { data, timestamp_ms },
            AEvent::PositionChanged { data, timestamp_ms } => BrokerEvent::PositionChanged { data, timestamp_ms },
            AEvent::AccountChanged { data, timestamp_ms } => BrokerEvent::AccountChanged { data, timestamp_ms },
            AEvent::AccountBalanceChanged { data, timestamp_ms } => BrokerEvent::AccountBalanceChanged { data, timestamp_ms },
            AEvent::QueryCacheHit { data, from_cache, cached_at, timestamp_ms } => {
                BrokerEvent::QueryCacheHit { data, from_cache, cached_at, timestamp_ms }
            },
            AEvent::ReplaceUpdated { data, timestamp_ms } => BrokerEvent::ReplaceUpdated { data, timestamp_ms },
            AEvent::OrderNoMapping { data, timestamp_ms } => BrokerEvent::OrderNoMapping { data, timestamp_ms },
            AEvent::OrderManualReview { data, timestamp_ms } => BrokerEvent::OrderManualReview { data, timestamp_ms },
            AEvent::RiskPanic { data, timestamp_ms } => BrokerEvent::RiskPanic { data, timestamp_ms },
            AEvent::HealthChanged { data, timestamp_ms } => BrokerEvent::HealthChanged { data, timestamp_ms },
            AEvent::MockAccountChanged { data, timestamp_ms } => BrokerEvent::MockAccountChanged { data, timestamp_ms },
            AEvent::WsLagged { data, timestamp_ms } => BrokerEvent::WsLagged { data, timestamp_ms },
            AEvent::Unknown { event_type, data, timestamp_ms } => BrokerEvent::Unknown {
                event_type,
                data,
                timestamp_ms,
            },
        }
    }
}

impl FromSpecImpl<AEvent> for BrokerEvent {
    open spec fn obeys_from_spec() -> bool {
        true
    }

    open spec fn from_spec(v: AEvent) -> BrokerEvent {
        spec_broker_event_of_a(v)
    }
}


/// A cached response is wrapped exactly when it has a `data` member together
/// with at least one cache marker; a response without `data` is always bare.
pub proof fn law_cached_layout(has_data: bool, has_from_cache: bool, has_cached_at: bool)
    ensures
        has_data && has_from_cache ==> spec_cached_layout(has_data, has_from_cache, has_cached_at)
            == CachedLayout::Wrapped,
        has_data && has_cached_at ==> spec_cached_layout(has_data, has_from_cache, has_cached_at)
            == CachedLayout::Wrapped,
        !has_data ==> spec_cached_layout(has_data, has_from_cache, has_cached_at) == CachedLayout::Bare,
        !has_from_cache && !has_cached_at ==> spec_cached_layout(has_data, has_from_cache, has_cached_at)
            == CachedLayout::Bare,
{
}

/// An A-share frame is classified by its exact `type`: each documented type
/// gives its own event with the frame's payload and timestamp (a cache hit
/// also with its `from_cache` flag, missing meaning `false`, and
/// `cached_at`), and any other type gives `Unknown` with that type.
pub proof fn law_a_event_kinds(
    event_type: String,
    data: serde_json::Value,
    timestamp_ms: Option<i64>,
    from_cache: Option<bool>,
    cached_at: Option<String>,
)
    ensures
        event_type@ == "order.updated"@ ==> spec_a_event(event_type, data, timestamp_ms, from_cache, cached_at)
            == (AEvent::OrderUpdated { data, timestamp_ms }),
        event_type@ == "position.changed"@ ==> spec_a_event(event_type, data, timestamp_ms, from_cache, cached_at)
            == (AEvent::PositionChanged { data, timestamp_ms }),
        event_type@ == "account.changed"@ ==> spec_a_event(event_type, data, timestamp_ms, from_cache, cached_at)
            == (AEvent::AccountChanged { data, timestamp_ms }),
        event_type@ == "account.balance_changed"@ ==> spec_a_event(event_type, data, timestamp_ms, from_cache, cached_at)
            == (AEvent::AccountBalanceChanged { data, timestamp_ms }),
        event_type@ == "query.cache_hit"@ ==> spec_a_event(event_type, data, timestamp_ms, from_cache, cached_at)
            == (AEvent::QueryCacheHit { data, from_cache: from_cache == Some(true), cached_at, timestamp_ms }),
        event_type@ == "replace.updated"@ ==> spec_a_event(event_type, data, timestamp_ms, from_cache, cached_at)
            == (AEvent::ReplaceUpdated { data, timestamp_ms }),
        event_type@ == "order.no_mapping"@ ==> spec_a_event(event_type, data, timestamp_ms, from_cache, cached_at)
            == (AEvent::OrderNoMapping { data, timestamp_ms }),
        event_type@ == "order.manual_review"@ ==> spec_a_event(event_type, data, timestamp_ms, from_cache, cached_at)
            == (AEvent::OrderManualReview { data, timestamp_ms }),
        event_type@ == "risk.panic"@ ==> spec_a_event(event_type, data, timestamp_ms, from_cache, cached_at)
            == (AEvent::RiskPanic { data, timestamp_ms }),
        event_type@ == "health.changed"@ ==> spec_a_event(event_type, data, timestamp_ms, from_cache, cached_at)
            == (AEvent::HealthChanged { data, timestamp_ms }),
        event_type@ == "mock.account_changed"@ ==> spec_a_event(event_type, data, timestamp_ms, from_cache, cached_at)
            == (AEvent::MockAccountChanged { data, timestamp_ms }),
        event_type@ == "ws.lagged"@ ==> spec_a_event(event_type, data, timestamp_ms, from_cache, cached_at)
            == (AEvent::WsLagged { data, timestamp_ms }),
        (event_type@ != "order.updated"@ && event_type@ != "position.changed"@ && event_type@
            != "account.changed"@ && event_type@ != "account.balance_changed"@ && event_type@
            != "query.cache_hit"@ && event_type@ != "replace.updated"@ && event_type@
            != "order.no_mapping"@ && event_type@ != "order.manual_review"@ && event_type@
            != "risk.panic"@ && event_type@ != "health.changed"@ && event_type@
            != "mock.account_changed"@ && event_type@ != "ws.lagged"@) ==> spec_a_event(
            event_type,
            data,
            timestamp_ms,
            from_cache,
            cached_at,
        ) == (AEvent::Unknown { event_type, data, timestamp_ms }),
{
    reveal_strlit("order.updated");
    reveal_strlit("position.changed");
    reveal_strlit("account.changed");
    reveal_strlit("account.balance_changed");
    reveal_strlit("query.cache_hit");
    reveal_strlit("replace.updated");
    reveal_strlit("order.no_mapping");
    reveal_strlit("order.manual_review");
    reveal_strlit("risk.panic");
    reveal_strlit("health.changed");
    reveal_strlit("mock.account_changed");
    reveal_strlit("ws.lagged");
    assert("order.updated"@.len() == 13);
    assert("position.changed"@.len() == 16);
    assert("account.changed"@.len() == 15);
    assert("account.balance_changed"@.len() == 23);
    assert("query.cache_hit"@.len() == 15);
    assert("replace.updated"@.len() == 15);
    assert("order.no_mapping"@.len() == 16);
    assert("order.manual_review"@.len() == 19);
    assert("risk.panic"@.len() == 10);
    assert("health.changed"@.len() == 14);
    assert("mock.account_changed"@.len() == 20);
    assert("ws.lagged"@.len() == 9);
    assert("account.changed"@[0] != "query.cache_hit"@[0]);
    assert("account.changed"@[0] != "replace.updated"@[0]);
    assert("query.cache_hit"@[0] != "replace.updated"@[0]);
    assert("position.changed"@[0] != "order.no_mapping"@[0]);
}

/// Unifying an A-share event keeps its kind and every field: payload,
/// timestamp, the cache markers of a cache hit, and the type of an unknown
/// event.
pub proof fn law_unified_a_event(event: AEvent)
    ensures
        event matches AEvent::OrderUpdated { data, timestamp_ms } ==> spec_broker_event_of_a(event)
            == (BrokerEvent::OrderUpdated { data, timestamp_ms }),
        event matches AEvent::PositionChanged { data, timestamp_ms } ==> spec_broker_event_of_a(event)
            == (BrokerEvent::PositionChanged { data, timestamp_ms }),
        event matches AEvent::AccountChanged { data, timestamp_ms } ==> spec_broker_event_of_a(event)
            == (BrokerEvent::AccountChanged { data, timestamp_ms }),
        event matches AEvent::AccountBalanceChanged { data, timestamp_ms } ==> spec_broker_event_of_a(event)
            == (BrokerEvent::AccountBalanceChanged { data, timestamp_ms }),
        event matches AEvent::QueryCacheHit { data, from_cache, cached_at, timestamp_ms }
            ==> spec_broker_event_of_a(event) == (BrokerEvent::QueryCacheHit {
            data,
            from_cache,
            cached_at,
            timestamp_ms,
        }),
        event matches AEvent::ReplaceUpdated { data, timestamp_ms } ==> spec_broker_event_of_a(event)
            == (BrokerEvent::ReplaceUpdated { data, timestamp_ms }),
        event matches AEvent::OrderNoMapping { data, timestamp_ms } ==> spec_broker_event_of_a(event)
            == (BrokerEvent::OrderNoMapping { data, timestamp_ms }),
        event matches AEvent::OrderManualReview { data, timestamp_ms } ==> spec_broker_event_of_a(event)
            == (BrokerEvent::OrderManualReview { data, timestamp_ms }),
        event matches AEvent::RiskPanic { data, timestamp_ms } ==> spec_broker_event_of_a(event)
            == (BrokerEvent::RiskPanic { data, timestamp_ms }),
        event matches AEvent::HealthChanged { data, timestamp_ms } ==> spec_broker_event_of_a(event)
            == (BrokerEvent::HealthChanged { data, timestamp_ms }),
        event matches AEvent::MockAccountChanged { data, timestamp_ms } ==> spec_broker_event_of_a(event)
            == (BrokerEvent::MockAccountChanged { data, timestamp_ms }),
        event matches AEvent::WsLagged { data, timestamp_ms } ==> spec_broker_event_of_a(event)
            == (BrokerEvent::WsLagged { data, timestamp_ms }),
        event matches AEvent::Unknown { event_type, data, timestamp_ms } ==> spec_broker_event_of_a(event)
            == (BrokerEvent::Unknown { event_type, data, timestamp_ms }),
{
}

} // verus!
