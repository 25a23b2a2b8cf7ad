//! Unified type model shared by every broker implementation.
//!
//! The A-share and Taiwan servers use different wire contracts; the unified
//! types keep the fields of both, with server-specific fields optional, so no
//! server-specific information is lost.

use vstd::prelude::*;
use vstd::string::*;

use crate::config::opt_view;
use crate::error::Error;
use crate::text::{ascii_uppercase, int_decimal, is_unicode_whitespace, owned, parse_i32, parse_i32_spec, push_decimal, to_ascii_uppercase, trim, trim_ws};

verus! {

/// Unified order action.
#[derive(Debug, Clone, Copy, PartialEq, Eq, Structural)]
pub enum OrderAction {
    /// New order.
    New,
    /// Cancel order.
    Cancel,
    /// Replace order (price or quantity).
    Replace,
}

impl Default for OrderAction {
    /// A new order.
    fn default() -> (r: Self)
        ensures
            r == OrderAction::New,
    {
        OrderAction::New
    }
}

impl OrderAction {
    /// The wire name of the action (lower case).
    pub open spec fn spec_wire_name(self) -> Seq<char> {
        match self {
            OrderAction::New => "new"@,
            OrderAction::Cancel => "cancel"@,
            OrderAction::Replace => "replace"@,
        }
    }

    /// The wire name of the action: `new`, `cancel` or `replace`.
    pub fn wire_name(self) -> (r: &'static str)
        ensures
            r@ == self.spec_wire_name(),
    {
        match self {
            OrderAction::New => "new",
            OrderAction::Cancel => "cancel",
            OrderAction::Replace => "replace",
        }
    }
}

/// The `mock` field an order request carries for a mock-mode flag: only
/// `true` is sent; `false` is left out, since both servers default it to
/// `false` and leaving it out keeps request bodies unchanged.
pub fn mock_flag(mock: bool) -> (r: Option<bool>)
    ensures
        r == if mock {
            Some(true)
        } else {
            None::<bool>
        },
{
    if mock {
        Some(true)
    } else {
        None
    }
}

/// TW domestic-stock order category (`ap_code`).
///
/// Requests carry the readable semantic names accepted by the server; the
/// legacy SDK integers `0/2/4/7` are accepted on input so old persisted
/// responses remain readable.
#[derive(Debug, Clone, Copy, PartialEq, Eq, Structural)]
pub enum ApCode {
    /// Regular board-lot trading (`0`).
    Regular,
    /// Odd-lot trading (`2`).
    OddLot,
    /// Intraday odd-lot trading (`4`).
    IntradayOddLot,
    /// After-hours trading (`7`).
    AfterHours,
}

/// The category a semantic name stands for, compared exactly.
pub open spec fn ap_code_of_name(name: Seq<char>) -> Option<ApCode> {
    if name == "REGULAR"@ {
        Some(ApCode::Regular)
    } else if name == "ODD_LOT"@ {
        Some(ApCode::OddLot)
    } else if name == "INTRADAY_ODD_LOT"@ {
        Some(ApCode::IntradayOddLot)
    } else if name == "AFTER_HOURS"@ {
        Some(ApCode::AfterHours)
    } else {
        None
    }
}

/// The category a legacy SDK integer stands for.
pub open spec fn ap_code_of_number(value: int) -> Option<ApCode> {
    if value == 0 {
        Some(ApCode::Regular)
    } else if value == 2 {
        Some(ApCode::OddLot)
    } else if value == 4 {
        Some(ApCode::IntradayOddLot)
    } else if value == 7 {
        Some(ApCode::AfterHours)
    } else {
        None
    }
}

/// The text of the error for an unknown `ap_code` written as `value`.
pub open spec fn ap_code_invalid_message(value: Seq<char>) -> Seq<char> {
    "invalid ap_code "@ + value
        + "; expected REGULAR/0, ODD_LOT/2, INTRADAY_ODD_LOT/4, or AFTER_HOURS/7"@
}

/// The message a failed integer narrowing reports.
pub open spec fn out_of_range_message() -> Seq<char> {
    "out of range integral type conversion attempted"@
}

/// The decoder message for an unknown `ap_code` written as `value`: the
/// display text of [`ApCode::invalid`].
pub open spec fn ap_code_decode_message(value: Seq<char>) -> Seq<char> {
    "invalid request: "@ + ap_code_invalid_message(value)
}

/// What a JSON integer decodes to: the category of a legacy number in the
/// range of `i32`; otherwise the decoder's message.
pub open spec fn ap_code_from_integer(value: int) -> Result<ApCode, Seq<char>> {
    if i32::MIN <= value && value <= i32::MAX {
        match ap_code_of_number(value) {
            Some(code) => Ok(code),
            None => Err(ap_code_decode_message(int_decimal(value))),
        }
    } else {
        Err(out_of_range_message())
    }
}

/// What a JSON string decodes to: a semantic name (surrounding whitespace
/// and letter case ignored), else a legacy number written as text.
pub open spec fn ap_code_from_text(value: Seq<char>) -> Result<ApCode, Seq<char>> {
    match ap_code_of_name(ascii_uppercase(trim_ws(value))) {
        Some(code) => Ok(code),
        None => match parse_i32_spec(trim_ws(value)) {
            Some(n) => match ap_code_of_number(n as int) {
                Some(code) => Ok(code),
                None => Err(ap_code_decode_message(int_decimal(n as int))),
            },
            None => Err(ap_code_decode_message(value)),
        },
    }
}

/// The error an unknown `ap_code` written as `value` is reported with.
pub open spec fn is_invalid_ap_code_error(e: Error, value: Seq<char>) -> bool {
    e matches Error::InvalidRequest(msg) && msg@ == ap_code_invalid_message(value)
}

fn message_of(e: &Error) -> (r: String)
    requires
        e is InvalidRequest,
    ensures
        r@ == "invalid request: "@ + e->InvalidRequest_0@,
{
    match e {
        Error::InvalidRequest(msg) => owned("invalid request: ").concat(msg.as_str()),
        _ => owned(""),
    }
}

impl ApCode {
    /// The semantic wire name of the category.
    pub open spec fn spec_wire_name(self) -> Seq<char> {
        match self {
            ApCode::Regular => "REGULAR"@,
            ApCode::OddLot => "ODD_LOT"@,
            ApCode::IntradayOddLot => "INTRADAY_ODD_LOT"@,
            ApCode::AfterHours => "AFTER_HOURS"@,
        }
    }

    /// The semantic wire name of the category, as requests carry it.
    pub fn wire_name(self) -> (r: &'static str)
        ensures
            r@ == self.spec_wire_name(),
    {
        match self {
            ApCode::Regular => "REGULAR",
            ApCode::OddLot => "ODD_LOT",
            ApCode::IntradayOddLot => "INTRADAY_ODD_LOT",
            ApCode::AfterHours => "AFTER_HOURS",
        }
    }

    /// Looks a semantic name up, ignoring surrounding whitespace and ASCII
    /// letter case.
    pub fn from_name(value: &str) -> (r: Option<Self>)
        ensures
            r == ap_code_of_name(ascii_uppercase(trim_ws(value@))),
    {
        let name = to_ascii_uppercase(trim(value));
        if name == owned("REGULAR") {
            Some(ApCode::Regular)
        } else if name == owned("ODD_LOT") {
            Some(ApCode::OddLot)
        } else if name == owned("INTRADAY_ODD_LOT") {
            Some(ApCode::IntradayOddLot)
        } else if name == owned("AFTER_HOURS") {
            Some(ApCode::AfterHours)
        } else {
            None
        }
    }

    /// The error reported for an unknown `ap_code` written as `value`.
    pub fn invalid(value: &str) -> (r: Error)
        ensures
            is_invalid_ap_code_error(r, value@),
    {
        Error::InvalidRequest(
            owned("invalid ap_code ").concat(value).concat(
                "; expected REGULAR/0, ODD_LOT/2, INTRADAY_ODD_LOT/4, or AFTER_HOURS/7",
            ),
        )
    }

    /// Converts a legacy SDK value; any value but `0/2/4/7` is rejected
    /// rather than silently becoming `Regular`.
    pub fn try_from(value: i32) -> (r: Result<Self, Error>)
        ensures
            ap_code_of_number(value as int) matches Some(code) ==> r == Ok::<ApCode, Error>(code),
            ap_code_of_number(value as int) is None ==> (r matches Err(e)
                && is_invalid_ap_code_error(e, int_decimal(value as int))),
    {
        if value == 0 {
            Ok(ApCode::Regular)
        } else if value == 2 {
            Ok(ApCode::OddLot)
        } else if value == 4 {
            Ok(ApCode::IntradayOddLot)
        } else if value == 7 {
            Ok(ApCode::AfterHours)
        } else {
            let mut text = String::new();
            if value < 0 {
                crate::text::push_char(&mut text, '-');
                let magnitude: u64 = (0i64 - value as i64) as u64;
                push_decimal(&mut text, magnitude);
            } else {
                push_decimal(&mut text, value as u64);
            }
            assert(text@ =~= int_decimal(value as int));
            Err(Self::invalid(text.as_str()))
        }
    }

    /// Converts a trusted legacy SDK value (`0/2/4/7`).
    pub fn from(value: u8) -> (r: Self)
        requires
            value == 0 || value == 2 || value == 4 || value == 7,
        ensures
            Some(r) == ap_code_of_number(value as int),
    {
        if value == 0 {
            ApCode::Regular
        } else if value == 2 {
            ApCode::OddLot
        } else if value == 4 {
            ApCode::IntradayOddLot
        } else {
            ApCode::AfterHours
        }
    }

    /// Decodes a JSON integer: a legacy number in the range of `i32`; the
    /// error is the decoder's message.
    pub fn decode_integer(value: i64) -> (r: Result<Self, String>)
        ensures
            r matches Ok(code) ==> ap_code_from_integer(value as int) == Ok::<ApCode, Seq<char>>(code),
            r matches Err(m) ==> ap_code_from_integer(value as int) == Err::<ApCode, Seq<char>>(m@),
    {
        if value < -2147483648 || value > 2147483647 {
            return Err(owned("out of range integral type conversion attempted"));
        }
        match Self::try_from(value as i32) {
            Ok(code) => Ok(code),
            Err(e) => Err(message_of(&e)),
        }
    }

    /// Decodes a JSON unsigned integer (see [`ApCode::decode_integer`]).
    pub fn decode_unsigned(value: u64) -> (r: Result<Self, String>)
        ensures
            r matches Ok(code) ==> ap_code_from_integer(value as int) == Ok::<ApCode, Seq<char>>(code),
            r matches Err(m) ==> ap_code_from_integer(value as int) == Err::<ApCode, Seq<char>>(m@),
    {
        if value > 2147483647 {
            return Err(owned("out of range integral type conversion attempted"));
        }
        Self::decode_integer(value as i64)
    }

    /// Decodes a JSON string: a semantic name, else a legacy number written
    /// as text; the error is the decoder's message.
    pub fn decode_text(value: &str) -> (r: Result<Self, String>)
        ensures
            r matches Ok(code) ==> ap_code_from_text(value@) == Ok::<ApCode, Seq<char>>(code),
            r matches Err(m) ==> ap_code_from_text(value@) == Err::<ApCode, Seq<char>>(m@),
    {
        if let Some(code) = Self::from_name(value) {
            return Ok(code);
        }
        match parse_i32(trim(value)) {
            Some(n) => match Self::try_from(n) {
                Ok(code) => Ok(code),
                Err(e) => Err(message_of(&e)),
            },
            None => Err(message_of(&Self::invalid(value))),
        }
    }
}

/// Unified cancel request.
///
/// `AClient` only needs `client_order_id` (and optionally `reason`);
/// `TwClient` additionally needs the broker order number, account and trade
/// date.
#[derive(Debug, Clone, PartialEq, Eq)]
pub struct CancelOrderRequest {
    /// Client-generated idempotency key.
    pub client_order_id: String,
    /// Optional cancellation reason (A-share).
    pub reason: Option<String>,
    /// Account number (TW).
    pub account: Option<String>,
    /// Broker order number (TW).
    pub order_no: Option<String>,
    /// Trade date (TW).
    pub trade_date: Option<String>,
    /// Stock code (TW).
    pub stk_code: Option<String>,
    /// Unified symbol/code.
    pub symbol: Option<String>,
    /// Order side (TW).
    pub side: Option<String>,
}

impl CancelOrderRequest {
    /// Only the client order ID is set: to `id`.
    pub open spec fn is_bare(&self, id: Seq<char>) -> bool {
        &&& self.client_order_id@ == id
        &&& self.reason is None
        &&& self.account is None
        &&& self.order_no is None
        &&& self.trade_date is None
        &&& self.stk_code is None
        &&& self.symbol is None
        &&& self.side is None
    }
}

impl Default for CancelOrderRequest {
    /// An empty client order ID and no other field.
    fn default() -> (r: Self)
        ensures
            r.is_bare(Seq::empty()),
    {
        CancelOrderRequest {
            client_order_id: String::new(),
            reason: None,
            account: None,
            order_no: None,
            trade_date: None,
            stk_code: None,
            symbol: None,
            side: None,
        }
    }
}

impl CancelOrderRequest {
    /// Creates an A-share style cancel request.
    pub fn new(client_order_id: &str) -> (r: Self)
        ensures
            r.is_bare(client_order_id@),
    {
        CancelOrderRequest { client_order_id: owned(client_order_id), ..Self::default() }
    }

    /// Sets a cancellation reason.
    pub fn reason(self, reason: &str) -> (r: Self)
        ensures
            r == (CancelOrderRequest { reason: r.reason, ..self }),
            opt_view(r.reason) == Some(reason@),
    {
        CancelOrderRequest { reason: Some(owned(reason)), ..self }
    }

    /// Creates a TW cancel request; the stock code also fills `symbol`.
    pub fn tw(
        client_order_id: &str,
        account: &str,
        order_no: &str,
        trade_date: &str,
        stk_code: &str,
        side: &str,
    ) -> (r: Self)
        ensures
            r.client_order_id@ == client_order_id@,
            r.reason is None,
            opt_view(r.account) == Some(account@),
            opt_view(r.order_no) == Some(order_no@),
            opt_view(r.trade_date) == Some(trade_date@),
            opt_view(r.stk_code) == Some(stk_code@),
            opt_view(r.symbol) == Some(stk_code@),
            opt_view(r.side) == Some(side@),
    {
        CancelOrderRequest {
            client_order_id: owned(client_order_id),
            reason: None,
            account: Some(owned(account)),
            order_no: Some(owned(order_no)),
            trade_date: Some(owned(trade_date)),
            stk_code: Some(owned(stk_code)),
            symbol: Some(owned(stk_code)),
            side: Some(owned(side)),
        }
    }
}

/// Unified WebSocket event.
///
/// Known common events have dedicated variants, while server-specific and
/// unknown events keep the received `type`, `data` and `timestamp_ms`, so
/// callers never lose information.
#[derive(Debug, Clone, PartialEq)]
pub enum BrokerEvent {
    /// `order.updated`
    OrderUpdated {
        /// Raw event payload.
        data: serde_json::Value,
        /// Server timestamp in milliseconds.
        timestamp_ms: Option<i64>,
    },
    /// `position.changed`
    PositionChanged {
        /// Raw event payload.
        data: serde_json::Value,
        /// Server timestamp in milliseconds.
        timestamp_ms: Option<i64>,
    },
    /// `account.changed`
    AccountChanged {
        /// Raw event payload.
        data: serde_json::Value,
        /// Server timestamp in milliseconds.
        timestamp_ms: Option<i64>,
    },
    /// `health.changed`
    HealthChanged {
        /// Raw event payload.
        data: serde_json::Value,
        /// Server timestamp in milliseconds.
        timestamp_ms: Option<i64>,
    },
    /// `heartbeat`
    Heartbeat {
        /// Raw event payload.
        data: serde_json::Value,
        /// Server timestamp in milliseconds.
        timestamp_ms: Option<i64>,
    },
    /// A-share `account.balance_changed`
    AccountBalanceChanged {
        /// Raw event payload.
        data: serde_json::Value,
        /// Server timestamp in milliseconds.
        timestamp_ms: Option<i64>,
    },
    /// A-share `query.cache_hit`
    QueryCacheHit {
        /// Raw event payload.
        data: serde_json::Value,
        /// `true` when served from cache.
        from_cache: bool,
        /// Cache snapshot time.
        cached_at: Option<String>,
        /// Server timestamp in milliseconds.
        timestamp_ms: Option<i64>,
    },
    /// A-share `replace.updated`
    ReplaceUpdated {
        /// Raw event payload.
        data: serde_json::Value,
        /// Server timestamp in milliseconds.
        timestamp_ms: Option<i64>,
    },
    /// A-share `order.no_mapping`
    OrderNoMapping {
        /// Raw event payload.
        data: serde_json::Value,
        /// Server timestamp in milliseconds.
        timestamp_ms: Option<i64>,
    },
    /// A-share `order.manual_review`
    OrderManualReview {
        /// Raw event payload.
        data: serde_json::Value,
        /// Server timestamp in milliseconds.
        timestamp_ms: Option<i64>,
    },
    /// A-share `risk.panic`
    RiskPanic {
        /// Raw event payload.
        data: serde_json::Value,
        /// Server timestamp in milliseconds.
        timestamp_ms: Option<i64>,
    },
    /// A-share `mock.account_changed`.
    MockAccountChanged {
        /// Raw event payload.
        data: serde_json::Value,
        /// Server timestamp in milliseconds.
        timestamp_ms: Option<i64>,
    },
    /// A-share `ws.lagged`; some broadcast events were dropped before delivery.
    WsLagged {
        /// Raw event payload, including `skipped`.
        data: serde_json::Value,
        /// Server timestamp in milliseconds.
        timestamp_ms: Option<i64>,
    },
    /// TW `welcome`
    Welcome {
        /// Optional welcome message.
        message: Option<String>,
    },
    /// TW `Login`
    Login {
        /// Raw login payload.
        data: serde_json::Value,
        /// Server timestamp in milliseconds.
        timestamp_ms: Option<i64>,
    },
    /// TW real report
    RealReport {
        /// Raw report payload.
        data: serde_json::Value,
        /// Server timestamp in milliseconds.
        timestamp_ms: Option<i64>,
    },
    /// TW merged real report
    RealReportMerge {
        /// Raw report payload.
        data: serde_json::Value,
        /// Server timestamp in milliseconds.
        timestamp_ms: Option<i64>,
    },
    /// TW `quote.updated`
    QuoteUpdated {
        /// Raw quote payload.
        data: serde_json::Value,
        /// Server timestamp in milliseconds.
        timestamp_ms: Option<i64>,
    },
    /// TW subscribe acknowledgement events.
    Subscribed {
        /// Raw subscribe payload.
        data: serde_json::Value,
        /// Server timestamp in milliseconds.
        timestamp_ms: Option<i64>,
    },
    /// Unknown / server-specific event.
    Unknown {
        /// The `type` string as received.
        event_type: String,
        /// Raw event data (or the full object when no `data` field exists).
        data: serde_json::Value,
        /// Server timestamp in milliseconds.
        timestamp_ms: Option<i64>,
    },
}


/// A name of capital letters and underscores, as the `ap_code` names are, is
/// left as it is by trimming and upper-casing.
proof fn lemma_plain_name(s: Seq<char>)
    requires
        s.len() > 0,
        forall|i: int| 0 <= i < s.len() ==> (('A' <= #[trigger] s[i] && s[i] <= 'Z') || s[i] == '_'),
    ensures
        trim_ws(s) == s,
        ascii_uppercase(s) == s,
{
    assert(!is_unicode_whitespace(s[0]));
    assert(!is_unicode_whitespace(s[s.len() - 1]));
    assert(ascii_uppercase(s) =~= s);
}

/// `ap_code` categories and their wire forms: each category is read back
/// from its semantic name, the legacy numbers `0/2/4/7` stand for
/// `REGULAR`, `ODD_LOT`, `INTRADAY_ODD_LOT` and `AFTER_HOURS`, and every
/// other number is refused.
pub proof fn law_ap_code(code: ApCode, v: int)
    ensures
        ap_code_of_name(code.spec_wire_name()) == Some(code),
        ap_code_from_text(code.spec_wire_name()) == Ok::<ApCode, Seq<char>>(code),
        ap_code_of_number(0) == Some(ApCode::Regular),
        ap_code_of_number(2) == Some(ApCode::OddLot),
        ap_code_of_number(4) == Some(ApCode::IntradayOddLot),
        ap_code_of_number(7) == Some(ApCode::AfterHours),
        v != 0 && v != 2 && v != 4 && v != 7 ==> ap_code_of_number(v) is None,
        v != 0 && v != 2 && v != 4 && v != 7 ==> ap_code_from_integer(v) is Err,
        (v == 0 || v == 2 || v == 4 || v == 7) ==> ap_code_from_integer(v) == Ok::<ApCode, Seq<char>>(
            ap_code_of_number(v)->0,
        ),
{
    reveal_strlit("REGULAR");
    reveal_strlit("ODD_LOT");
    reveal_strlit("INTRADAY_ODD_LOT");
    reveal_strlit("AFTER_HOURS");
    assert("REGULAR"@.len() == 7);
    assert("ODD_LOT"@.len() == 7);
    assert("INTRADAY_ODD_LOT"@.len() == 16);
    assert("AFTER_HOURS"@.len() == 11);
    assert("REGULAR"@[0] != "ODD_LOT"@[0]);
    let w = code.spec_wire_name();
    lemma_plain_name(w);
}

} // verus!
