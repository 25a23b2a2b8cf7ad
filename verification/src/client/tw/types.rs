//! Models of the TW server API that carry no floating-point data, and the
//! decisions taken on its requests and events.

use vstd::prelude::*;
use vstd::string::*;

use crate::config::opt_view;
use crate::text::owned;
use crate::types::BrokerEvent;

verus! {

/// A request body for `POST /api/v1/session/login`.
#[derive(Debug, Clone, PartialEq, Eq)]
pub struct LoginRequest {
    /// Optional account; omitted means server-default account.
    pub account: Option<String>,
    /// Optional account password.
    pub password: Option<String>,
    /// Optional PFX certificate path.
    pub pfx_path: Option<String>,
    /// Optional PFX certificate password.
    pub pfx_pass: Option<String>,
}

impl Default for LoginRequest {
    /// No field set: the server defaults are used.
    fn default() -> (r: Self)
        ensures
            r.account is None && r.password is None && r.pfx_path is None && r.pfx_pass is None,
    {
        LoginRequest { account: None, password: None, pfx_path: None, pfx_pass: None }
    }
}

impl LoginRequest {
    /// Creates an empty login request (server defaults are used).
    pub fn empty() -> (r: Self)
        ensures
            r.account is None && r.password is None && r.pfx_path is None && r.pfx_pass is None,
    {
        Self::default()
    }

    /// Creates a login request with all optional fields.
    pub fn new(account: &str, password: &str, pfx_path: &str, pfx_pass: &str) -> (r: Self)
        ensures
            opt_view(r.account) == Some(account@),
            opt_view(r.password) == Some(password@),
            opt_view(r.pfx_path) == Some(pfx_path@),
            opt_view(r.pfx_pass) == Some(pfx_pass@),
    {
        LoginRequest {
            account: Some(owned(account)),
            password: Some(owned(password)),
            pfx_path: Some(owned(pfx_path)),
            pfx_pass: Some(owned(pfx_pass)),
        }
    }

    /// Sets the account.
    pub fn account(self, account: &str) -> (r: Self)
        ensures
            r == (LoginRequest { account: r.account, ..self }),
            opt_view(r.account) == Some(account@),
    {
        LoginRequest { account: Some(owned(account)), ..self }
    }

    /// Sets the password.
    pub fn password(self, password: &str) -> (r: Self)
        ensures
            r == (LoginRequest { password: r.password, ..self }),
            opt_view(r.password) == Some(password@),
    {
        LoginRequest { password: Some(owned(password)), ..self }
    }

    /// Sets the PFX certificate path.
    pub fn pfx_path(self, pfx_path: &str) -> (r: Self)
        ensures
            r == (LoginRequest { pfx_path: r.pfx_path, ..self }),
            opt_view(r.pfx_path) == Some(pfx_path@),
    {
        LoginRequest { pfx_path: Some(owned(pfx_path)), ..self }
    }

    /// Sets the PFX certificate password.
    pub fn pfx_pass(self, pfx_pass: &str) -> (r: Self)
        ensures
            r == (LoginRequest { pfx_pass: r.pfx_pass, ..self }),
            opt_view(r.pfx_pass) == Some(pfx_pass@),
    {
        LoginRequest { pfx_pass: Some(owned(pfx_pass)), ..self }
    }
}

/// Supported quote subscription type.
#[derive(Debug, Clone, Copy, PartialEq, Eq, Structural)]
pub enum QuoteType {
    /// `watchlist`
    Watchlist,
    /// `watchlist_all`
    WatchlistAll,
    /// `five_tick`
    FiveTick,
    /// `stock_tick`
    StockTick,
    /// `market_info`
    MarketInfo,
    /// `stock_info`
    StockInfo,
}

impl QuoteType {
    /// The wire name of the subscription type (snake case).
    pub open spec fn spec_wire_name(self) -> Seq<char> {
        match self {
            QuoteType::Watchlist => "watchlist"@,
            QuoteType::WatchlistAll => "watchlist_all"@,
            QuoteType::FiveTick => "five_tick"@,
            QuoteType::StockTick => "stock_tick"@,
            QuoteType::MarketInfo => "market_info"@,
            QuoteType::StockInfo => "stock_info"@,
        }
    }

    /// The wire name of the subscription type.
    pub fn wire_name(self) -> (r: &'static str)
        ensures
            r@ == self.spec_wire_name(),
    {
        match self {
            QuoteType::Watchlist => "watchlist",
            QuoteType::WatchlistAll => "watchlist_all",
            QuoteType::FiveTick => "five_tick",
            QuoteType::StockTick => "stock_tick",
            QuoteType::MarketInfo => "market_info",
            QuoteType::StockInfo => "stock_info",
        }
    }
}

/// Source filter for `GET /api/v1/quotes/subscribed`.
#[derive(Debug, Clone, Copy, PartialEq, Eq, Structural)]
pub enum SubscribedSource {
    /// Local SQLite subscription list.
    Local,
    /// Broker-side actual subscription list.
    Broker,
    /// Both local and broker lists.
    Both,
}

impl SubscribedSource {
    /// The `source` query value of the filter.
    pub open spec fn spec_query_value(self) -> Seq<char> {
        match self {
            SubscribedSource::Local => "local"@,
            SubscribedSource::Broker => "broker"@,
            SubscribedSource::Both => "both"@,
        }
    }

    /// The `source` query value of the filter: `local`, `broker` or `both`.
    pub fn query_value(self) -> (r: &'static str)
        ensures
            r@ == self.spec_query_value(),
    {
        match self {
            SubscribedSource::Local => "local",
            SubscribedSource::Broker => "broker",
            SubscribedSource::Both => "both",
        }
    }
}

/// Quote subscription request/list item.
#[derive(Debug, PartialEq, Eq)]
pub struct QuoteSubscription {
    /// Subscription type (the `type` member on the wire).
    pub quote_type: QuoteType,
    /// Stock symbols.
    pub symbols: Vec<String>,
    /// Optional account.
    pub account: Option<String>,
    /// Optional market type.
    pub market_type: Option<String>,
    /// Optional index flag (mainly used by `watchlist`).
    pub index_flag: Option<i64>,
}

/// The mathematical content of a [`QuoteSubscription`].
pub struct QuoteSubscriptionView {
    pub quote_type: QuoteType,
    pub symbols: Seq<Seq<char>>,
    pub account: Option<Seq<char>>,
    pub market_type: Option<Seq<char>>,
    pub index_flag: Option<i64>,
}

/// The character sequences of a list of strings.
pub open spec fn strings_view(v: Seq<String>) -> Seq<Seq<char>> {
    v.map_values(|s: String| s@)
}

impl View for QuoteSubscription {
    type V = QuoteSubscriptionView;

    open spec fn view(&self) -> QuoteSubscriptionView {
        QuoteSubscriptionView {
            quote_type: self.quote_type,
            symbols: strings_view(self.symbols@),
            account: opt_view(self.account),
            market_type: opt_view(self.market_type),
            index_flag: self.index_flag,
        }
    }
}

fn copy_opt_string(o: &Option<String>) -> (r: Option<String>)
    ensures
        opt_view(r) == opt_view(*o),
{
    match o {
        Some(s) => Some(s.clone()),
        None => None,
    }
}

fn same_opt_string(a: &Option<String>, b: &Option<String>) -> (r: bool)
    ensures
        r == (opt_view(*a) == opt_view(*b)),
{
    match (a, b) {
        (Some(x), Some(y)) => *x == *y,
        (None, None) => true,
        _ => false,
    }
}

fn copy_strings(v: &Vec<String>) -> (r: Vec<String>)
    ensures
        strings_view(r@) == strings_view(v@),
{
    let mut out: Vec<String> = Vec::new();
    let mut i: usize = 0;
    while i < v.len()
        invariant
            i <= v.len(),
            strings_view(out@) == strings_view(v@.take(i as int)),
        decreases v.len() - i,
    {
        out.push(v[i].clone());
        assert(strings_view(v@.take(i + 1)) =~= strings_view(v@.take(i as int)).push(v@[i as int]@));
        i = i + 1;
    }
    assert(v@.take(v.len() as int) =~= v@);
    out
}

fn same_strings(a: &Vec<String>, b: &Vec<String>) -> (r: bool)
    ensures
        r == (strings_view(a@) == strings_view(b@)),
{
    if a.len() != b.len() {
        assert(strings_view(a@).len() != strings_view(b@).len());
        return false;
    }
    let mut i: usize = 0;
    while i < a.len()
        invariant
            a.len() == b.len(),
            i <= a.len(),
            forall|k: int| 0 <= k < i ==> a@[k]@ == b@[k]@,
        decreases a.len() - i,
    {
        if !(a[i] == b[i]) {
            assert(strings_view(a@)[i as int] != strings_view(b@)[i as int]);
            return false;
        }
        i = i + 1;
    }
    assert(strings_view(a@) =~= strings_view(b@));
    true
}

impl Clone for QuoteSubscription {
    /// An equal subscription.
    fn clone(&self) -> (r: Self)
        ensures
            r@ == self@,
    {
        QuoteSubscription {
            quote_type: self.quote_type,
            symbols: copy_strings(&self.symbols),
            account: copy_opt_string(&self.account),
            market_type: copy_opt_string(&self.market_type),
            index_flag: self.index_flag,
        }
    }
}

impl QuoteSubscription {
    /// Creates a basic subscription.
    pub fn new(quote_type: QuoteType, symbols: Vec<String>) -> (r: Self)
        ensures
            r@ == (QuoteSubscriptionView {
                quote_type,
                symbols: strings_view(symbols@),
                account: None,
                market_type: None,
                index_flag: None,
            }),
    {
        QuoteSubscription { quote_type, symbols, account: None, market_type: None, index_flag: None }
    }

    /// Sets the account.
    pub fn account(self, account: &str) -> (r: Self)
        ensures
            r@ == (QuoteSubscriptionView { account: Some(account@), ..self@ }),
    {
        QuoteSubscription { account: Some(owned(account)), ..self }
    }

    /// Sets the market type.
    pub fn market_type(self, market_type: &str) -> (r: Self)
        ensures
            r@ == (QuoteSubscriptionView { market_type: Some(market_type@), ..self@ }),
    {
        QuoteSubscription { market_type: Some(owned(market_type)), ..self }
    }

    /// Sets the index flag.
    pub fn index_flag(self, index_flag: i64) -> (r: Self)
        ensures
            r@ == (QuoteSubscriptionView { index_flag: Some(index_flag), ..self@ }),
    {
        QuoteSubscription { index_flag: Some(index_flag), ..self }
    }

    /// Whether two subscriptions are equal field by field.
    pub fn same_as(&self, other: &Self) -> (r: bool)
        ensures
            r == (self@ == other@),
    {
        let r = self.quote_type == other.quote_type && same_strings(&self.symbols, &other.symbols)
            && same_opt_string(&self.account, &other.account) && same_opt_string(
            &self.market_type,
            &other.market_type,
        ) && self.index_flag == other.index_flag;
        r
    }
}

/// Request body for `POST /api/v1/recovery/{client_order_id}/resolve`.
#[derive(Debug, Clone, PartialEq, Eq)]
pub struct RecoveryResolveRequest {
    /// Final status to set.
    pub status: Option<String>,
    /// Broker order number.
    pub order_no: Option<String>,
    /// Trade date.
    pub trade_date: Option<String>,
    /// Source table: `orders` or `stock_orders`.
    pub source: Option<String>,
    /// Human note.
    pub note: Option<String>,
}

impl Default for RecoveryResolveRequest {
    /// No field set.
    fn default() -> (r: Self)
        ensures
            r.status is None && r.order_no is None && r.trade_date is None && r.source is None
                && r.note is None,
    {
        RecoveryResolveRequest {
            status: None,
            order_no: None,
            trade_date: None,
            source: None,
            note: None,
        }
    }
}

impl RecoveryResolveRequest {
    /// Creates a new resolution request setting the final status.
    pub fn new(status: &str) -> (r: Self)
        ensures
            opt_view(r.status) == Some(status@),
            r.order_no is None && r.trade_date is None && r.source is None && r.note is None,
    {
        RecoveryResolveRequest { status: Some(owned(status)), ..Self::default() }
    }

    /// Sets the broker order number.
    pub fn order_no(self, order_no: &str) -> (r: Self)
        ensures
            r == (RecoveryResolveRequest { order_no: r.order_no, ..self }),
            opt_view(r.order_no) == Some(order_no@),
    {
        RecoveryResolveRequest { order_no: Some(owned(order_no)), ..self }
    }

    /// Sets the trade date.
    pub fn trade_date(self, trade_date: &str) -> (r: Self)
        ensures
            r == (RecoveryResolveRequest { trade_date: r.trade_date, ..self }),
            opt_view(r.trade_date) == Some(trade_date@),
    {
        RecoveryResolveRequest { trade_date: Some(owned(trade_date)), ..self }
    }

    /// Sets the source table.
    pub fn source(self, source: &str) -> (r: Self)
        ensures
            r == (RecoveryResolveRequest { source: r.source, ..self }),
            opt_view(r.source) == Some(source@),
    {
        RecoveryResolveRequest { source: Some(owned(source)), ..self }
    }

    /// Sets a human note.
    pub fn note(self, note: &str) -> (r: Self)
        ensures
            r == (RecoveryResolveRequest { note: r.note, ..self }),
            opt_view(r.note) == Some(note@),
    {
        RecoveryResolveRequest { note: Some(owned(note)), ..self }
    }
}

/// The remembered list with `x` added, unless it is already there.
pub open spec fn remembered(s: Seq<QuoteSubscriptionView>, x: QuoteSubscriptionView) -> Seq<QuoteSubscriptionView> {
    if s.contains(x) {
        s
    } else {
        s.push(x)
    }
}

/// The remembered list without `x`, the other entries in their order.
pub open spec fn forgotten(s: Seq<QuoteSubscriptionView>, x: QuoteSubscriptionView) -> Seq<QuoteSubscriptionView>
    decreases s.len(),
{
    if s.len() == 0 {
        s
    } else if s.last() == x {
        forgotten(s.drop_last(), x)
    } else {
        forgotten(s.drop_last(), x).push(s.last())
    }
}

/// Forgetting `x` removes it, keeps every other entry, and adds nothing.
pub proof fn lemma_forgotten(s: Seq<QuoteSubscriptionView>, x: QuoteSubscriptionView, y: QuoteSubscriptionView)
    ensures
        forgotten(s, x).contains(y) == (s.contains(y) && y != x),
        s.no_duplicates() ==> forgotten(s, x).no_duplicates(),
    decreases s.len(),
{
    if s.len() > 0 {
        let rest = forgotten(s.drop_last(), x);
        lemma_forgotten(s.drop_last(), x, y);
        lemma_forgotten(s.drop_last(), x, s.last());
        assert(s =~= s.drop_last().push(s.last()));
        if s.contains(y) && y != s.last() {
            let i = choose|i: int| 0 <= i < s.len() && s[i] == y;
            assert(s.drop_last()[i] == y);
        }
        if s.drop_last().contains(y) {
            let i = choose|i: int| 0 <= i < s.drop_last().len() && s.drop_last()[i] == y;
            assert(s[i] == y);
        }
        if s.last() != x {
            assert(rest.push(s.last())[rest.len() as int] == s.last());
            if rest.contains(y) {
                let i = choose|i: int| 0 <= i < rest.len() && rest[i] == y;
                assert(rest.push(s.last())[i] == y);
            }
            if rest.push(s.last()).contains(y) && y != s.last() {
                let i = choose|i: int| 0 <= i < rest.push(s.last()).len() && rest.push(s.last())[i] == y;
                assert(rest[i] == y);
            }
            if s.no_duplicates() {
                assert(!s.drop_last().contains(s.last())) by {
                    if s.drop_last().contains(s.last()) {
                        let i = choose|i: int| 0 <= i < s.drop_last().len() && s.drop_last()[i] == s.last();
                        assert(s[i] == s[s.len() - 1]);
                    }
                }
                assert(s.drop_last().no_duplicates());
                assert(!rest.contains(s.last()));
                assert forall|i: int, j: int| 0 <= i < rest.push(s.last()).len() && 0 <= j < rest.push(s.last()).len() && i != j implies rest.push(s.last())[i] != rest.push(s.last())[j] by {
                    if i == rest.len() as int {
                        assert(rest.contains(rest[j]));
                    } else if j == rest.len() as int {
                        assert(rest.contains(rest[i]));
                    }
                }
            }
        } else {
            if s.no_duplicates() {
                assert(s.drop_last().no_duplicates());
            }
        }
    }
}

/// Remembering a subscription makes the list contain it, keeps every entry
/// it had, remembering it again changes nothing, and the list never holds a
/// subscription twice; forgetting it removes it and keeps every other entry.
pub proof fn law_subscription_list(s: Seq<QuoteSubscriptionView>, x: QuoteSubscriptionView, y: QuoteSubscriptionView)
    requires
        s.no_duplicates(),
    ensures
        remembered(s, x).contains(x),
        s.contains(y) ==> remembered(s, x).contains(y),
        remembered(remembered(s, x), x) == remembered(s, x),
        remembered(s, x).no_duplicates(),
        !forgotten(s, x).contains(x),
        y != x ==> forgotten(s, x).contains(y) == s.contains(y),
        forgotten(s, x).no_duplicates(),
        forgotten(remembered(s, x), x).no_duplicates(),
{
    lemma_forgotten(s, x, y);
    lemma_forgotten(s, x, x);
    if !s.contains(x) {
        assert(s.push(x)[s.len() as int] == x);
        if s.contains(y) {
            let i = choose|i: int| 0 <= i < s.len() && s[i] == y;
            assert(s.push(x)[i] == y);
        }
        assert forall|i: int, j: int| 0 <= i < s.push(x).len() && 0 <= j < s.push(x).len() && i != j implies s.push(x)[i] != s.push(x)[j] by {
            if i == s.len() as int {
                assert(s.contains(s[j]));
            } else if j == s.len() as int {
                assert(s.contains(s[i]));
            }
        }
    }
    lemma_forgotten(remembered(s, x), x, x);
}

/// The quote subscriptions a TW client remembers, so that a reconnecting
/// event stream can restore them. No subscription is held twice.
#[derive(Debug)]
pub struct QuoteSubscriptions {
    items: Vec<QuoteSubscription>,
}

/// The views of a list of subscriptions.
pub open spec fn subscriptions_view(v: Seq<QuoteSubscription>) -> Seq<QuoteSubscriptionView> {
    v.map_values(|s: QuoteSubscription| s@)
}

impl View for QuoteSubscriptions {
    type V = Seq<QuoteSubscriptionView>;

    closed spec fn view(&self) -> Seq<QuoteSubscriptionView> {
        subscriptions_view(self.items@)
    }
}

impl QuoteSubscriptions {
    #[verifier::type_invariant]
    closed spec fn no_duplicates(&self) -> bool {
        subscriptions_view(self.items@).no_duplicates()
    }

    /// An empty list.
    pub fn new() -> (r: Self)
        ensures
            r@ == Seq::<QuoteSubscriptionView>::empty(),
    {
        let r = QuoteSubscriptions { items: Vec::new() };
        assert(subscriptions_view(r.items@) =~= Seq::<QuoteSubscriptionView>::empty());
        r
    }

    /// The number of remembered subscriptions.
    pub fn len(&self) -> (r: usize)
        ensures
            r == self@.len(),
    {
        self.items.len()
    }

    /// Whether `sub` is remembered.
    pub fn contains(&self, sub: &QuoteSubscription) -> (r: bool)
        ensures
            r == self@.contains(sub@),
    {
        let mut i: usize = 0;
        while i < self.items.len()
            invariant
                i <= self.items.len(),
                forall|k: int| 0 <= k < i ==> self.items@[k]@ != sub@,
            decreases self.items.len() - i,
        {
            if self.items[i].same_as(sub) {
                assert(subscriptions_view(self.items@)[i as int] == sub@);
                return true;
            }
            i = i + 1;
        }
        assert(!subscriptions_view(self.items@).contains(sub@)) by {
            if subscriptions_view(self.items@).contains(sub@) {
                let k = choose|k: int| 0 <= k < subscriptions_view(self.items@).len() && subscriptions_view(self.items@)[k] == sub@;
                assert(self.items@[k]@ == sub@);
            }
        }
        false
    }

    /// Copies of the remembered subscriptions, in the order they were added.
    pub fn snapshot(&self) -> (r: Vec<QuoteSubscription>)
        ensures
            subscriptions_view(r@) == self@,
            self@.no_duplicates(),
    {
        proof {
            use_type_invariant(self);
        }
        let mut out: Vec<QuoteSubscription> = Vec::new();
        let mut i: usize = 0;
        while i < self.items.len()
            invariant
                i <= self.items.len(),
                subscriptions_view(out@) == subscriptions_view(self.items@.take(i as int)),
            decreases self.items.len() - i,
        {
            out.push(self.items[i].clone());
            assert(subscriptions_view(self.items@.take(i + 1)) =~= subscriptions_view(self.items@.take(i as int)).push(self.items@[i as int]@));
            i = i + 1;
        }
        assert(self.items@.take(self.items.len() as int) =~= self.items@);
        out
    }

    /// Remembers `sub` unless an equal subscription is already remembered.
    pub fn remember(&mut self, sub: &QuoteSubscription)
        ensures
            final(self)@ == remembered(old(self)@, sub@),
            final(self)@.no_duplicates(),
    {
        proof {
            use_type_invariant(&*self);
        }
        if !self.contains(sub) {
            let mut items = self.snapshot();
            items.push(sub.clone());
            proof {
                assert(subscriptions_view(items@) =~= self@.push(sub@));
                law_subscription_list(self@, sub@, sub@);
            }
            self.items = items;
        }
        proof {
            use_type_invariant(&*self);
        }
    }

    /// Forgets every subscription equal to `sub`.
    pub fn forget(&mut self, sub: &QuoteSubscription)
        ensures
            final(self)@ == forgotten(old(self)@, sub@),
            final(self)@.no_duplicates(),
    {
        proof {
            use_type_invariant(&*self);
        }
        let mut kept: Vec<QuoteSubscription> = Vec::new();
        let mut i: usize = 0;
        while i < self.items.len()
            invariant
                i <= self.items.len(),
                subscriptions_view(kept@) == forgotten(subscriptions_view(self.items@.take(i as int)), sub@),
            decreases self.items.len() - i,
        {
            assert(subscriptions_view(self.items@.take(i + 1)).drop_last() =~= subscriptions_view(self.items@.take(i as int)));
            if !self.items[i].same_as(sub) {
                kept.push(self.items[i].clone());
                assert(subscriptions_view(kept@) =~= forgotten(subscriptions_view(self.items@.take(i as int)), sub@).push(self.items@[i as int]@));
            }
            i = i + 1;
        }
        assert(self.items@.take(self.items.len() as int) =~= self.items@);
        proof {
            law_subscription_list(self@, sub@, sub@);
        }
        self.items = kept;
        proof {
            use_type_invariant(&*self);
        }
    }
}

/// The kind of a TW WebSocket frame, from its `type` member.
#[derive(Debug, Clone, Copy, PartialEq, Eq, Structural)]
pub enum TwEventKind {
    /// `welcome`
    Welcome,
    /// `Login`
    Login,
    /// `RR_RealReport`
    RrRealReport,
    /// `RR_RealReportMerge`
    RrRealReportMerge,
    /// `real_report`
    RealReport,
    /// `real_report_merge`
    RealReportMerge,
    /// `order.updated`
    OrderUpdated,
    /// `quote.updated`
    QuoteUpdated,
    /// `heartbeat`
    Heartbeat,
    /// `SubscribeWatchlist`
    SubscribeWatchlist,
    /// `SubscribeWatchlistAll`
    SubscribeWatchlistAll,
    /// `SubscribeFiveTickA`
    SubscribeFiveTickA,
    /// `SubscribeStockTick`
    SubscribeStockTick,
    /// `SubscribeMarketInformation`
    SubscribeMarketInformation,
    /// `SubscribeStockInformation`
    SubscribeStockInformation,
    /// Any other event type.
    Unknown,
}

/// The kind a frame's `type` stands for, compared exactly.
pub open spec fn spec_tw_event_kind(name: Seq<char>) -> TwEventKind {
    if name == "welcome"@ {
        TwEventKind::Welcome
    } else if name == "Login"@ {
        TwEventKind::Login
    } else if name == "RR_RealReport"@ {
        TwEventKind::RrRealReport
    } else if name == "RR_RealReportMerge"@ {
        TwEventKind::RrRealReportMerge
    } else if name == "real_report"@ {
        TwEventKind::RealReport
    } else if name == "real_report_merge"@ {
        TwEventKind::RealReportMerge
    } else if name == "order.updated"@ {
        TwEventKind::OrderUpdated
    } else if name == "quote.updated"@ {
        TwEventKind::QuoteUpdated
    } else if name == "heartbeat"@ {
        TwEventKind::Heartbeat
    } else if name == "SubscribeWatchlist"@ {
        TwEventKind::SubscribeWatchlist
    } else if name == "SubscribeWatchlistAll"@ {
        TwEventKind::SubscribeWatchlistAll
    } else if name == "SubscribeFiveTickA"@ {
        TwEventKind::SubscribeFiveTickA
    } else if name == "SubscribeStockTick"@ {
        TwEventKind::SubscribeStockTick
    } else if name == "SubscribeMarketInformation"@ {
        TwEventKind::SubscribeMarketInformation
    } else if name == "SubscribeStockInformation"@ {
        TwEventKind::SubscribeStockInformation
    } else {
        TwEventKind::Unknown
    }
}

impl TwEventKind {
    /// Classifies a TW frame by its `type`.
    pub fn of_type(name: &str) -> (r: Self)
        ensures
            r == spec_tw_event_kind(name@),
    {
        let n = owned(name);
        if n == owned("welcome") {
            TwEventKind::Welcome
        } else if n == owned("Login") {
            TwEventKind::Login
        } else if n == owned("RR_RealReport") {
            TwEventKind::RrRealReport
        } else if n == owned("RR_RealReportMerge") {
            TwEventKind::RrRealReportMerge
        } else if n == owned("real_report") {
            TwEventKind::RealReport
        } else if n == owned("real_report_merge") {
            TwEventKind::RealReportMerge
        } else if n == owned("order.updated") {
            TwEventKind::OrderUpdated
        } else if n == owned("quote.updated") {
            TwEventKind::QuoteUpdated
        } else if n == owned("heartbeat") {
            TwEventKind::Heartbeat
        } else if n == owned("SubscribeWatchlist") {
            TwEventKind::SubscribeWatchlist
        } else if n == owned("SubscribeWatchlistAll") {
            TwEventKind::SubscribeWatchlistAll
        } else if n == owned("SubscribeFiveTickA") {
            TwEventKind::SubscribeFiveTickA
        } else if n == owned("SubscribeStockTick") {
            TwEventKind::SubscribeStockTick
        } else if n == owned("SubscribeMarketInformation") {
            TwEventKind::SubscribeMarketInformation
        } else if n == owned("SubscribeStockInformation") {
            TwEventKind::SubscribeStockInformation
        } else {
            TwEventKind::Unknown
        }
    }
}

/// The unified event for a TW frame of the given kind: the real-report
/// kinds become `RealReport` / `RealReportMerge`, every subscribe
/// acknowledgement becomes `Subscribed`, unknown frames keep their `type`,
/// and no TW event carries a timestamp.
pub open spec fn spec_broker_event_of_tw(
    kind: TwEventKind,
    event_type: String,
    data: serde_json::Value,
    message: Option<String>,
) -> BrokerEvent {
    match kind {
        TwEventKind::Welcome => BrokerEvent::Welcome { message },
        TwEventKind::Login => BrokerEvent::Login { data, timestamp_ms: None },
        TwEventKind::RrRealReport => BrokerEvent::RealReport { data, timestamp_ms: None },
        TwEventKind::RealReport => BrokerEvent::RealReport { data, timestamp_ms: None },
        TwEventKind::RrRealReportMerge => BrokerEvent::RealReportMerge { data, timestamp_ms: None },
        TwEventKind::RealReportMerge => BrokerEvent::RealReportMerge { data, timestamp_ms: None },
        TwEventKind::OrderUpdated => BrokerEvent::OrderUpdated { data, timestamp_ms: None },
        TwEventKind::QuoteUpdated => BrokerEvent::QuoteUpdated { data, timestamp_ms: None },
        TwEventKind::Heartbeat => BrokerEvent::Heartbeat { data, timestamp_ms: None },
        TwEventKind::Unknown => BrokerEvent::Unknown { event_type, data, timestamp_ms: None },
        _ => BrokerEvent::Subscribed { data, timestamp_ms: None },
    }
}

/// Builds the unified event for a TW frame of kind `kind`, whose `type` is
/// `event_type`, whose payload (normalized by the caller) is `data`, and,
/// for `welcome`, whose message is `message`.
pub fn broker_event_from_tw(
    kind: TwEventKind,
    event_type: String,
    data: serde_json::Value,
    message: Option<String>,
) -> (r: BrokerEvent)
    ensures
        r == spec_broker_event_of_tw(kind, event_type, data, message),
{
    match kind {
        TwEventKind::Welcome => BrokerEvent::Welcome { message },
        TwEventKind::Login => BrokerEvent::Login { data, timestamp_ms: None },
        TwEventKind::RrRealReport => BrokerEvent::RealReport { data, timestamp_ms: None },
        TwEventKind::RealReport => BrokerEvent::RealReport { data, timestamp_ms: None },
        TwEventKind::RrRealReportMerge => BrokerEvent::RealReportMerge { data, timestamp_ms: None },
        TwEventKind::RealReportMerge => BrokerEvent::RealReportMerge { data, timestamp_ms: None },
        TwEventKind::OrderUpdated => BrokerEvent::OrderUpdated { data, timestamp_ms: None },
        TwEventKind::QuoteUpdated => BrokerEvent::QuoteUpdated { data, timestamp_ms: None },
        TwEventKind::Heartbeat => BrokerEvent::Heartbeat { data, timestamp_ms: None },
        TwEventKind::Unknown => BrokerEvent::Unknown { event_type, data, timestamp_ms: None },
        _ => BrokerEvent::Subscribed { data, timestamp_ms: None },
    }
}


/// A TW frame's kind is read from its exact `type`: each documented type
/// gives its own kind, and any other type gives `Unknown`.
pub proof fn law_tw_event_kinds(name: Seq<char>)
    ensures
        name == "welcome"@ ==> spec_tw_event_kind(name) == TwEventKind::Welcome,
        name == "Login"@ ==> spec_tw_event_kind(name) == TwEventKind::Login,
        name == "RR_RealReport"@ ==> spec_tw_event_kind(name) == TwEventKind::RrRealReport,
        name == "RR_RealReportMerge"@ ==> spec_tw_event_kind(name) == TwEventKind::RrRealReportMerge,
        name == "real_report"@ ==> spec_tw_event_kind(name) == TwEventKind::RealReport,
        name == "real_report_merge"@ ==> spec_tw_event_kind(name) == TwEventKind::RealReportMerge,
        name == "order.updated"@ ==> spec_tw_event_kind(name) == TwEventKind::OrderUpdated,
        name == "quote.updated"@ ==> spec_tw_event_kind(name) == TwEventKind::QuoteUpdated,
        name == "heartbeat"@ ==> spec_tw_event_kind(name) == TwEventKind::Heartbeat,
        name == "SubscribeWatchlist"@ ==> spec_tw_event_kind(name) == TwEventKind::SubscribeWatchlist,
        name == "SubscribeWatchlistAll"@ ==> spec_tw_event_kind(name) == TwEventKind::SubscribeWatchlistAll,
        name == "SubscribeFiveTickA"@ ==> spec_tw_event_kind(name) == TwEventKind::SubscribeFiveTickA,
        name == "SubscribeStockTick"@ ==> spec_tw_event_kind(name) == TwEventKind::SubscribeStockTick,
        name == "SubscribeMarketInformation"@ ==> spec_tw_event_kind(name) == TwEventKind::SubscribeMarketInformation,
        name == "SubscribeStockInformation"@ ==> spec_tw_event_kind(name) == TwEventKind::SubscribeStockInformation,
        (name != "welcome"@ && name != "Login"@ && name != "RR_RealReport"@ && name != "RR_RealReportMerge"@ && name != "real_report"@ && name != "real_report_merge"@ && name != "order.updated"@ && name != "quote.updated"@ && name != "heartbeat"@ && name != "SubscribeWatchlist"@ && name != "SubscribeWatchlistAll"@ && name != "SubscribeFiveTickA"@ && name != "SubscribeStockTick"@ && name != "SubscribeMarketInformation"@ && name != "SubscribeStockInformation"@) ==> spec_tw_event_kind(name) == TwEventKind::Unknown,
{
    reveal_strlit("welcome");
    reveal_strlit("Login");
    reveal_strlit("RR_RealReport");
    reveal_strlit("RR_RealReportMerge");
    reveal_strlit("real_report");
    reveal_strlit("real_report_merge");
    reveal_strlit("order.updated");
    reveal_strlit("quote.updated");
    reveal_strlit("heartbeat");
    reveal_strlit("SubscribeWatchlist");
    reveal_strlit("SubscribeWatchlistAll");
    reveal_strlit("SubscribeFiveTickA");
    reveal_strlit("SubscribeStockTick");
    reveal_strlit("SubscribeMarketInformation");
    reveal_strlit("SubscribeStockInformation");
    assert("welcome"@.len() == 7);
    assert("Login"@.len() == 5);
    assert("RR_RealReport"@.len() == 13);
    assert("RR_RealReportMerge"@.len() == 18);
    assert("real_report"@.len() == 11);
    assert("real_report_merge"@.len() == 17);
    assert("order.updated"@.len() == 13);
    assert("quote.updated"@.len() == 13);
    assert("heartbeat"@.len() == 9);
    assert("SubscribeWatchlist"@.len() == 18);
    assert("SubscribeWatchlistAll"@.len() == 21);
    assert("SubscribeFiveTickA"@.len() == 18);
    assert("SubscribeStockTick"@.len() == 18);
    assert("SubscribeMarketInformation"@.len() == 26);
    assert("SubscribeStockInformation"@.len() == 25);
    assert("RR_RealReportMerge"@[0] != "SubscribeWatchlist"@[0]);
    assert("RR_RealReportMerge"@[0] != "SubscribeFiveTickA"@[0]);
    assert("RR_RealReportMerge"@[0] != "SubscribeStockTick"@[0]);
    assert("SubscribeWatchlist"@[9] != "SubscribeFiveTickA"@[9]);
    assert("SubscribeWatchlist"@[9] != "SubscribeStockTick"@[9]);
    assert("SubscribeFiveTickA"@[9] != "SubscribeStockTick"@[9]);
    assert("RR_RealReport"@[0] != "order.updated"@[0]);
    assert("RR_RealReport"@[0] != "quote.updated"@[0]);
    assert("order.updated"@[0] != "quote.updated"@[0]);
}

/// Unifying a TW frame: the report kinds of both spellings become
/// `RealReport` / `RealReportMerge`, every subscribe acknowledgement becomes
/// `Subscribed`, the others keep their kind; the payload is kept, a welcome
/// keeps its message, an unknown frame keeps its `type`, and no TW event has
/// a timestamp.
pub proof fn law_unified_tw_event(event_type: String, data: serde_json::Value, message: Option<String>)
    ensures
        spec_broker_event_of_tw(TwEventKind::Welcome, event_type, data, message) == (BrokerEvent::Welcome { message }),
        spec_broker_event_of_tw(TwEventKind::Login, event_type, data, message) == (BrokerEvent::Login { data, timestamp_ms: None }),
        spec_broker_event_of_tw(TwEventKind::RrRealReport, event_type, data, message) == (BrokerEvent::RealReport { data, timestamp_ms: None }),
        spec_broker_event_of_tw(TwEventKind::RealReport, event_type, data, message) == (BrokerEvent::RealReport { data, timestamp_ms: None }),
        spec_broker_event_of_tw(TwEventKind::RrRealReportMerge, event_type, data, message) == (BrokerEvent::RealReportMerge { data, timestamp_ms: None }),
        spec_broker_event_of_tw(TwEventKind::RealReportMerge, event_type, data, message) == (BrokerEvent::RealReportMerge { data, timestamp_ms: None }),
        spec_broker_event_of_tw(TwEventKind::OrderUpdated, event_type, data, message) == (BrokerEvent::OrderUpdated { data, timestamp_ms: None }),
        spec_broker_event_of_tw(TwEventKind::QuoteUpdated, event_type, data, message) == (BrokerEvent::QuoteUpdated { data, timestamp_ms: None }),
        spec_broker_event_of_tw(TwEventKind::Heartbeat, event_type, data, message) == (BrokerEvent::Heartbeat { data, timestamp_ms: None }),
        spec_broker_event_of_tw(TwEventKind::SubscribeWatchlist, event_type, data, message) == (BrokerEvent::Subscribed { data, timestamp_ms: None }),
        spec_broker_event_of_tw(TwEventKind::SubscribeWatchlistAll, event_type, data, message) == (BrokerEvent::Subscribed { data, timestamp_ms: None }),
        spec_broker_event_of_tw(TwEventKind::SubscribeFiveTickA, event_type, data, message) == (BrokerEvent::Subscribed { data, timestamp_ms: None }),
        spec_broker_event_of_tw(TwEventKind::SubscribeStockTick, event_type, data, message) == (BrokerEvent::Subscribed { data, timestamp_ms: None }),
        spec_broker_event_of_tw(TwEventKind::SubscribeMarketInformation, event_type, data, message) == (BrokerEvent::Subscribed { data, timestamp_ms: None }),
        spec_broker_event_of_tw(TwEventKind::SubscribeStockInformation, event_type, data, message) == (BrokerEvent::Subscribed { data, timestamp_ms: None }),
        spec_broker_event_of_tw(TwEventKind::Unknown, event_type, data, message) == (BrokerEvent::Unknown { event_type, data, timestamp_ms: None }),
{
}

} // verus!
