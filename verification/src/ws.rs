//! What the WebSocket event streams decide: the stream URL, the
//! authentication header, when to reconnect and when to give up, and the
//! notices a stream reports about itself.
//!
//! Connecting, receiving and sleeping belong to the caller, which runs the
//! loop that `ReconnectState` describes.

use vstd::prelude::*;
use vstd::string::*;

use crate::client::a::types::AEvent;
use crate::auth::AuthMethod;
use crate::config::{opt_view, ClientConfig, ClientConfigView};
use crate::json::{json_string, json_string_value};
use crate::text::{occurs_at, owned, replace_all, replace_all_str, trim_end_char, trim_end_matches_char};

verus! {

/// The HTTP base a stream URL is derived from: the separate WebSocket base
/// URL when one is configured, else the server base URL.
pub open spec fn spec_ws_http_base(config: ClientConfigView) -> Seq<char> {
    match config.ws_base_url {
        Some(u) => u,
        None => config.base_url,
    }
}

/// The stream URL for `endpoint` (which starts with `/`): every `http://` in
/// the base becomes `ws://` and then every `https://` becomes `wss://`,
/// trailing `/` are dropped, and the endpoint is appended. The token is
/// never part of the URL.
pub open spec fn spec_ws_url(config: ClientConfigView, endpoint: Seq<char>) -> Seq<char> {
    trim_end_char(
        replace_all(replace_all(spec_ws_http_base(config), "http://"@, "ws://"@), "https://"@, "wss://"@),
        '/',
    ) + endpoint
}

/// Builds the stream URL for `endpoint`.
pub fn ws_url(config: &ClientConfig, endpoint: &str) -> (r: String)
    ensures
        r@ == spec_ws_url(config@, endpoint@),
{
    let base: &str = match &config.ws_base_url {
        Some(u) => u.as_str(),
        None => config.base_url.as_str(),
    };
    proof {
        reveal_strlit("http://");
        reveal_strlit("https://");
    }
    let ws = replace_all_str(base, "http://", "ws://");
    let wss = replace_all_str(ws.as_str(), "https://", "wss://");
    owned(trim_end_matches_char(wss.as_str(), '/')).concat(endpoint)
}

/// The URL of the A-share event stream (`/v1/ws`).
pub fn a_ws_url(config: &ClientConfig) -> (r: String)
    ensures
        r@ == spec_ws_url(config@, "/v1/ws"@),
{
    ws_url(config, "/v1/ws")
}

/// The URL of the TW event stream (`/ws`).
pub fn tw_ws_url(config: &ClientConfig) -> (r: String)
    ensures
        r@ == spec_ws_url(config@, "/ws"@),
{
    ws_url(config, "/ws")
}

/// The `Authorization` value a stream connects with: `Bearer <token>` for a
/// non-empty token, whatever header style HTTP requests use; none without a
/// token.
pub open spec fn spec_ws_authorization(config: ClientConfigView) -> Option<Seq<char>> {
    match config.token {
        Some(t) => if t.len() > 0 {
            Some("Bearer "@ + t)
        } else {
            None
        },
        None => None,
    }
}

/// Computes the `Authorization` value a stream connects with.
pub fn ws_authorization(config: &ClientConfig) -> (r: Option<String>)
    ensures
        opt_view(r) == spec_ws_authorization(config@),
{
    match &config.token {
        Some(token) => {
            if token.as_str().is_empty() {
                None
            } else {
                Some(owned("Bearer ").concat(token.as_str()))
            }
        },
        None => None,
    }
}

/// The token never reaches a stream URL: two configurations that differ only
/// in their token have the same stream URL for every endpoint.
pub proof fn law_ws_url_ignores_token(config: ClientConfigView, token: Option<Seq<char>>, endpoint: Seq<char>)
    ensures
        spec_ws_url(ClientConfigView { token, ..config }, endpoint) == spec_ws_url(config, endpoint),
{
}

/// A stream connects with `Authorization: Bearer <token>` for a non-empty
/// token, whichever header style HTTP requests use, and with no
/// authorization otherwise.
pub proof fn law_ws_authorization(config: ClientConfigView, method: AuthMethod, t: Seq<char>)
    ensures
        spec_ws_authorization(ClientConfigView { auth_method: method, ..config })
            == spec_ws_authorization(config),
        config.token == Some(t) && t.len() > 0 ==> spec_ws_authorization(config) == Some(
            "Bearer "@ + t,
        ),
        (config.token is None || config.token == Some(Seq::<char>::empty())) ==> spec_ws_authorization(
            config,
        ) is None,
{
}

/// The stream URL ends with the endpoint, and is taken from the separate
/// WebSocket base URL whenever one is configured, whatever the server base
/// URL is.
pub proof fn law_ws_url_base(config: ClientConfigView, base_url: Seq<char>, endpoint: Seq<char>)
    ensures
        spec_ws_url(config, endpoint).subrange(
            spec_ws_url(config, endpoint).len() - endpoint.len(),
            spec_ws_url(config, endpoint).len() as int,
        ) == endpoint,
        config.ws_base_url is Some ==> spec_ws_url(ClientConfigView { base_url, ..config }, endpoint)
            == spec_ws_url(config, endpoint),
{
    let u = spec_ws_url(config, endpoint);
    assert(u.subrange(u.len() - endpoint.len(), u.len() as int) =~= endpoint);
}

/// The reconnect state of an event stream.
#[derive(Debug, Clone, Copy, PartialEq, Eq, Structural)]
pub struct ReconnectState {
    /// Reconnects made since the last event was received.
    pub attempt: u32,
    /// How many reconnects are allowed without an event (`0`: unlimited).
    pub max_attempts: u32,
    /// Base backoff in milliseconds; the `n`-th reconnect waits `n` times it.
    pub base_backoff_ms: u64,
}

/// What a stream does after a connection ends or fails to open.
#[derive(Debug, Clone, Copy, PartialEq, Eq, Structural)]
pub enum ReconnectAction {
    /// Give up: report that the stream terminated and end it.
    Terminate,
    /// Wait `delay_ms` milliseconds, then connect again.
    Retry { delay_ms: u64 },
}

/// The stream gives up when a limit is set and that many reconnects have
/// been made without an event.
pub open spec fn spec_gives_up(s: ReconnectState) -> bool {
    s.max_attempts > 0 && s.attempt >= s.max_attempts
}

/// A disconnect can be handled without overflow: either the stream gives up,
/// or the next attempt number and its backoff fit their types.
pub open spec fn spec_can_reconnect(s: ReconnectState) -> bool {
    spec_gives_up(s) || (s.attempt < u32::MAX && s.base_backoff_ms * (s.attempt + 1) <= u64::MAX)
}

/// The state and action after a disconnect.
pub open spec fn spec_after_disconnect(s: ReconnectState) -> (ReconnectState, ReconnectAction) {
    if spec_gives_up(s) {
        (s, ReconnectAction::Terminate)
    } else {
        (
            ReconnectState { attempt: (s.attempt + 1) as u32, ..s },
            ReconnectAction::Retry { delay_ms: (s.base_backoff_ms * (s.attempt + 1)) as u64 },
        )
    }
}

/// The state after `n` disconnects in a row, none followed by an event;
/// `None` once the stream has given up.
pub open spec fn spec_disconnects(s: ReconnectState, n: nat) -> Option<ReconnectState>
    decreases n,
{
    if n == 0 {
        Some(s)
    } else {
        match spec_disconnects(s, (n - 1) as nat) {
            Some(t) => if spec_gives_up(t) {
                None
            } else {
                Some(spec_after_disconnect(t).0)
            },
            None => None,
        }
    }
}

impl ReconnectState {
    /// The state of a new stream: no reconnect made yet.
    pub fn new(max_attempts: u32, base_backoff_ms: u64) -> (r: Self)
        ensures
            r == (ReconnectState { attempt: 0, max_attempts, base_backoff_ms }),
    {
        ReconnectState { attempt: 0, max_attempts, base_backoff_ms }
    }

    /// The state of a new stream under a configuration.
    pub fn for_config(config: &ClientConfig) -> (r: Self)
        ensures
            r == (ReconnectState {
                attempt: 0,
                max_attempts: config.ws_max_reconnect_attempts,
                base_backoff_ms: config.ws_base_backoff_ms,
            }),
    {
        Self::new(config.ws_max_reconnect_attempts, config.ws_base_backoff_ms)
    }

    /// Whether the next disconnect can be handled: the stream gives up, or
    /// the next attempt number and its backoff fit their types.
    pub fn can_reconnect(&self) -> (r: bool)
        ensures
            r == spec_can_reconnect(*self),
    {
        if self.max_attempts > 0 && self.attempt >= self.max_attempts {
            true
        } else if self.attempt == u32::MAX {
            false
        } else {
            self.base_backoff_ms.checked_mul(self.attempt as u64 + 1).is_some()
        }
    }

    /// An event was received: the connection is usable, so the reconnect
    /// count starts over.
    pub fn on_event(&mut self)
        ensures
            *final(self) == (ReconnectState { attempt: 0, ..*old(self) }),
    {
        self.attempt = 0;
    }

    /// A connection ended or could not be opened: give up when the limit is
    /// reached, else count one more reconnect and wait the base backoff times
    /// that count.
    pub fn after_disconnect(&mut self) -> (r: ReconnectAction)
        requires
            spec_can_reconnect(*old(self)),
        ensures
            *final(self) == spec_after_disconnect(*old(self)).0,
            r == spec_after_disconnect(*old(self)).1,
    {
        if self.max_attempts > 0 && self.attempt >= self.max_attempts {
            ReconnectAction::Terminate
        } else {
            let next = self.attempt + 1;
            let delay_ms = self.base_backoff_ms * next as u64;
            self.attempt = next;
            ReconnectAction::Retry { delay_ms }
        }
    }
}

/// The state of a stream with `attempt` reconnects made.
pub open spec fn state_at(attempt: u32, max: u32, base: u64) -> ReconnectState {
    ReconnectState { attempt, max_attempts: max, base_backoff_ms: base }
}

/// Reconnect budget: with a limit of `max > 0`, a stream that receives no
/// event reconnects exactly `max` times, waiting `base`, `2 * base`, ... ,
/// `max * base` milliseconds, and gives up at the next disconnect; with no
/// limit (`0`) it never gives up.
pub proof fn law_reconnect_budget(max: u32, base: u64, k: nat)
    ensures
        k <= max ==> spec_disconnects(state_at(0, max, base), k) == Some(state_at(k as u32, max, base)),
        max > 0 ==> spec_gives_up(state_at(max, max, base)),
        0 < k <= max ==> spec_after_disconnect(state_at((k - 1) as u32, max, base)).1 == (ReconnectAction::Retry { delay_ms: (base * k) as u64 }),
        max == 0 && k < u32::MAX ==> spec_disconnects(state_at(0, 0, base), k) == Some(state_at(k as u32, 0, base)),
        max == 0 ==> forall|a: u32| !spec_gives_up(#[trigger] state_at(a, 0, base)),
    decreases k,
{
    if k > 0 {
        law_reconnect_budget(max, base, (k - 1) as nat);
    }
}

/// The state after a run of connections, each of which delivered at least
/// one event (`true`) or none (`false`, also for a connection that failed to
/// open): an event resets the count, and every disconnect either reconnects or
/// ends the stream; `None` once the stream has ended.
pub open spec fn spec_stream(s: ReconnectState, conns: Seq<bool>) -> Option<ReconnectState>
    decreases conns.len(),
{
    if conns.len() == 0 {
        Some(s)
    } else {
        match spec_stream(s, conns.drop_last()) {
            Some(t) => {
                let u = if conns.last() {
                    ReconnectState { attempt: 0, ..t }
                } else {
                    t
                };
                if spec_gives_up(u) {
                    None
                } else {
                    Some(spec_after_disconnect(u).0)
                }
            },
            None => None,
        }
    }
}

/// The reconnects made since the stream last received an event (or since it
/// started): the disconnect of a connection that delivered events is the first.
pub open spec fn quiet_reconnects(conns: Seq<bool>) -> nat
    decreases conns.len(),
{
    if conns.len() == 0 {
        0
    } else if conns.last() {
        1
    } else {
        quiet_reconnects(conns.drop_last()) + 1
    }
}

/// Whether a stream with limit `max` has ended within `conns`: some
/// connection delivered no event after `max` reconnects had already been made
/// since the last event.
pub open spec fn stream_ends(conns: Seq<bool>, max: u32) -> bool
    decreases conns.len(),
{
    if conns.len() == 0 {
        false
    } else {
        stream_ends(conns.drop_last(), max) || (!conns.last() && quiet_reconnects(conns.drop_last())
            >= max)
    }
}

proof fn lemma_quiet_bound(conns: Seq<bool>)
    ensures
        quiet_reconnects(conns) <= conns.len(),
    decreases conns.len(),
{
    if conns.len() > 0 {
        lemma_quiet_bound(conns.drop_last());
    }
}

/// Reconnect policy over a whole run of connections: with a limit `max > 0`,
/// the stream ends exactly when a connection delivers no event after `max`
/// reconnects without an event; a connection that delivers an event starts
/// the count over, one that opens but delivers none does not; until then the
/// stream has made `quiet_reconnects` reconnects since its last event. With no
/// limit (`0`) it never ends.
pub proof fn law_stream_reconnects(max: u32, base: u64, conns: Seq<bool>)
    ensures
        max > 0 ==> spec_stream(state_at(0, max, base), conns) == if stream_ends(conns, max) {
            None::<ReconnectState>
        } else {
            Some(state_at(quiet_reconnects(conns) as u32, max, base))
        },
        max > 0 && !stream_ends(conns, max) ==> quiet_reconnects(conns) <= max,
        max == 0 && conns.len() < u32::MAX ==> spec_stream(state_at(0, 0, base), conns) == Some(
            state_at(quiet_reconnects(conns) as u32, 0, base),
        ),
    decreases conns.len(),
{
    lemma_quiet_bound(conns);
    if conns.len() > 0 {
        law_stream_reconnects(max, base, conns.drop_last());
        lemma_quiet_bound(conns.drop_last());
    }
}

/// Notices an event stream reports about itself, as events of a reserved
/// `type` whose payload is a message string.
#[derive(Debug, Clone, Copy, PartialEq, Eq, Structural)]
pub enum StreamNotice {
    /// `_connect_error`: a connection could not be opened.
    ConnectError,
    /// `_stream_terminated`: the reconnect limit was reached.
    StreamTerminated,
    /// `_malformed`: a text frame was not valid JSON (payload: the frame).
    Malformed,
    /// `_resubscribe_error`: restoring a quote subscription failed.
    ResubscribeError,
}

impl StreamNotice {
    /// The reserved event type of the notice.
    pub open spec fn spec_event_type(self) -> Seq<char> {
        match self {
            StreamNotice::ConnectError => "_connect_error"@,
            StreamNotice::StreamTerminated => "_stream_terminated"@,
            StreamNotice::Malformed => "_malformed"@,
            StreamNotice::ResubscribeError => "_resubscribe_error"@,
        }
    }

    /// The reserved event type of the notice.
    pub fn event_type(self) -> (r: &'static str)
        ensures
            r@ == self.spec_event_type(),
    {
        match self {
            StreamNotice::ConnectError => "_connect_error",
            StreamNotice::StreamTerminated => "_stream_terminated",
            StreamNotice::Malformed => "_malformed",
            StreamNotice::ResubscribeError => "_resubscribe_error",
        }
    }

    /// The A-share event reporting the notice with message `text`: an
    /// unknown event of the reserved type, without timestamp.
    pub fn a_event(self, text: String) -> (r: AEvent)
        ensures
            r matches AEvent::Unknown { event_type, data, timestamp_ms } && event_type@
                == self.spec_event_type() && data == json_string_value(text@) && timestamp_ms
                is None,
    {
        AEvent::Unknown {
            event_type: owned(self.event_type()),
            data: json_string(text),
            timestamp_ms: None,
        }
    }
}

/// The message of the notice that a stream gave up.
pub fn terminated_message() -> (r: String)
    ensures
        r@ == "maximum WebSocket reconnect attempts reached"@,
{
    owned("maximum WebSocket reconnect attempts reached")
}


proof fn lemma_not_occurs(s: Seq<char>, pat: Seq<char>, i: int, k: int)
    requires
        0 <= i,
        0 <= k < pat.len(),
        i + k < s.len(),
        s[i + k] != pat[k],
    ensures
        !occurs_at(s, pat, i),
{
    if occurs_at(s, pat, i) {
        assert(s.subrange(i, i + pat.len())[k] == s[i + k]);
    }
}

/// Replacing leaves a text without `/` as it is, for a pattern holding `/`.
proof fn lemma_replace_plain(s: Seq<char>, pat: Seq<char>, rep: Seq<char>, j: int)
    requires
        0 <= j < pat.len(),
        pat[j] == '/',
        forall|i: int| 0 <= i < s.len() ==> s[i] != '/',
    ensures
        replace_all(s, pat, rep) == s,
    decreases s.len(),
{
    if s.len() > 0 {
        if occurs_at(s, pat, 0) {
            assert(s.subrange(0, pat.len() as int)[j] == s[j]);
        }
        lemma_replace_plain(s.skip(1), pat, rep, j);
        assert(seq![s[0]] + s.skip(1) =~= s);
    }
}

/// Replacing in `p + h`, where no occurrence starts inside `p`, keeps `p`.
proof fn lemma_replace_after(p: Seq<char>, h: Seq<char>, pat: Seq<char>, rep: Seq<char>)
    requires
        pat.len() > 0,
        forall|i: int| 0 <= i < p.len() ==> !occurs_at(p + h, pat, i),
    ensures
        replace_all(p + h, pat, rep) == p + replace_all(h, pat, rep),
    decreases p.len(),
{
    if p.len() > 0 {
        let s = p + h;
        assert(!occurs_at(s, pat, 0));
        let q = p.skip(1);
        assert(s.skip(1) =~= q + h);
        assert forall|i: int| 0 <= i < q.len() implies !occurs_at(q + h, pat, i) by {
            assert(!occurs_at(s, pat, i + 1));
            if occurs_at(q + h, pat, i) {
                assert((q + h).subrange(i, i + pat.len()) =~= s.subrange(i + 1, i + 1 + pat.len()));
            }
        }
        lemma_replace_after(q, h, pat, rep);
        assert(seq![p[0]] + (q + replace_all(h, pat, rep)) =~= p + replace_all(h, pat, rep));
    }
}

/// A text that starts with the pattern has it replaced first.
proof fn lemma_replace_head(h: Seq<char>, pat: Seq<char>, rep: Seq<char>)
    requires
        pat.len() > 0,
    ensures
        replace_all(pat + h, pat, rep) == rep + replace_all(h, pat, rep),
{
    assert((pat + h).subrange(0, pat.len() as int) =~= pat);
    assert((pat + h).skip(pat.len() as int) =~= h);
}

/// The scheme of a stream URL: for a host (with its port) holding no `/`,
/// an `http://` base gives `ws://` and an `https://` base gives `wss://`,
/// followed by the host and the endpoint.
pub proof fn law_ws_url_scheme(config: ClientConfigView, host: Seq<char>, endpoint: Seq<char>)
    requires
        host.len() > 0,
        forall|i: int| 0 <= i < host.len() ==> host[i] != '/',
    ensures
        spec_ws_http_base(config) == "http://"@ + host ==> spec_ws_url(config, endpoint) == "ws://"@
            + host + endpoint,
        spec_ws_http_base(config) == "https://"@ + host ==> spec_ws_url(config, endpoint)
            == "wss://"@ + host + endpoint,
{
    reveal_strlit("http://");
    reveal_strlit("https://");
    reveal_strlit("ws://");
    reveal_strlit("wss://");
    let http = "http://"@;
    let https = "https://"@;
    let ws = "ws://"@;
    let wss = "wss://"@;
    assert(http.len() == 7 && https.len() == 8 && ws.len() == 5 && wss.len() == 6);
    lemma_replace_plain(host, http, ws, 5);
    lemma_replace_plain(host, https, wss, 6);
    if spec_ws_http_base(config) == http + host {
        lemma_replace_head(host, http, ws);
        assert forall|i: int| 0 <= i < ws.len() implies !occurs_at(ws + host, https, i) by {
            lemma_not_occurs(ws + host, https, i, 0);
        }
        lemma_replace_after(ws, host, https, wss);
        let u = ws + host;
        assert(u.last() == host.last());
        assert(trim_end_char(u, '/') == u);
    }
    if spec_ws_http_base(config) == https + host {
        assert forall|i: int| 0 <= i < https.len() implies !occurs_at(https + host, http, i) by {
            if i == 0 {
                lemma_not_occurs(https + host, http, 0, 4);
            } else {
                lemma_not_occurs(https + host, http, i, 0);
            }
        }
        lemma_replace_after(https, host, http, ws);
        lemma_replace_head(host, https, wss);
        let u = wss + host;
        assert(u.last() == host.last());
        assert(trim_end_char(u, '/') == u);
    }
}

} // verus!
