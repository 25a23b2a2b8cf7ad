//! Shared client configuration.

use std::time::Duration;

use vstd::prelude::*;
use vstd::string::*;

use crate::auth::AuthMethod;
use crate::time::{duration_from_secs, same_duration};
use crate::text::{owned, trim_end_char, trim_end_matches_char, trim_start_char, trim_start_matches_char};

verus! {

/// The mathematical content of an optional string.
pub open spec fn opt_view(o: Option<String>) -> Option<Seq<char>> {
    match o {
        Some(s) => Some(s@),
        None => None,
    }
}

/// Header pairs as character sequences.
pub open spec fn pairs_view(v: Seq<(String, String)>) -> Seq<(Seq<char>, Seq<char>)> {
    v.map_values(|p: (String, String)| (p.0@, p.1@))
}

/// The value a header list gives `key`: the value of its last entry named `key`.
pub open spec fn header_lookup(s: Seq<(Seq<char>, Seq<char>)>, key: Seq<char>) -> Option<Seq<char>>
    decreases s.len(),
{
    if s.len() == 0 {
        None
    } else if s.last().0 == key {
        Some(s.last().1)
    } else {
        header_lookup(s.drop_last(), key)
    }
}

/// The header list without any entry named `key`.
pub open spec fn without_key(s: Seq<(Seq<char>, Seq<char>)>, key: Seq<char>) -> Seq<(Seq<char>, Seq<char>)>
    decreases s.len(),
{
    if s.len() == 0 {
        s
    } else if s.last().0 == key {
        without_key(s.drop_last(), key)
    } else {
        without_key(s.drop_last(), key).push(s.last())
    }
}

/// The header list after setting `key` to `value` (a map insert).
pub open spec fn header_insert(s: Seq<(Seq<char>, Seq<char>)>, key: Seq<char>, value: Seq<char>) -> Seq<(Seq<char>, Seq<char>)> {
    without_key(s, key).push((key, value))
}

/// The header list built by inserting every pair of `s` in order, so a later
/// pair wins over an earlier pair with the same name.
pub open spec fn headers_from(s: Seq<(Seq<char>, Seq<char>)>) -> Seq<(Seq<char>, Seq<char>)>
    decreases s.len(),
{
    if s.len() == 0 {
        s
    } else {
        header_insert(headers_from(s.drop_last()), s.last().0, s.last().1)
    }
}

/// No two entries of the header list share a name.
pub open spec fn distinct_names(s: Seq<(Seq<char>, Seq<char>)>) -> bool {
    forall|i: int, j: int| 0 <= i < j < s.len() ==> s[i].0 != s[j].0
}

/// Removing `key` leaves the value of every other name, and removes `key`.
pub proof fn lemma_without_key(s: Seq<(Seq<char>, Seq<char>)>, key: Seq<char>, other: Seq<char>)
    ensures
        header_lookup(without_key(s, key), other) == if other == key {
            None
        } else {
            header_lookup(s, other)
        },
        distinct_names(s) ==> distinct_names(without_key(s, key)),
        forall|i: int| 0 <= i < without_key(s, key).len() ==> without_key(s, key)[i].0 != key,
        forall|i: int| #![trigger without_key(s, key)[i]] 0 <= i < without_key(s, key).len() ==> s.contains(without_key(s, key)[i]),
    decreases s.len(),
{
    if s.len() > 0 {
        lemma_without_key(s.drop_last(), key, other);
        let rest = without_key(s.drop_last(), key);
        assert forall|x: (Seq<char>, Seq<char>)| s.drop_last().contains(x) implies s.contains(x) by {
            let i = choose|i: int| 0 <= i < s.drop_last().len() && s.drop_last()[i] == x;
            assert(s[i] == x);
        }
        if s.last().0 != key {
            assert(rest.push(s.last()).drop_last() =~= rest);
            assert(s.contains(s.last())) by {
                assert(s[s.len() - 1] == s.last());
            }
            if distinct_names(s) {
                assert(distinct_names(s.drop_last()));
                assert forall|i: int, j: int| 0 <= i < j < rest.push(s.last()).len() implies rest.push(s.last())[i].0 != rest.push(s.last())[j].0 by {
                    if j == rest.len() {
                        assert(s.drop_last().contains(rest[i]));
                        let k = choose|k: int| 0 <= k < s.drop_last().len() && s.drop_last()[k] == rest[i];
                        assert(s[k] == rest[i]);
                        assert(s[s.len() - 1] == s.last());
                    }
                }
            }
        } else {
            if distinct_names(s) {
                assert(distinct_names(s.drop_last()));
            }
        }
    }
}

/// Setting `key` gives `key` the new value and leaves every other name.
pub proof fn lemma_header_insert(s: Seq<(Seq<char>, Seq<char>)>, key: Seq<char>, value: Seq<char>, other: Seq<char>)
    ensures
        header_lookup(header_insert(s, key, value), other) == if other == key {
            Some(value)
        } else {
            header_lookup(s, other)
        },
        distinct_names(s) ==> distinct_names(header_insert(s, key, value)),
{
    lemma_without_key(s, key, other);
    let w = without_key(s, key);
    assert(w.push((key, value)).drop_last() =~= w);
    if distinct_names(s) {
        assert forall|i: int, j: int| 0 <= i < j < w.push((key, value)).len() implies w.push((key, value))[i].0 != w.push((key, value))[j].0 by {
            if j == w.len() {
                assert(w[i].0 != key);
            }
        }
    }
}

/// Removing a name that no entry has changes nothing.
pub proof fn lemma_without_absent_key(s: Seq<(Seq<char>, Seq<char>)>, key: Seq<char>)
    requires
        forall|i: int| 0 <= i < s.len() ==> s[i].0 != key,
    ensures
        without_key(s, key) == s,
    decreases s.len(),
{
    if s.len() > 0 {
        lemma_without_absent_key(s.drop_last(), key);
        assert(s.drop_last().push(s.last()) =~= s);
    }
}

/// A header list whose names are distinct is its own map: building it pair by
/// pair gives it back unchanged.
pub proof fn lemma_headers_from_distinct(s: Seq<(Seq<char>, Seq<char>)>)
    requires
        distinct_names(s),
    ensures
        headers_from(s) == s,
    decreases s.len(),
{
    if s.len() > 0 {
        let t = s.drop_last();
        assert(distinct_names(t));
        lemma_headers_from_distinct(t);
        assert forall|i: int| 0 <= i < t.len() implies t[i].0 != s.last().0 by {
            assert(s[i] == t[i]);
        }
        lemma_without_absent_key(t, s.last().0);
        assert(t.push(s.last()) =~= s);
    }
}

/// Building a header list from pairs gives every name the value of its last
/// pair, and no name twice.
pub proof fn lemma_headers_from(s: Seq<(Seq<char>, Seq<char>)>, key: Seq<char>)
    ensures
        header_lookup(headers_from(s), key) == header_lookup(s, key),
        distinct_names(headers_from(s)),
    decreases s.len(),
{
    if s.len() > 0 {
        lemma_headers_from(s.drop_last(), key);
        lemma_header_insert(headers_from(s.drop_last()), s.last().0, s.last().1, key);
    }
}

/// The header list read as a map: each name to the value of its last entry.
pub open spec fn header_map(s: Seq<(Seq<char>, Seq<char>)>) -> Map<Seq<char>, Seq<char>> {
    Map::new(
        |k: Seq<char>| header_lookup(s, k) is Some,
        |k: Seq<char>|
            match header_lookup(s, k) {
                Some(v) => v,
                None => Seq::empty(),
            },
    )
}

/// A name has no value exactly when no entry carries it.
pub proof fn lemma_lookup_none(s: Seq<(Seq<char>, Seq<char>)>, key: Seq<char>)
    ensures
        header_lookup(s, key) is None <==> (forall|i: int| 0 <= i < s.len() ==> s[i].0 != key),
    decreases s.len(),
{
    if s.len() > 0 {
        lemma_lookup_none(s.drop_last(), key);
        if header_lookup(s.drop_last(), key) is Some {
            let i = choose|i: int| 0 <= i < s.drop_last().len() && s.drop_last()[i].0 == key;
            assert(s[i].0 == key);
        }
        assert forall|i: int| 0 <= i < s.drop_last().len() implies s.drop_last()[i] == s[i] by {}
    }
}

/// Two header lists read as the same map exactly when each entry's name gets
/// the same value from both.
pub proof fn lemma_header_maps_agree(a: Seq<(Seq<char>, Seq<char>)>, b: Seq<(Seq<char>, Seq<char>)>)
    ensures
        header_map(a) == header_map(b) <==> (
            (forall|i: int| 0 <= i < a.len() ==> header_lookup(b, #[trigger] a[i].0) == header_lookup(a, a[i].0))
            && (forall|j: int| 0 <= j < b.len() ==> header_lookup(a, #[trigger] b[j].0) == header_lookup(b, b[j].0))
        ),
{
    if header_map(a) == header_map(b) {
        assert forall|k: Seq<char>| header_lookup(a, k) == header_lookup(b, k) by {
            assert(header_map(a).dom().contains(k) == header_map(b).dom().contains(k));
            if header_lookup(a, k) is Some {
                assert(header_map(a)[k] == header_map(b)[k]);
            }
        }
    }
    if (forall|i: int| 0 <= i < a.len() ==> header_lookup(b, #[trigger] a[i].0) == header_lookup(a, a[i].0))
        && (forall|j: int| 0 <= j < b.len() ==> header_lookup(a, #[trigger] b[j].0) == header_lookup(b, b[j].0)) {
        assert forall|k: Seq<char>| header_lookup(a, k) == header_lookup(b, k) by {
            lemma_lookup_none(a, k);
            lemma_lookup_none(b, k);
            if header_lookup(a, k) is Some {
                let i = choose|i: int| 0 <= i < a.len() && a[i].0 == k;
                assert(header_lookup(b, a[i].0) == header_lookup(a, a[i].0));
            } else if header_lookup(b, k) is Some {
                let j = choose|j: int| 0 <= j < b.len() && b[j].0 == k;
                assert(header_lookup(a, b[j].0) == header_lookup(b, b[j].0));
            }
        }
        assert(header_map(a) =~= header_map(b));
    }
}

/// Whether two configurations are equal: every setting is the same, and the
/// default headers give every name the same value (their order aside).
pub open spec fn same_config(a: ClientConfigView, b: ClientConfigView) -> bool {
    &&& a.base_url == b.base_url
    &&& a.token == b.token
    &&& a.auth_method == b.auth_method
    &&& a.timeout == b.timeout
    &&& a.retry == b.retry
    &&& a.ws_max_reconnect_attempts == b.ws_max_reconnect_attempts
    &&& a.ws_base_backoff_ms == b.ws_base_backoff_ms
    &&& a.ws_base_url == b.ws_base_url
    &&& a.user_agent == b.user_agent
    &&& header_map(a.default_headers) == header_map(b.default_headers)
}

/// Whether two optional strings are equal.
pub(crate) fn same_opt_string(a: &Option<String>, b: &Option<String>) -> (r: bool)
    ensures
        r == (opt_view(*a) == opt_view(*b)),
{
    match (a, b) {
        (Some(x), Some(y)) => *x == *y,
        (None, None) => true,
        _ => false,
    }
}

/// The value the header list gives `key`: that of its last entry named `key`.
fn lookup_header(headers: &Vec<(String, String)>, key: &str) -> (r: Option<String>)
    ensures
        opt_view(r) == header_lookup(pairs_view(headers@), key@),
{
    let k = owned(key);
    let mut i: usize = headers.len();
    assert(headers@.take(i as int) =~= headers@);
    while i > 0
        invariant
            i <= headers.len(),
            k@ == key@,
            header_lookup(pairs_view(headers@.take(i as int)), key@) == header_lookup(pairs_view(headers@), key@),
        decreases i,
    {
        assert(pairs_view(headers@.take(i as int)).drop_last() =~= pairs_view(headers@.take(i - 1)));
        if headers[i - 1].0 == k {
            return Some(headers[i - 1].1.clone());
        }
        i = i - 1;
    }
    None
}

/// Whether every entry's name of `a` gets the same value from `b` as from `a`.
fn names_agree(a: &Vec<(String, String)>, b: &Vec<(String, String)>) -> (r: bool)
    ensures
        r == (forall|i: int| 0 <= i < a.len() ==> header_lookup(pairs_view(b@), #[trigger] pairs_view(a@)[i].0)
            == header_lookup(pairs_view(a@), pairs_view(a@)[i].0)),
{
    let ghost pa = pairs_view(a@);
    let ghost pb = pairs_view(b@);
    let mut i: usize = 0;
    while i < a.len()
        invariant
            i <= a.len(),
            pa == pairs_view(a@),
            pb == pairs_view(b@),
            forall|k: int| 0 <= k < i ==> header_lookup(pb, #[trigger] pa[k].0) == header_lookup(pa, pa[k].0),
        decreases a.len() - i,
    {
        let x = lookup_header(b, a[i].0.as_str());
        let y = lookup_header(a, a[i].0.as_str());
        assert(pa[i as int].0 == a@[i as int].0@);
        if !same_opt_string(&x, &y) {
            return false;
        }
        i = i + 1;
    }
    true
}

/// Whether two header lists read as the same map.
fn headers_agree(a: &Vec<(String, String)>, b: &Vec<(String, String)>) -> (r: bool)
    ensures
        r == (header_map(pairs_view(a@)) == header_map(pairs_view(b@))),
{
    proof {
        lemma_header_maps_agree(pairs_view(a@), pairs_view(b@));
    }
    names_agree(a, b) && names_agree(b, a)
}

/// Common configuration for both TW and A-share clients.
///
/// Values are kept in one place so `TwClient` and `AClient` share the same
/// HTTP, timeout, retry and header plumbing.
#[derive(Debug, Clone, Eq)]
pub struct ClientConfig {
    /// Server base URL, e.g. `http://127.0.0.1:8000`.
    pub base_url: String,
    /// Optional token. When `None` or empty no authentication header is sent.
    pub token: Option<String>,
    /// Which auth header style to use when a token is configured.
    pub auth_method: AuthMethod,
    /// Per-request timeout.
    pub timeout: Duration,
    /// Number of additional attempts for safe GET requests. `0` disables retry.
    pub retry: u32,
    /// Maximum WebSocket reconnect attempts before giving up (`0`: unlimited).
    pub ws_max_reconnect_attempts: u32,
    /// Base backoff (milliseconds) between WebSocket reconnects.
    pub ws_base_backoff_ms: u64,
    /// Optional separate WebSocket base URL; when `None` it is derived from
    /// `base_url`.
    pub ws_base_url: Option<String>,
    /// Value sent as `User-Agent`.
    pub user_agent: String,
    /// Extra headers merged into every request, as (name, value) pairs with
    /// distinct names.
    pub default_headers: Vec<(String, String)>,
}

/// The mathematical content of a [`ClientConfig`].
pub struct ClientConfigView {
    pub base_url: Seq<char>,
    pub token: Option<Seq<char>>,
    pub auth_method: AuthMethod,
    pub timeout: Duration,
    pub retry: u32,
    pub ws_max_reconnect_attempts: u32,
    pub ws_base_backoff_ms: u64,
    pub ws_base_url: Option<Seq<char>>,
    pub user_agent: Seq<char>,
    pub default_headers: Seq<(Seq<char>, Seq<char>)>,
}

impl View for ClientConfig {
    type V = ClientConfigView;

    open spec fn view(&self) -> ClientConfigView {
        ClientConfigView {
            base_url: self.base_url@,
            token: opt_view(self.token),
            auth_method: self.auth_method,
            timeout: self.timeout,
            retry: self.retry,
            ws_max_reconnect_attempts: self.ws_max_reconnect_attempts,
            ws_base_backoff_ms: self.ws_base_backoff_ms,
            ws_base_url: opt_view(self.ws_base_url),
            user_agent: self.user_agent@,
            default_headers: pairs_view(self.default_headers@),
        }
    }
}

impl ClientConfig {
    /// The default headers name no header twice.
    pub open spec fn wf(&self) -> bool {
        distinct_names(self@.default_headers)
    }

    /// The defaults of [`ClientConfig::new`].
    pub open spec fn is_default_for(v: ClientConfigView, base_url: Seq<char>) -> bool {
        &&& v.base_url == base_url
        &&& v.token == None::<Seq<char>>
        &&& v.auth_method == AuthMethod::Bearer
        &&& v.timeout == duration_from_secs(10)
        &&& v.retry == 2
        &&& v.ws_max_reconnect_attempts == 5
        &&& v.ws_base_backoff_ms == 500
        &&& v.ws_base_url == None::<Seq<char>>
        &&& v.user_agent == "broker_client/0.4.1"@
        &&& v.default_headers == Seq::<(Seq<char>, Seq<char>)>::empty()
    }

    /// Creates a config with common defaults for a given base URL: no token,
    /// bearer auth, a ten-second timeout, two GET retries, five WebSocket
    /// reconnect attempts with a 500 ms base backoff, and the crate's user
    /// agent.
    pub fn new(base_url: &str) -> (r: Self)
        ensures
            Self::is_default_for(r@, base_url@),
            r.wf(),
    {
        let r = ClientConfig {
            base_url: owned(base_url),
            token: None,
            auth_method: AuthMethod::Bearer,
            timeout: Duration::from_secs(10),
            retry: 2,
            ws_max_reconnect_attempts: 5,
            ws_base_backoff_ms: 500,
            ws_base_url: None,
            user_agent: owned("broker_client/0.4.1"),
            default_headers: Vec::new(),
        };
        assert(r@.default_headers =~= Seq::<(Seq<char>, Seq<char>)>::empty());
        r
    }

    /// Returns the default configuration for the TW server.
    pub fn tw_default() -> (r: Self)
        ensures
            Self::is_default_for(r@, "http://127.0.0.1:8000"@),
            r.wf(),
    {
        Self::new("http://127.0.0.1:8000")
    }

    /// Returns the default configuration for the A-share server.
    pub fn a_default() -> (r: Self)
        ensures
            Self::is_default_for(r@, "http://127.0.0.1:8787"@),
            r.wf(),
    {
        Self::new("http://127.0.0.1:8787")
    }

    /// Builder-style override for [`Self::base_url`].
    pub fn base_url(self, base_url: &str) -> (r: Self)
        ensures
            r@ == (ClientConfigView { base_url: base_url@, ..self@ }),
    {
        ClientConfig { base_url: owned(base_url), ..self }
    }

    /// Builder-style override for [`Self::token`].
    pub fn token(self, token: &str) -> (r: Self)
        ensures
            r@ == (ClientConfigView { token: Some(token@), ..self@ }),
    {
        ClientConfig { token: Some(owned(token)), ..self }
    }

    /// Builder-style override for [`Self::auth_method`].
    pub fn auth_method(self, method: AuthMethod) -> (r: Self)
        ensures
            r@ == (ClientConfigView { auth_method: method, ..self@ }),
    {
        ClientConfig { auth_method: method, ..self }
    }

    /// Builder-style override for [`Self::timeout`].
    pub fn timeout(self, timeout: Duration) -> (r: Self)
        ensures
            r@ == (ClientConfigView { timeout: timeout, ..self@ }),
    {
        ClientConfig { timeout, ..self }
    }

    /// Builder-style override for [`Self::retry`].
    pub fn retry(self, retry: u32) -> (r: Self)
        ensures
            r@ == (ClientConfigView { retry: retry, ..self@ }),
    {
        ClientConfig { retry, ..self }
    }

    /// Builder-style override for [`Self::ws_max_reconnect_attempts`].
    pub fn ws_max_reconnect_attempts(self, attempts: u32) -> (r: Self)
        ensures
            r@ == (ClientConfigView { ws_max_reconnect_attempts: attempts, ..self@ }),
    {
        ClientConfig { ws_max_reconnect_attempts: attempts, ..self }
    }

    /// Builder-style override for [`Self::ws_base_backoff_ms`].
    pub fn ws_base_backoff_ms(self, millis: u64) -> (r: Self)
        ensures
            r@ == (ClientConfigView { ws_base_backoff_ms: millis, ..self@ }),
    {
        ClientConfig { ws_base_backoff_ms: millis, ..self }
    }

    /// Builder-style override for [`Self::ws_base_url`].
    pub fn ws_base_url(self, ws_base_url: &str) -> (r: Self)
        ensures
            r@ == (ClientConfigView { ws_base_url: Some(ws_base_url@), ..self@ }),
    {
        ClientConfig { ws_base_url: Some(owned(ws_base_url)), ..self }
    }

    /// Builder-style override for [`Self::user_agent`].
    pub fn user_agent(self, user_agent: &str) -> (r: Self)
        ensures
            r@ == (ClientConfigView { user_agent: user_agent@, ..self@ }),
    {
        ClientConfig { user_agent: owned(user_agent), ..self }
    }

    /// Adds one default header, replacing an earlier header of the same name.
    pub fn default_header(self, key: &str, value: &str) -> (r: Self)
        ensures
            r@ == (ClientConfigView {
                default_headers: header_insert(self@.default_headers, key@, value@),
                ..self@
            }),
            self.wf() ==> r.wf(),
    {
        let headers = insert_header(&self.default_headers, owned(key), owned(value));
        proof {
            lemma_header_insert(self@.default_headers, key@, value@, key@);
        }
        ClientConfig { default_headers: headers, ..self }
    }

    /// Replaces all default headers; of several pairs with the same name the
    /// last one wins.
    pub fn default_headers(self, headers: Vec<(String, String)>) -> (r: Self)
        ensures
            r@ == (ClientConfigView {
                default_headers: headers_from(pairs_view(headers@)),
                ..self@
            }),
            r.wf(),
    {
        let mut built: Vec<(String, String)> = Vec::new();
        let mut i: usize = 0;
        while i < headers.len()
            invariant
                i <= headers.len(),
                pairs_view(built@) == headers_from(pairs_view(headers@.take(i as int))),
            decreases headers.len() - i,
        {
            let k = headers[i].0.clone();
            let v = headers[i].1.clone();
            built = insert_header(&built, k, v);
            assert(pairs_view(headers@.take(i + 1)).drop_last() =~= pairs_view(headers@.take(i as int)));
            i = i + 1;
        }
        assert(headers@.take(headers.len() as int) =~= headers@);
        proof {
            lemma_headers_from(pairs_view(headers@), Seq::empty());
        }
        ClientConfig { default_headers: built, ..self }
    }

    /// The value of the default header named `key`, if one is configured.
    pub fn default_header_value(&self, key: &str) -> (r: Option<String>)
        ensures
            opt_view(r) == header_lookup(self@.default_headers, key@),
    {
        lookup_header(&self.default_headers, key)
    }
}

impl PartialEq for ClientConfig {
    /// Equal settings, and default headers that give every name the same
    /// value whatever their order.
    fn eq(&self, other: &Self) -> (r: bool) {
        self.base_url == other.base_url && same_opt_string(&self.token, &other.token)
            && self.auth_method == other.auth_method && same_duration(&self.timeout, &other.timeout)
            && self.retry == other.retry && self.ws_max_reconnect_attempts
            == other.ws_max_reconnect_attempts && self.ws_base_backoff_ms == other.ws_base_backoff_ms
            && same_opt_string(&self.ws_base_url, &other.ws_base_url) && self.user_agent
            == other.user_agent && headers_agree(&self.default_headers, &other.default_headers)
    }
}

impl vstd::std_specs::cmp::PartialEqSpecImpl for ClientConfig {
    open spec fn obeys_eq_spec() -> bool {
        true
    }

    open spec fn eq_spec(&self, other: &ClientConfig) -> bool {
        same_config(self@, other@)
    }
}

/// The list `headers` with `key` set to `value`.
pub(crate) fn insert_header(headers: &Vec<(String, String)>, key: String, value: String) -> (r: Vec<(String, String)>)
    ensures
        pairs_view(r@) == header_insert(pairs_view(headers@), key@, value@),
{
    let mut out: Vec<(String, String)> = Vec::new();
    let mut i: usize = 0;
    while i < headers.len()
        invariant
            i <= headers.len(),
            pairs_view(out@) == without_key(pairs_view(headers@.take(i as int)), key@),
        decreases headers.len() - i,
    {
        assert(pairs_view(headers@.take(i + 1)).drop_last() =~= pairs_view(headers@.take(i as int)));
        if !(headers[i].0 == key) {
            out.push((headers[i].0.clone(), headers[i].1.clone()));
            assert(pairs_view(out@) =~= without_key(pairs_view(headers@.take(i as int)), key@).push(pairs_view(headers@)[i as int]));
        }
        i = i + 1;
    }
    assert(headers@.take(headers.len() as int) =~= headers@);
    out.push((key, value));
    assert(pairs_view(out@) =~= header_insert(pairs_view(headers@), key@, value@));
    out
}

impl Default for ClientConfig {
    /// The TW server defaults.
    fn default() -> (r: Self)
        ensures
            Self::is_default_for(r@, "http://127.0.0.1:8000"@),
            r.wf(),
    {
        Self::tw_default()
    }
}

/// Joins a base URL and a path without creating a double slash: trailing `/`
/// of the base and leading `/` of the path are dropped and one `/` joins them.
pub open spec fn spec_join_url(base_url: Seq<char>, path: Seq<char>) -> Seq<char> {
    trim_end_char(base_url, '/') + seq!['/'] + trim_start_char(path, '/')
}

/// Joins a base URL and a path without accidentally creating a double slash.
pub fn join_url(base_url: &str, path: &str) -> (r: String)
    ensures
        r@ == spec_join_url(base_url@, path@),
{
    let head = trim_end_matches_char(base_url, '/');
    let tail = trim_start_matches_char(path, '/');
    let r = owned(head).concat("/").concat(tail);
    proof {
        reveal_strlit("/");
    }
    assert(r@ =~= spec_join_url(base_url@, path@));
    r
}


/// Joining puts exactly one `/` between the base URL and the path: a base
/// without a trailing `/` and a path without a leading `/` are joined as
/// `base/path`, and a trailing `/` on the base or a leading `/` on the path
/// changes nothing.
pub proof fn law_join_url(base_url: Seq<char>, path: Seq<char>)
    ensures
        (base_url.len() == 0 || base_url.last() != '/') && (path.len() == 0 || path[0] != '/')
            ==> spec_join_url(base_url, path) == base_url + seq!['/'] + path,
        spec_join_url(base_url.push('/'), path) == spec_join_url(base_url, path),
        spec_join_url(base_url, seq!['/'] + path) == spec_join_url(base_url, path),
{
    assert(base_url.push('/').drop_last() =~= base_url);
    assert((seq!['/'] + path).drop_first() =~= path);
}

} // verus!
