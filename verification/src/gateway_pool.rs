//! The configured upstream gateways and the list of those that recently
//! answered with HTTP 429.

use vstd::prelude::*;
use dashmap::DashMap;
use crate::text::{chars_of, contains, contains_seq, extend_chars, string_of, string_views};

verus! {

/// `dashmap::DashMap`, a concurrent hash map; nothing of its inside is
/// known here.
#[verifier::external_type_specification]
#[verifier::external_body]
#[verifier::reject_recursive_types(K)]
#[verifier::reject_recursive_types(V)]
#[verifier::reject_recursive_types(S)]
pub struct ExDashMap<K, V, S>(DashMap<K, V, S>);

/// What a block list holds: for each blocked gateway, by its base URL, the
/// instant of its latest 429 in milliseconds since the Unix epoch.
pub uninterp spec fn block_entries(list: DashMap<String, i64>) -> Map<Seq<char>, i64>;

/// The block list in which no gateway is blocked.
pub open spec fn nothing_blocked() -> Map<Seq<char>, i64> {
    Map::empty()
}

/// `DashMap::new`: a map without entries.
#[verifier::external_body]
fn empty_block_list() -> (list: DashMap<String, i64>)
    ensures
        block_entries(list) == nothing_blocked(),
{
    DashMap::new()
}

/// `DashMap::get`: the value stored under the key, if there is one. Keys are
/// compared by their text.
#[verifier::external_body]
fn blocked_at(list: &DashMap<String, i64>, gateway: &str) -> (at: Option<i64>)
    ensures
        at == (if block_entries(*list).contains_key(gateway@) {
            Some(block_entries(*list)[gateway@])
        } else {
            None
        }),
{
    list.get(gateway).map(|entry| *entry.value())
}

/// `DashMap::insert`: stores the value under the key, replacing what was
/// there; every other entry stays.
#[verifier::external_body]
fn block_gateway(list: &mut DashMap<String, i64>, gateway: String, at: i64)
    ensures
        block_entries(*final(list)) == block_entries(*old(list)).insert(gateway@, at),
{
    list.insert(gateway, at);
}

/// Whole seconds from `then` to `now`, both in milliseconds; a fraction of a
/// second is dropped, towards zero.
pub open spec fn elapsed_seconds(then: i64, now: i64) -> int {
    if now >= then {
        (now - then) / 1000
    } else {
        -((then - now) / 1000)
    }
}

/// A gateway is paused while its latest 429 is younger than `pause` seconds.
pub open spec fn is_paused(blocked: Map<Seq<char>, i64>, gateway: Seq<char>, now: i64, pause: i64) -> bool {
    blocked.contains_key(gateway) && elapsed_seconds(blocked[gateway], now) < pause
}

/// The URL under which a gateway serves a base URI.
pub open spec fn request_url(gateway: Seq<char>, base_uri: Seq<char>) -> Seq<char> {
    gateway + seq!['/'] + base_uri
}

/// The request URLs of the gateways that are not paused, in configured order.
pub open spec fn candidates(
    gateways: Seq<Seq<char>>,
    blocked: Map<Seq<char>, i64>,
    base_uri: Seq<char>,
    now: i64,
    pause: i64,
) -> Seq<Seq<char>>
    decreases gateways.len(),
{
    if gateways.len() == 0 {
        Seq::empty()
    } else {
        let before = candidates(gateways.drop_last(), blocked, base_uri, now, pause);
        if is_paused(blocked, gateways.last(), now, pause) {
            before
        } else {
            before.push(request_url(gateways.last(), base_uri))
        }
    }
}

/// The block list after a 429 from `host` at `now`: every configured gateway
/// whose URL contains the host is blocked from `now` on; other entries stay.
pub open spec fn blocked_after(
    gateways: Seq<Seq<char>>,
    blocked: Map<Seq<char>, i64>,
    host: Seq<char>,
    now: i64,
) -> Map<Seq<char>, i64> {
    Map::new(
        |g: Seq<char>| blocked.contains_key(g) || (gateways.contains(g) && contains_seq(g, host)),
        |g: Seq<char>|
            if gateways.contains(g) && contains_seq(g, host) {
                now
            } else {
                blocked[g]
            },
    )
}

/// Whether an entry of `then` is younger than `pause` seconds at `now`.
pub fn younger_than(then: i64, now: i64, pause: i64) -> (younger: bool)
    ensures
        younger == (elapsed_seconds(then, now) < pause),
{
    if now >= then {
        let whole: i128 = (now as i128 - then as i128) / 1000;
        whole < pause as i128
    } else {
        let whole: i128 = (then as i128 - now as i128) / 1000;
        -whole < pause as i128
    }
}

/// Every candidate is the request URL of a configured gateway that is not
/// paused.
pub proof fn lemma_candidates_are_not_paused(
    gateways: Seq<Seq<char>>,
    blocked: Map<Seq<char>, i64>,
    base_uri: Seq<char>,
    now: i64,
    pause: i64,
    url: Seq<char>,
)
    requires
        candidates(gateways, blocked, base_uri, now, pause).contains(url),
    ensures
        exists|g: Seq<char>|
            gateways.contains(g) && !is_paused(blocked, g, now, pause) && url == #[trigger] request_url(
                g,
                base_uri,
            ),
    decreases gateways.len(),
{
    if gateways.len() > 0 {
        let before = candidates(gateways.drop_last(), blocked, base_uri, now, pause);
        let last = gateways.last();
        if before.contains(url) {
            lemma_candidates_are_not_paused(gateways.drop_last(), blocked, base_uri, now, pause, url);
            let g = choose|g: Seq<char>|
                gateways.drop_last().contains(g) && !is_paused(blocked, g, now, pause) && url
                    == #[trigger] request_url(g, base_uri);
            let k = choose|k: int| 0 <= k < gateways.drop_last().len() && gateways.drop_last()[k] == g;
            assert(gateways[k] == g);
        } else {
            assert(!is_paused(blocked, last, now, pause));
            let all = before.push(request_url(last, base_uri));
            let k = choose|k: int| 0 <= k < all.len() && all[k] == url;
            assert(k == before.len()) by {
                if k < before.len() {
                    assert(before[k] == url);
                }
            }
            assert(gateways[gateways.len() - 1] == last);
        }
    }
}

/// Two gateways with the same request URL for a base URI are the same.
pub proof fn lemma_request_url_names_gateway(first: Seq<char>, second: Seq<char>, base_uri: Seq<char>)
    requires
        request_url(first, base_uri) == request_url(second, base_uri),
    ensures
        first == second,
{
    let a = request_url(first, base_uri);
    let b = request_url(second, base_uri);
    assert(a.len() == first.len() + 1 + base_uri.len());
    assert(b.len() == second.len() + 1 + base_uri.len());
    assert forall|i: int| 0 <= i < first.len() implies first[i] == second[i] by {
        assert(a[i] == first[i]);
        assert(b[i] == second[i]);
    }
    assert(first =~= second);
}

/// A gateway that is paused is not among the candidates, whatever else the
/// block list holds.
pub proof fn lemma_paused_gateway_is_skipped(
    gateways: Seq<Seq<char>>,
    blocked: Map<Seq<char>, i64>,
    gateway: Seq<char>,
    base_uri: Seq<char>,
    now: i64,
    pause: i64,
)
    requires
        is_paused(blocked, gateway, now, pause),
    ensures
        !candidates(gateways, blocked, base_uri, now, pause).contains(request_url(gateway, base_uri)),
{
    let url = request_url(gateway, base_uri);
    if candidates(gateways, blocked, base_uri, now, pause).contains(url) {
        lemma_candidates_are_not_paused(gateways, blocked, base_uri, now, pause, url);
        let g = choose|g: Seq<char>|
            gateways.contains(g) && !is_paused(blocked, g, now, pause) && url == #[trigger] request_url(
                g,
                base_uri,
            );
        lemma_request_url_names_gateway(g, gateway, base_uri);
    }
}

/// Once a gateway has answered 429 at `at`, no fetch that starts while fewer
/// than `pause` whole seconds have passed has that gateway among its
/// candidates.
pub proof fn lemma_rate_limited_gateway_is_skipped(
    gateways: Seq<Seq<char>>,
    blocked: Map<Seq<char>, i64>,
    host: Seq<char>,
    at: i64,
    gateway: Seq<char>,
    base_uri: Seq<char>,
    now: i64,
    pause: i64,
)
    requires
        gateways.contains(gateway),
        contains_seq(gateway, host),
        elapsed_seconds(at, now) < pause,
    ensures
        !candidates(gateways, blocked_after(gateways, blocked, host, at), base_uri, now, pause).contains(
            request_url(gateway, base_uri),
        ),
{
    let after = blocked_after(gateways, blocked, host, at);
    assert(is_paused(after, gateway, now, pause));
    lemma_paused_gateway_is_skipped(gateways, after, gateway, base_uri, now, pause);
}

/// The upstream gateways with their block list.
pub struct GatewayPool {
    gateways: Vec<String>,
    blocked: DashMap<String, i64>,
}

impl GatewayPool {
    /// The configured gateway base URLs, in order.
    pub closed spec fn gateways(&self) -> Seq<Seq<char>> {
        string_views(self.gateways@)
    }

    /// The block list.
    pub closed spec fn blocked(&self) -> Map<Seq<char>, i64> {
        block_entries(self.blocked)
    }

    /// A pool over `gateways` in which no gateway is blocked.
    pub fn new(gateways: Vec<String>) -> (pool: GatewayPool)
        ensures
            pool.gateways() == string_views(gateways@),
            pool.blocked() == nothing_blocked(),
    {
        GatewayPool { gateways, blocked: empty_block_list() }
    }

    /// The URLs to request `base_uri` from at `now`: one for each configured
    /// gateway, in order, but for those whose latest 429 is younger than
    /// `pause` seconds.
    pub fn candidate_urls(&self, base_uri: &str, now: i64, pause: i64) -> (urls: Vec<String>)
        ensures
            string_views(urls@) == candidates(self.gateways(), self.blocked(), base_uri@, now, pause),
    {
        let base = chars_of(base_uri);
        let mut urls: Vec<String> = Vec::new();
        let mut i: usize = 0;
        while i < self.gateways.len()
            invariant
                i <= self.gateways.len(),
                base@ == base_uri@,
                string_views(urls@) == candidates(
                    string_views(self.gateways@).take(i as int),
                    block_entries(self.blocked),
                    base_uri@,
                    now,
                    pause,
                ),
            decreases self.gateways.len() - i,
        {
            let gateway = &self.gateways[i];
            proof {
                let all = string_views(self.gateways@);
                assert(all.take(i + 1).drop_last() =~= all.take(i as int));
                assert(all.take(i + 1).last() == gateway@);
            }
            let paused = match blocked_at(&self.blocked, gateway.as_str()) {
                None => false,
                Some(then) => younger_than(then, now, pause),
            };
            if !paused {
                let mut url = chars_of(gateway.as_str());
                url.push('/');
                extend_chars(&mut url, &base);
                let ghost before = string_views(urls@);
                proof {
                    assert(url@ =~= request_url(gateway@, base_uri@));
                }
                urls.push(string_of(&url));
                proof {
                    assert(string_views(urls@) =~= before.push(request_url(gateway@, base_uri@)));
                }
            }
            i += 1;
        }
        proof {
            let all = string_views(self.gateways@);
            assert(all.take(self.gateways.len() as int) =~= all);
        }
        urls
    }

    /// Records that `host` answered 429 at `now`: every configured gateway
    /// whose URL contains `host` is blocked from `now` on.
    pub fn record_rate_limit(&mut self, host: &str, now: i64)
        ensures
            final(self).gateways() == old(self).gateways(),
            final(self).blocked() == blocked_after(
                old(self).gateways(),
                old(self).blocked(),
                host@,
                now,
            ),
    {
        let needle = chars_of(host);
        let ghost all = string_views(self.gateways@);
        let ghost before = block_entries(self.blocked);
        let mut i: usize = 0;
        proof {
            assert(block_entries(self.blocked) =~= blocked_after(all.take(0), before, host@, now));
        }
        while i < self.gateways.len()
            invariant
                i <= self.gateways.len(),
                needle@ == host@,
                self.gateways == old(self).gateways,
                all == string_views(self.gateways@),
                block_entries(self.blocked) == blocked_after(all.take(i as int), before, host@, now),
            decreases self.gateways.len() - i,
        {
            let gateway = chars_of(self.gateways[i].as_str());
            proof {
                assert(all[i as int] == gateway@);
                let prev = all.take(i as int);
                let next = all.take(i + 1);
                assert forall|g: Seq<char>|
                    next.contains(g) <==> (prev.contains(g) || g == gateway@) by {
                    if next.contains(g) {
                        let k = choose|k: int| 0 <= k < next.len() && next[k] == g;
                        if k < i {
                            assert(prev[k] == g);
                        }
                    }
                    if prev.contains(g) {
                        let k = choose|k: int| 0 <= k < prev.len() && prev[k] == g;
                        assert(next[k] == g);
                    }
                    if g == gateway@ {
                        assert(next[i as int] == g);
                    }
                }
            }
            if contains(&gateway, &needle) {
                block_gateway(&mut self.blocked, self.gateways[i].clone(), now);
            }
            proof {
                assert(block_entries(self.blocked) =~= blocked_after(
                    all.take(i + 1),
                    before,
                    host@,
                    now,
                ));
            }
            i += 1;
        }
        proof {
            assert(all.take(self.gateways.len() as int) =~= all);
        }
    }

    /// When `gateway` last answered 429, if it ever did.
    pub fn blocked_since(&self, gateway: &str) -> (at: Option<i64>)
        ensures
            at == (if self.blocked().contains_key(gateway@) {
                Some(self.blocked()[gateway@])
            } else {
                None
            }),
    {
        blocked_at(&self.blocked, gateway)
    }
}

} // verus!
