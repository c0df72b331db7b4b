//! The token cache: tokens are kept per set of scopes until shortly before they expire.
use vstd::prelude::*;
use crate::text::{join, views, text_le, sorted_strings, join_strings, lemma_sorted_unique,
    lemma_text_le_total_ordering};
use crate::token::{Token, TokenView};

verus! {

/// Margin before a token's actual expiry at which it is no longer handed out, in seconds.
pub const EXPIRY_MARGIN_SECS: u64 = 60;

/// Nanoseconds per second.
pub const NANOS_PER_SEC: u64 = 1_000_000_000;

/// The cache key of a set of scopes: the scopes in the order of strings, separated by spaces.
pub open spec fn spec_cache_key(scopes: Seq<Seq<char>>) -> Seq<char> {
    join(scopes.sort_by(text_le()), seq![' '])
}

/// The key under which a token for `scopes` is cached: the scopes sorted and joined by spaces.
pub fn cache_key(scopes: &[String]) -> (res: String)
    ensures
        res@ == spec_cache_key(views(scopes@)),
{
    let sorted = sorted_strings(scopes);
    proof {
        lemma_text_le_total_ordering();
        views(scopes@).lemma_sort_by_ensures(text_le());
        lemma_sorted_unique(views(sorted@), views(scopes@).sort_by(text_le()));
    }
    let sep = " ";
    proof {
        reveal_strlit(" ");
        assert(sep@ =~= seq![' ']);
    }
    join_strings(sorted.as_slice(), sep)
}

/// The time a token of lifetime `expires_in` seconds stays in use, in seconds.
pub open spec fn ttl_secs(expires_in: u64) -> nat {
    if expires_in >= EXPIRY_MARGIN_SECS {
        (expires_in - EXPIRY_MARGIN_SECS) as nat
    } else {
        0
    }
}

/// Whether the time a token stays in use is representable in nanoseconds as a `u64`.
pub open spec fn ttl_fits(expires_in: u64) -> bool {
    ttl_secs(expires_in) * (NANOS_PER_SEC as nat) <= u64::MAX
}

/// Nanoseconds from `earlier` to `now` on a monotonic clock, or zero if `earlier` is later.
pub open spec fn elapsed(acquired_at: u64, now: u64) -> nat {
    if now >= acquired_at {
        (now - acquired_at) as nat
    } else {
        0
    }
}

/// Whether a token of lifetime `expires_in` seconds has a time in use representable in
/// nanoseconds as a `u64`.
pub fn fits(expires_in: u64) -> (res: bool)
    ensures
        res == ttl_fits(expires_in),
{
    let secs: u64 = if expires_in >= EXPIRY_MARGIN_SECS {
        expires_in - EXPIRY_MARGIN_SECS
    } else {
        0
    };
    secs <= u64::MAX / NANOS_PER_SEC
}

/// A cached token: the token, when it was acquired and the lifetime it was given.
pub struct CachedToken {
    pub token: Token,
    /// Monotonic time of acquisition, in nanoseconds.
    pub acquired_at: u64,
    pub expires_in_secs: u64,
}

/// The contents of a `CachedToken`.
pub struct CachedView {
    pub token: TokenView,
    pub acquired_at: u64,
    pub expires_in_secs: u64,
}

impl View for CachedToken {
    type V = CachedView;

    open spec fn view(&self) -> CachedView {
        CachedView {
            token: self.token@,
            acquired_at: self.acquired_at,
            expires_in_secs: self.expires_in_secs,
        }
    }
}

/// Whether a cached token is still to be used at monotonic time `now` (nanoseconds).
pub open spec fn spec_is_valid(c: CachedView, now: u64) -> bool {
    elapsed(c.acquired_at, now) < ttl_secs(c.expires_in_secs) * (NANOS_PER_SEC as nat)
}

impl CachedToken {
    /// Whether this token is still to be used at monotonic time `now` (nanoseconds).
    pub fn is_valid(&self, now: u64) -> (res: bool)
        requires
            ttl_fits(self.expires_in_secs),
        ensures
            res == spec_is_valid(self@, now),
    {
        let elapsed: u64 = if now >= self.acquired_at {
            now - self.acquired_at
        } else {
            0
        };
        let ttl_secs: u64 = if self.expires_in_secs >= EXPIRY_MARGIN_SECS {
            self.expires_in_secs - EXPIRY_MARGIN_SECS
        } else {
            0
        };
        proof {
            assert(ttl_secs * NANOS_PER_SEC <= u64::MAX);
        }
        elapsed < ttl_secs * NANOS_PER_SEC
    }
}

/// The cache content after expired entries were dropped at time `now`.
pub open spec fn drop_expired(m: Map<Seq<char>, CachedView>, now: u64) -> Map<Seq<char>, CachedView> {
    Map::new(|k: Seq<char>| m.contains_key(k) && spec_is_valid(m[k], now), |k: Seq<char>| m[k])
}

/// What a lookup for `key` at time `now` gives.
pub open spec fn spec_get(m: Map<Seq<char>, CachedView>, key: Seq<char>, now: u64) -> Option<TokenView> {
    if m.contains_key(key) && spec_is_valid(m[key], now) {
        Some(m[key].token)
    } else {
        None
    }
}

/// The cache content after storing `token` under `key` at time `now`.
pub open spec fn spec_put(
    m: Map<Seq<char>, CachedView>,
    key: Seq<char>,
    token: TokenView,
    now: u64,
) -> Map<Seq<char>, CachedView> {
    drop_expired(m, now).insert(
        key,
        CachedView { token, acquired_at: now, expires_in_secs: token.expires_in },
    )
}

/// The map that a list of entries stands for.
pub open spec fn entries_map(s: Seq<(String, CachedToken)>) -> Map<Seq<char>, CachedView>
    decreases s.len(),
{
    if s.len() == 0 {
        Map::empty()
    } else {
        entries_map(s.drop_last()).insert(s.last().0@, s.last().1@)
    }
}

/// Whether the entry under `key`, if any, has a time in use that is representable in
/// nanoseconds (a lookup of `key` checks it).
pub open spec fn key_fits(m: Map<Seq<char>, CachedView>, key: Seq<char>) -> bool {
    m.contains_key(key) ==> ttl_fits(m[key].expires_in_secs)
}

/// Whether every entry has a time in use that is representable in nanoseconds (a store checks
/// them all when it drops the expired ones).
pub open spec fn all_fit(m: Map<Seq<char>, CachedView>) -> bool {
    forall|k: Seq<char>| m.contains_key(k) ==> ttl_fits(#[trigger] m[k].expires_in_secs)
}

/// No two entries share a key.
pub open spec fn keys_unique(s: Seq<(String, CachedToken)>) -> bool {
    forall|i: int, j: int| 0 <= i < j < s.len() ==> s[i].0@ != s[j].0@
}

proof fn lemma_entries_map(s: Seq<(String, CachedToken)>)
    requires
        keys_unique(s),
    ensures
        forall|k: Seq<char>|
            entries_map(s).contains_key(k) <==> exists|i: int| 0 <= i < s.len() && #[trigger] s[i].0@ == k,
        forall|i: int| 0 <= i < s.len() ==> #[trigger] entries_map(s)[s[i].0@] == s[i].1@,
        forall|i: int| 0 <= i < s.len() ==> entries_map(s).contains_key(#[trigger] s[i].0@),
    decreases s.len(),
{
    if s.len() > 0 {
        let t = s.drop_last();
        assert(keys_unique(t));
        lemma_entries_map(t);
        assert forall|k: Seq<char>|
            entries_map(s).contains_key(k) implies exists|i: int| 0 <= i < s.len() && #[trigger] s[i].0@ == k by {
            if k != s.last().0@ {
                assert(entries_map(t).contains_key(k));
                let i = choose|i: int| 0 <= i < t.len() && #[trigger] t[i].0@ == k;
                assert(t[i] == s[i]);
                assert(s[i].0@ == k);
            } else {
                assert(s[s.len() - 1].0@ == k);
            }
        }
        assert forall|i: int| 0 <= i < s.len() implies #[trigger] entries_map(s)[s[i].0@] == s[i].1@ by {
            if i < s.len() - 1 {
                assert(t[i] == s[i]);
                assert(s[i].0@ != s[s.len() - 1].0@);
            }
        }
        assert forall|i: int| 0 <= i < s.len() implies entries_map(s).contains_key(#[trigger] s[i].0@) by {
            if i < s.len() - 1 {
                assert(t[i] == s[i]);
            }
        }
    }
}

/// Tokens cached per set of scopes.
pub struct TokenCache {
    entries: Vec<(String, CachedToken)>,
}

impl View for TokenCache {
    type V = Map<Seq<char>, CachedView>;

    closed spec fn view(&self) -> Map<Seq<char>, CachedView> {
        entries_map(self.entries@)
    }
}

impl TokenCache {
    #[verifier::type_invariant]
    closed spec fn well_formed(&self) -> bool {
        keys_unique(self.entries@)
    }

    /// An empty cache.
    pub fn new() -> (res: TokenCache)
        ensures
            res@ == Map::<Seq<char>, CachedView>::empty(),
    {
        TokenCache { entries: Vec::new() }
    }

    /// Whether a lookup for `scopes` can check the entry it finds: its time in use is
    /// representable in nanoseconds.
    pub fn key_fits(&self, scopes: &[String]) -> (res: bool)
        ensures
            res == key_fits(self@, spec_cache_key(views(scopes@))),
    {
        proof {
            use_type_invariant(self);
            lemma_entries_map(self.entries@);
        }
        let key = cache_key(scopes);
        let n = self.entries.len();
        let mut i: usize = 0;
        while i < n
            invariant
                n == self.entries@.len(),
                i <= n,
                forall|j: int| 0 <= j < i ==> (#[trigger] self.entries@[j]).0@ != key@,
                key@ == spec_cache_key(views(scopes@)),
            decreases n - i,
        {
            if self.entries[i].0 == key {
                proof {
                    use_type_invariant(self);
                    lemma_entries_map(self.entries@);
                    assert(self@[key@] == self.entries@[i as int].1@);
                }
                return fits(self.entries[i].1.expires_in_secs);
            }
            i = i + 1;
        }
        proof {
            if self@.contains_key(key@) {
                let j = choose|j: int| 0 <= j < self.entries@.len() && #[trigger] self.entries@[j].0@ == key@;
            }
        }
        true
    }

    /// Whether every entry's time in use is representable in nanoseconds, so that a store can
    /// check them all.
    pub fn all_fit(&self) -> (res: bool)
        ensures
            res == all_fit(self@),
    {
        proof {
            use_type_invariant(self);
            lemma_entries_map(self.entries@);
        }
        let n = self.entries.len();
        let mut i: usize = 0;
        while i < n
            invariant
                n == self.entries@.len(),
                i <= n,
                forall|j: int| 0 <= j < i ==> ttl_fits(#[trigger] self.entries@[j].1.expires_in_secs),
            decreases n - i,
        {
            if !fits(self.entries[i].1.expires_in_secs) {
                proof {
                    use_type_invariant(self);
                    lemma_entries_map(self.entries@);
                    let k = self.entries@[i as int].0@;
                    assert(self@.contains_key(k));
                    assert(self@[k] == self.entries@[i as int].1@);
                    assert(!ttl_fits(self@[k].expires_in_secs));
                }
                return false;
            }
            i = i + 1;
        }
        proof {
            use_type_invariant(self);
            lemma_entries_map(self.entries@);
            assert forall|k: Seq<char>| self@.contains_key(k) implies ttl_fits(#[trigger] self@[k].expires_in_secs) by {
                let j = choose|j: int| 0 <= j < self.entries@.len() && #[trigger] self.entries@[j].0@ == k;
                assert(ttl_fits(self.entries@[j].1.expires_in_secs));
            }
        }
        true
    }

    /// The cached token for `scopes` if it is still to be used at monotonic time `now` (nanoseconds).
    pub fn get(&self, scopes: &[String], now: u64) -> (res: Option<Token>)
        requires
            key_fits(self@, spec_cache_key(views(scopes@))),
        ensures
            match res {
                Some(t) => spec_get(self@, spec_cache_key(views(scopes@)), now) == Some(t@),
                None => spec_get(self@, spec_cache_key(views(scopes@)), now) is None,
            },
    {
        proof {
            use_type_invariant(self);
            lemma_entries_map(self.entries@);
        }
        let key = cache_key(scopes);
        let n = self.entries.len();
        let mut i: usize = 0;
        while i < n
            invariant
                n == self.entries@.len(),
                i <= n,
                forall|j: int| 0 <= j < i ==> (#[trigger] self.entries@[j]).0@ != key@,
                key@ == spec_cache_key(views(scopes@)),
                key_fits(self@, key@),
            decreases n - i,
        {
            let entry = &self.entries[i];
            if entry.0 == key {
                proof {
                    use_type_invariant(self);
                    lemma_entries_map(self.entries@);
                    assert(self@.contains_key(self.entries@[i as int].0@));
                    assert(self@[key@] == self.entries@[i as int].1@);
                }
                if entry.1.is_valid(now) {
                    return Some(entry.1.token.duplicate());
                } else {
                    return None;
                }
            }
            i = i + 1;
        }
        None
    }

    /// Stores `token` for `scopes`, acquired at monotonic time `now` (nanoseconds), and drops
    /// the tokens that are no longer to be used at `now`.
    pub fn put(&mut self, scopes: &[String], token: &Token, now: u64)
        requires
            all_fit(old(self)@),
        ensures
            final(self)@ == spec_put(old(self)@, spec_cache_key(views(scopes@)), token@, now),
    {
        proof {
            use_type_invariant(&*self);
            lemma_entries_map(self.entries@);
            assert forall|j: int| 0 <= j < self.entries@.len()
                implies ttl_fits(#[trigger] self.entries@[j].1.expires_in_secs) by {
                assert(self@.contains_key(self.entries@[j].0@));
                assert(self@[self.entries@[j].0@] == self.entries@[j].1@);
                assert(ttl_fits(self@[self.entries@[j].0@].expires_in_secs));
            }
        }
        let key = cache_key(scopes);
        let mut kept: Vec<(String, CachedToken)> = Vec::new();
        let n = self.entries.len();
        let mut i: usize = 0;
        let ghost old_map = entries_map(self.entries@);
        while i < n
            invariant
                n == self.entries@.len(),
                i <= n,
                keys_unique(self.entries@),
                old_map == entries_map(self.entries@),
                forall|j: int| 0 <= j < self.entries@.len() ==> #[trigger] old_map[self.entries@[j].0@] == self.entries@[j].1@,
                forall|j: int|
                    0 <= j < self.entries@.len() ==> ttl_fits(#[trigger] self.entries@[j].1.expires_in_secs),
                keys_unique(kept@),
                forall|j: int| 0 <= j < kept@.len() ==> (#[trigger] kept@[j]).0@ != key@,
                forall|j: int| 0 <= j < kept@.len() ==> exists|m: int| 0 <= m < i && #[trigger] self.entries@[m].0@ == (#[trigger] kept@[j]).0@,
                forall|k: Seq<char>| #[trigger] entries_map(kept@).contains_key(k) <==> (
                    k != key@ && exists|m: int| 0 <= m < i && #[trigger] self.entries@[m].0@ == k
                        && spec_is_valid(self.entries@[m].1@, now)),
                forall|k: Seq<char>| #[trigger] entries_map(kept@).contains_key(k) ==> entries_map(kept@)[k] == old_map[k],
            decreases n - i,
        {
            let entry = &self.entries[i];
            let valid = entry.1.is_valid(now);
            if valid && !(entry.0 == key) {
                let copy = (
                    entry.0.clone(),
                    CachedToken {
                        token: entry.1.token.duplicate(),
                        acquired_at: entry.1.acquired_at,
                        expires_in_secs: entry.1.expires_in_secs,
                    },
                );
                let ghost before = kept@;
                proof {
                    lemma_entries_map(before);
                    assert forall|j: int| 0 <= j < before.len() implies before[j].0@ != copy.0@ by {
                        let m = choose|m: int| 0 <= m < i && #[trigger] self.entries@[m].0@ == before[j].0@;
                    }
                }
                kept.push(copy);
                proof {
                    assert(kept@.drop_last() =~= before);
                    assert(entries_map(kept@) == entries_map(before).insert(copy.0@, copy.1@));
                    assert forall|k: Seq<char>| #[trigger] entries_map(kept@).contains_key(k) <==> (
                        k != key@ && exists|m: int| 0 <= m < i + 1 && #[trigger] self.entries@[m].0@ == k
                            && spec_is_valid(self.entries@[m].1@, now)) by {
                        if k == copy.0@ {
                            assert(self.entries@[i as int].0@ == k);
                        } else if exists|m: int| 0 <= m < i + 1 && #[trigger] self.entries@[m].0@ == k
                            && spec_is_valid(self.entries@[m].1@, now) {
                            let m = choose|m: int| 0 <= m < i + 1 && #[trigger] self.entries@[m].0@ == k
                                && spec_is_valid(self.entries@[m].1@, now);
                            assert(m < i);
                        }
                    }
                    assert forall|j: int| 0 <= j < kept@.len() implies exists|m: int| 0 <= m < i + 1 && #[trigger] self.entries@[m].0@ == (#[trigger] kept@[j]).0@ by {
                        if j < before.len() {
                            assert(kept@[j] == before[j]);
                            let m = choose|m: int| 0 <= m < i && #[trigger] self.entries@[m].0@ == before[j].0@;
                        } else {
                            assert(self.entries@[i as int].0@ == kept@[j].0@);
                        }
                    }
                }
            } else {
                proof {
                    assert forall|k: Seq<char>| #[trigger] entries_map(kept@).contains_key(k) <==> (
                        k != key@ && exists|m: int| 0 <= m < i + 1 && #[trigger] self.entries@[m].0@ == k
                            && spec_is_valid(self.entries@[m].1@, now)) by {
                        if exists|m: int| 0 <= m < i + 1 && #[trigger] self.entries@[m].0@ == k
                            && spec_is_valid(self.entries@[m].1@, now) && k != key@ {
                            let m = choose|m: int| 0 <= m < i + 1 && #[trigger] self.entries@[m].0@ == k
                                && spec_is_valid(self.entries@[m].1@, now);
                            if m == i {
                                assert(self.entries@[m].1@ == self.entries@[i as int].1@);
                            }
                            assert(m < i);
                        }
                    }
                }
            }
            i = i + 1;
        }
        let ghost before = kept@;
        proof {
            lemma_entries_map(before);
        }
        kept.push((
            key,
            CachedToken { token: token.duplicate(), acquired_at: now, expires_in_secs: token.expires_in },
        ));
        proof {
            assert(kept@.drop_last() =~= before);
            lemma_entries_map(kept@);
            let target = spec_put(old_map, key@, token@, now);
            assert(entries_map(kept@) =~= target) by {
                assert forall|k: Seq<char>| #[trigger] entries_map(kept@).contains_key(k) <==> target.contains_key(k) by {
                    if k != key@ && entries_map(before).contains_key(k) {
                        let m = choose|m: int| 0 <= m < n && #[trigger] self.entries@[m].0@ == k
                            && spec_is_valid(self.entries@[m].1@, now);
                        assert(old_map.contains_key(k));
                    }
                    if k != key@ && old_map.contains_key(k) && spec_is_valid(old_map[k], now) {
                        let m = choose|m: int| 0 <= m < n && #[trigger] self.entries@[m].0@ == k;
                        assert(entries_map(before).contains_key(k));
                    }
                }
            }
        }
        self.entries = kept;
    }
}

} // verus!

verus! {

/// The cache key depends only on which scopes are asked for, not on their order:
/// two lists holding the same scopes (counted with multiplicity) have the same key.
pub proof fn law_cache_key_ignores_order(a: Seq<Seq<char>>, b: Seq<Seq<char>>)
    requires
        a.to_multiset() == b.to_multiset(),
    ensures
        spec_cache_key(a) == spec_cache_key(b),
{
    lemma_text_le_total_ordering();
    a.lemma_sort_by_ensures(text_le());
    b.lemma_sort_by_ensures(text_le());
    lemma_sorted_unique(a.sort_by(text_le()), b.sort_by(text_le()));
}

/// A token stored for a key is what a lookup of that key gives, as long as less time than its
/// lifetime minus the margin has passed since it was stored.
pub proof fn law_get_after_put(
    m: Map<Seq<char>, CachedView>,
    key: Seq<char>,
    token: TokenView,
    now: u64,
    later: u64,
)
    requires
        elapsed(now, later) < ttl_secs(token.expires_in) * (NANOS_PER_SEC as nat),
    ensures
        spec_get(spec_put(m, key, token, now), key, later) == Some(token),
{
}

/// A token is never handed out once its lifetime minus the margin has passed.
pub proof fn law_get_after_expiry(
    m: Map<Seq<char>, CachedView>,
    key: Seq<char>,
    token: TokenView,
    now: u64,
    later: u64,
)
    requires
        elapsed(now, later) >= ttl_secs(token.expires_in) * (NANOS_PER_SEC as nat),
    ensures
        spec_get(spec_put(m, key, token, now), key, later) is None,
{
}

/// Storing a token for one key leaves what later lookups of every other key give unchanged.
pub proof fn law_put_keeps_other_keys(
    m: Map<Seq<char>, CachedView>,
    key: Seq<char>,
    other: Seq<char>,
    token: TokenView,
    now: u64,
    later: u64,
)
    requires
        other != key,
        now <= later,
    ensures
        spec_get(spec_put(m, key, token, now), other, later) == spec_get(m, other, later),
{
}

/// After a store, the cache holds no token that was no longer to be used at the time of the store.
pub proof fn law_put_drops_expired(
    m: Map<Seq<char>, CachedView>,
    key: Seq<char>,
    token: TokenView,
    now: u64,
    k: Seq<char>,
)
    requires
        k != key,
        m.contains_key(k),
        !spec_is_valid(m[k], now),
    ensures
        !spec_put(m, key, token, now).contains_key(k),
{
}

} // verus!

verus! {

/// A token fetched for a list of scopes is served from the cache to any later request for the
/// same scopes, in whatever order, until its lifetime minus the margin has passed.
pub proof fn law_fetched_token_is_served(
    m: Map<Seq<char>, CachedView>,
    stored_for: Seq<Seq<char>>,
    asked_for: Seq<Seq<char>>,
    token: TokenView,
    now: u64,
    later: u64,
)
    requires
        stored_for.to_multiset() == asked_for.to_multiset(),
        elapsed(now, later) < ttl_secs(token.expires_in) * (NANOS_PER_SEC as nat),
    ensures
        spec_get(spec_put(m, spec_cache_key(stored_for), token, now), spec_cache_key(asked_for), later)
            == Some(token),
{
    law_cache_key_ignores_order(stored_for, asked_for);
    law_get_after_put(m, spec_cache_key(stored_for), token, now, later);
}

} // verus!
