//! Time-bounded decision cache: session fingerprint to cached
//! authorization decision, with lazy expiry.

use vstd::prelude::*;
use vstd::pervasive::VecAdditionalExecFns;

verus! {

/// A cached authorization decision for one session fingerprint: the
/// decision itself and the absolute instant at which it expires.
#[derive(Clone, Copy, Debug)]
pub struct AuthState {
    pub is_allowed: bool,
    pub exp_time: u64,
}

/// The mapping that a sequence of key/decision pairs represents; a later
/// pair with the same key would shadow an earlier one.
pub open spec fn map_of(s: Seq<(String, AuthState)>) -> Map<Seq<char>, AuthState>
    decreases s.len(),
{
    if s.len() == 0 {
        Map::empty()
    } else {
        map_of(s.drop_last()).insert(s.last().0@, s.last().1)
    }
}

/// No two pairs carry the same key.
pub open spec fn keys_unique(s: Seq<(String, AuthState)>) -> bool {
    forall|i: int, j: int| 0 <= i < j < s.len() ==> s[i].0@ != s[j].0@
}

/// The sub-mapping of `m` that is still live at instant `now`: exactly the
/// entries whose expiry lies strictly in the future.
pub open spec fn live_map(m: Map<Seq<char>, AuthState>, now: u64) -> Map<Seq<char>, AuthState> {
    Map::new(|k: Seq<char>| m.contains_key(k) && m[k].exp_time > now, |k: Seq<char>| m[k])
}

/// What a lookup at instant `now` yields from mapping `m`: the entry for
/// `f`, and only while it is live.
pub open spec fn spec_lookup(m: Map<Seq<char>, AuthState>, f: Seq<char>, now: u64) -> Option<AuthState> {
    if m.contains_key(f) && m[f].exp_time > now {
        Some(m[f])
    } else {
        None
    }
}

proof fn lemma_map_of_contains(s: Seq<(String, AuthState)>, k: Seq<char>)
    ensures
        map_of(s).contains_key(k) <==> exists|i: int| 0 <= i < s.len() && s[i].0@ == k,
    decreases s.len(),
{
    if s.len() > 0 {
        lemma_map_of_contains(s.drop_last(), k);
        if map_of(s).contains_key(k) {
            if s.last().0@ == k {
                assert(s[s.len() - 1].0@ == k);
            } else {
                let i = choose|i: int| 0 <= i < s.drop_last().len() && s.drop_last()[i].0@ == k;
                assert(s[i].0@ == k);
            }
        }
        if exists|i: int| 0 <= i < s.len() && s[i].0@ == k {
            let i = choose|i: int| 0 <= i < s.len() && s[i].0@ == k;
            if i < s.len() - 1 {
                assert(s.drop_last()[i].0@ == k);
            }
        }
    }
}

proof fn lemma_map_of_index(s: Seq<(String, AuthState)>, i: int)
    requires
        keys_unique(s),
        0 <= i < s.len(),
    ensures
        map_of(s).contains_key(s[i].0@),
        map_of(s)[s[i].0@] == s[i].1,
    decreases s.len(),
{
    if i == s.len() - 1 {
    } else {
        assert(keys_unique(s.drop_last()));
        assert(s.drop_last()[i] == s[i]);
        lemma_map_of_index(s.drop_last(), i);
        assert(s[i].0@ != s.last().0@);
    }
}

proof fn lemma_map_of_push(s: Seq<(String, AuthState)>, p: (String, AuthState))
    ensures
        map_of(s.push(p)) == map_of(s).insert(p.0@, p.1),
{
    assert(s.push(p).drop_last() =~= s);
    assert(s.push(p).last() == p);
}

proof fn lemma_map_of_update(s: Seq<(String, AuthState)>, i: int, p: (String, AuthState))
    requires
        keys_unique(s),
        0 <= i < s.len(),
        p.0@ == s[i].0@,
    ensures
        map_of(s.update(i, p)) == map_of(s).insert(p.0@, p.1),
    decreases s.len(),
{
    let t = s.update(i, p);
    if i == s.len() - 1 {
        assert(t.drop_last() =~= s.drop_last());
        assert(t.last() == p);
        assert(map_of(s.drop_last()).insert(s.last().0@, s.last().1).insert(p.0@, p.1)
            =~= map_of(s.drop_last()).insert(p.0@, p.1));
    } else {
        assert(keys_unique(s.drop_last()));
        assert(s.drop_last()[i] == s[i]);
        lemma_map_of_update(s.drop_last(), i, p);
        assert(t.drop_last() =~= s.drop_last().update(i, p));
        assert(t.last() == s.last());
        assert(s[i].0@ != s.last().0@);
        assert(map_of(s.drop_last()).insert(p.0@, p.1).insert(s.last().0@, s.last().1)
            =~= map_of(s.drop_last()).insert(s.last().0@, s.last().1).insert(p.0@, p.1));
    }
}

/// Decision cache: a mapping from session fingerprint to a cached
/// decision, keys unique, owned by the gateway for the process lifetime.
pub struct AuthCache {
    entries: Vec<(String, AuthState)>,
}

impl AuthCache {
    /// The mapping this cache holds.
    pub closed spec fn view(&self) -> Map<Seq<char>, AuthState> {
        map_of(self.entries@)
    }

    /// Internal well-formedness: at most one entry per fingerprint.
    pub closed spec fn wf(&self) -> bool {
        keys_unique(self.entries@)
    }

    /// Creates the cache empty.
    pub fn new() -> (r: AuthCache)
        ensures
            r.wf(),
            r@ == Map::<Seq<char>, AuthState>::empty(),
    {
        AuthCache { entries: Vec::new() }
    }

    /// Removes every entry whose expiry is at or before `now`; the lazy
    /// expiry sweep that precedes every lookup.
    pub fn sweep(&mut self, now: u64)
        requires
            old(self).wf(),
        ensures
            final(self).wf(),
            final(self)@ == live_map(old(self)@, now),
    {
        let ghost s = self.entries@;
        let mut kept: Vec<(String, AuthState)> = Vec::new();
        let mut i: usize = 0;
        while i < self.entries.len()
            invariant
                keys_unique(s),
                i <= s.len(),
                self.entries@ == s,
                keys_unique(kept@),
                map_of(kept@) == live_map(map_of(s.take(i as int)), now),
            decreases s.len() - i,
        {
            let ghost prefix = s.take(i as int);
            let ghost p = s[i as int];
            let live = self.entries[i].1.exp_time > now;
            if live {
                let name = self.entries[i].0.clone();
                let st = self.entries[i].1;
                proof {
                    assert forall|j2: int| 0 <= j2 < kept@.len() implies kept@[j2].0@ != p.0@ by {
                        lemma_map_of_index(kept@, j2);
                        lemma_map_of_contains(prefix, kept@[j2].0@);
                    }
                    lemma_map_of_push(kept@, (name, st));
                }
                kept.push((name, st));
            }
            proof {
                assert(s.take(i + 1) =~= prefix.push(p));
                lemma_map_of_push(prefix, p);
                lemma_map_of_contains(prefix, p.0@);
                assert(!map_of(prefix).contains_key(p.0@));
                assert(map_of(kept@) =~= live_map(map_of(s.take(i + 1)), now));
            }
            i = i + 1;
        }
        proof {
            assert(s.take(s.len() as int) =~= s);
        }
        self.entries = kept;
    }

    /// Returns the live entry for `f` at instant `now`, if any; never an
    /// entry whose expiry is at or before `now`.
    pub fn lookup(&self, f: &String, now: u64) -> (r: Option<AuthState>)
        requires
            self.wf(),
        ensures
            r == spec_lookup(self@, f@, now),
    {
        let ghost s = self.entries@;
        let mut i: usize = 0;
        while i < self.entries.len()
            invariant
                keys_unique(s),
                i <= s.len(),
                self.entries@ == s,
                forall|j: int| 0 <= j < i ==> s[j].0@ != f@,
            decreases s.len() - i,
        {
            if self.entries[i].0 == *f {
                let st = self.entries[i].1;
                proof {
                    lemma_map_of_index(s, i as int);
                }
                if st.exp_time > now {
                    return Some(st);
                } else {
                    return None;
                }
            }
            i = i + 1;
        }
        proof {
            lemma_map_of_contains(s, f@);
        }
        None
    }

    /// Replaces any entry for `f` with the decision `allowed`, expiring
    /// `ttl` after `now`.
    pub fn insert(&mut self, f: String, allowed: bool, now: u64, ttl: u64)
        requires
            old(self).wf(),
            now + ttl <= u64::MAX,
        ensures
            final(self).wf(),
            final(self)@ == old(self)@.insert(
                f@,
                AuthState { is_allowed: allowed, exp_time: (now + ttl) as u64 },
            ),
    {
        let ghost s = self.entries@;
        let st = AuthState { is_allowed: allowed, exp_time: now + ttl };
        let mut i: usize = 0;
        while i < self.entries.len()
            invariant
                keys_unique(s),
                i <= s.len(),
                self.entries@ == s,
                old(self).entries@ == s,
                now + ttl <= u64::MAX,
                st == (AuthState { is_allowed: allowed, exp_time: (now + ttl) as u64 }),
                forall|j: int| 0 <= j < i ==> s[j].0@ != f@,
            decreases s.len() - i,
        {
            if self.entries[i].0 == f {
                proof {
                    lemma_map_of_update(s, i as int, (f, st));
                    assert(s.update(i as int, (f, st))[i as int].0@ == f@);
                    assert forall|a: int, b: int|
                        0 <= a < b < s.len() implies s.update(i as int, (f, st))[a].0@
                        != s.update(i as int, (f, st))[b].0@ by {
                        assert(s[a].0@ != s[b].0@);
                    }
                }
                self.entries.set(i, (f, st));
                return ;
            }
            i = i + 1;
        }
        proof {
            lemma_map_of_push(s, (f, st));
            lemma_map_of_contains(s, f@);
        }
        self.entries.push((f, st));
    }

    /// How many entries the cache currently holds.
    pub fn len(&self) -> (r: usize)
        requires
            self.wf(),
        ensures
            r == self@.dom().len(),
    {
        proof {
            lemma_map_of_len(self.entries@);
        }
        self.entries.len()
    }
}

proof fn lemma_map_of_len(s: Seq<(String, AuthState)>)
    requires
        keys_unique(s),
    ensures
        map_of(s).dom().len() == s.len(),
        map_of(s).dom().finite(),
    decreases s.len(),
{
    if s.len() > 0 {
        assert(keys_unique(s.drop_last()));
        lemma_map_of_len(s.drop_last());
        lemma_map_of_contains(s.drop_last(), s.last().0@);
        assert(!map_of(s.drop_last()).contains_key(s.last().0@));
    }
}

/// Cache coherence: after an entry for `f` is written at `now` with
/// time-to-live `ttl`, every lookup strictly before `now + ttl` returns
/// that decision, and every lookup at or after `now + ttl` finds nothing.
pub proof fn lemma_cache_coherence(
    m: Map<Seq<char>, AuthState>,
    f: Seq<char>,
    allowed: bool,
    now: u64,
    ttl: u64,
    t: u64,
)
    requires
        now + ttl <= u64::MAX,
    ensures
        ({
            let st = AuthState { is_allowed: allowed, exp_time: (now + ttl) as u64 };
            let m1 = m.insert(f, st);
            &&& (t < now + ttl ==> spec_lookup(m1, f, t) == Some(st))
            &&& (t >= now + ttl ==> spec_lookup(m1, f, t) is None)
        }),
{
}

/// Sweeping at any instant `t0` no later than the lookup instant never
/// changes what a lookup yields: expired entries behave as absent either
/// way.
pub proof fn lemma_sweep_preserves_lookup(
    m: Map<Seq<char>, AuthState>,
    t0: u64,
    f: Seq<char>,
    now: u64,
)
    requires
        t0 <= now,
    ensures
        spec_lookup(live_map(m, t0), f, now) == spec_lookup(m, f, now),
{
}

/// At-most-one authoritative write per window: a decision written for `f`
/// at `now` is still a live cache hit at every later instant `t` before
/// expiry, so a request for the same fingerprint in that window is
/// answered from the cache and never reaches the external procedure.
pub proof fn lemma_single_write_window(
    m: Map<Seq<char>, AuthState>,
    f: Seq<char>,
    allowed: bool,
    now: u64,
    ttl: u64,
    t: u64,
)
    requires
        now + ttl <= u64::MAX,
        now <= t < now + ttl,
    ensures
        ({
            let st = AuthState { is_allowed: allowed, exp_time: (now + ttl) as u64 };
            &&& live_map(m.insert(f, st), t).contains_key(f)
            &&& spec_lookup(m.insert(f, st), f, t) == Some(st)
        }),
{
}

} // verus!
