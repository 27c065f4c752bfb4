//! The key-value cache and its mathematical model.
//!
//! The cache holds the server-side revocation state for refresh tokens —
//! keyed `auth:refresh-token:{user_id}` with an expiry matching the token's —
//! and cached user details. Its model is a map from key to value and
//! time-to-live; `setx` is an upsert, `del` removes, `get` reads, and absence
//! is not an error. Unlike the credential store, the cache takes no part in
//! any transaction: a unit of work that rolls back leaves its cache writes in
//! place, exactly as a remote cache would.

use vstd::prelude::*;

use crate::error::Error;
use crate::user_service::{UserResponse, UserResponseView};

verus! {

/// A cached value: plain text (a refresh token), or a user detail record.
#[derive(Debug)]
pub enum CacheValue {
    Text(String),
    UserDetail(UserResponse),
}

/// Mathematical value of a cached value.
pub ghost enum CacheValueView {
    Text(Seq<char>),
    UserDetail(UserResponseView),
}

impl View for CacheValue {
    type V = CacheValueView;

    open spec fn view(&self) -> CacheValueView {
        match self {
            CacheValue::Text(s) => CacheValueView::Text(s@),
            CacheValue::UserDetail(u) => CacheValueView::UserDetail(u@),
        }
    }
}

/// One cache slot: key, value, and time-to-live in seconds.
struct CacheEntry {
    key: String,
    value: CacheValue,
    ttl: i64,
}

/// The key-value cache. Its view is the map of live entries.
pub struct CacheStore {
    default_ttl: i64,
    entries: Vec<CacheEntry>,
}

/// The map a slot list denotes; on duplicate keys the later slot wins, and
/// the store's invariant keeps keys unique.
spec fn entries_map(s: Seq<CacheEntry>) -> Map<Seq<char>, (CacheValueView, int)>
    decreases s.len(),
{
    if s.len() == 0 {
        Map::empty()
    } else {
        entries_map(s.drop_last()).insert(
            s.last().key@,
            (s.last().value@, s.last().ttl as int),
        )
    }
}

/// Unique keys over a slot list.
spec fn unique_keys(s: Seq<CacheEntry>) -> bool {
    forall|i: int, j: int| 0 <= i < j < s.len() ==> s[i].key@ != s[j].key@
}

/// The denoted map's domain is exactly the keys of the slots.
proof fn lemma_entries_map_domain(s: Seq<CacheEntry>)
    ensures
        forall|k: Seq<char>|
            #[trigger] entries_map(s).contains_key(k) <==> exists|i: int|
                0 <= i < s.len() && s[i].key@ == k,
    decreases s.len(),
{
    if s.len() > 0 {
        lemma_entries_map_domain(s.drop_last());
        assert forall|k: Seq<char>| #[trigger] entries_map(s).contains_key(k) implies exists|i: int|
            0 <= i < s.len() && s[i].key@ == k by {
            if k == s.last().key@ {
                assert(s[s.len() - 1].key@ == k);
            } else {
                assert(entries_map(s.drop_last()).contains_key(k));
                let i = choose|i: int| 0 <= i < s.drop_last().len() && s.drop_last()[i].key@ == k;
                assert(s.drop_last()[i] == s[i]);
                assert(s[i].key@ == k);
            }
        }
        assert forall|k: Seq<char>|
            (exists|i: int| 0 <= i < s.len() && s[i].key@ == k) implies #[trigger] entries_map(
            s,
        ).contains_key(k) by {
            let i = choose|i: int| 0 <= i < s.len() && s[i].key@ == k;
            if i < s.len() - 1 {
                assert(s.drop_last()[i].key@ == k);
                assert(entries_map(s.drop_last()).contains_key(k));
            } else {
                assert(s.last().key@ == k);
            }
        }
    }
}

/// With unique keys, the denoted map reads each slot back exactly.
proof fn lemma_entries_map_index(s: Seq<CacheEntry>, i: int)
    requires
        unique_keys(s),
        0 <= i < s.len(),
    ensures
        entries_map(s).contains_key(s[i].key@),
        entries_map(s)[s[i].key@] == (s[i].value@, s[i].ttl as int),
    decreases s.len(),
{
    if i == s.len() - 1 {
    } else {
        assert(unique_keys(s.drop_last()));
        assert(s.drop_last()[i] == s[i]);
        lemma_entries_map_index(s.drop_last(), i);
    }
}

/// Replacing the slot that holds a key denotes an insert at that key.
proof fn lemma_entries_map_update(s: Seq<CacheEntry>, i: int, e: CacheEntry)
    requires
        unique_keys(s),
        0 <= i < s.len(),
        s[i].key@ == e.key@,
    ensures
        entries_map(s.update(i, e)) =~= entries_map(s).insert(e.key@, (e.value@, e.ttl as int)),
    decreases s.len(),
{
    if i == s.len() - 1 {
        assert(s.update(i, e).drop_last() =~= s.drop_last());
        assert(s.update(i, e).last() == e);
    } else {
        assert(unique_keys(s.drop_last()));
        assert(s.drop_last()[i] == s[i]);
        lemma_entries_map_update(s.drop_last(), i, e);
        assert(s.update(i, e).drop_last() =~= s.drop_last().update(i, e));
        assert(s.update(i, e).last() == s.last());
        assert(s.last().key@ != e.key@);
    }
}

/// Removing the slot that holds a key denotes a remove of that key.
proof fn lemma_entries_map_remove(s: Seq<CacheEntry>, i: int)
    requires
        unique_keys(s),
        0 <= i < s.len(),
    ensures
        entries_map(s.remove(i)) =~= entries_map(s).remove(s[i].key@),
    decreases s.len(),
{
    lemma_entries_map_domain(s);
    lemma_entries_map_domain(s.remove(i));
    if i == s.len() - 1 {
        assert(s.remove(i) =~= s.drop_last());
        assert forall|k: Seq<char>| #[trigger] entries_map(s.drop_last()).contains_key(k)
            || entries_map(s).remove(s[i].key@).contains_key(k) implies entries_map(
            s.drop_last(),
        )[k] == entries_map(s).remove(s[i].key@)[k] && entries_map(s.drop_last()).contains_key(k)
            && entries_map(s).remove(s[i].key@).contains_key(k) by {
            lemma_entries_map_domain(s.drop_last());
            if entries_map(s.drop_last()).contains_key(k) {
                let m = choose|m: int| 0 <= m < s.drop_last().len() && s.drop_last()[m].key@ == k;
                assert(s[m].key@ == k);
                assert(k != s[i].key@);
                lemma_entries_map_index(s.drop_last(), m);
                lemma_entries_map_index(s, m);
            } else {
                let m = choose|m: int| 0 <= m < s.len() && s[m].key@ == k && k != s[i].key@;
                assert(m < s.len() - 1);
                assert(s.drop_last()[m].key@ == k);
            }
        }
    } else {
        assert(unique_keys(s.drop_last()));
        lemma_entries_map_remove(s.drop_last(), i);
        assert(s.remove(i).drop_last() =~= s.drop_last().remove(i));
        assert(s.remove(i).last() == s.last());
        assert(s.drop_last()[i] == s[i]);
        assert(s.last().key@ != s[i].key@);
    }
}

impl View for CacheStore {
    type V = Map<Seq<char>, (CacheValueView, int)>;

    closed spec fn view(&self) -> Map<Seq<char>, (CacheValueView, int)> {
        entries_map(self.entries@)
    }
}

impl CacheStore {
    /// Unique keys: the store never holds two slots for one key.
    pub closed spec fn wf(&self) -> bool {
        unique_keys(self.entries@)
    }

    /// The time-to-live `set` uses.
    pub closed spec fn spec_default_ttl(&self) -> int {
        self.default_ttl as int
    }

    /// An empty cache with the given default time-to-live in seconds.
    pub fn new(default_ttl: i64) -> (r: CacheStore)
        ensures
            r.wf(),
            r@ == Map::<Seq<char>, (CacheValueView, int)>::empty(),
            r.spec_default_ttl() == default_ttl as int,
    {
        let r = CacheStore { default_ttl, entries: Vec::new() };
        proof {
            assert(r@ =~= Map::<Seq<char>, (CacheValueView, int)>::empty());
        }
        r
    }

    /// The slot index holding the key, if any.
    fn position(&self, key: &String) -> (r: Option<usize>)
        ensures
            r matches Some(i) ==> i < self.entries@.len() && self.entries@[i as int].key@ == key@,
            r is None ==> forall|j: int|
                0 <= j < self.entries@.len() ==> self.entries@[j].key@ != key@,
    {
        let mut i: usize = 0;
        while i < self.entries.len()
            invariant
                i <= self.entries.len(),
                forall|j: int| 0 <= j < i ==> self.entries@[j].key@ != key@,
            decreases self.entries.len() - i,
        {
            if self.entries[i].key == *key {
                return Some(i);
            }
            i = i + 1;
        }
        None
    }

    /// Stores the value under the key with an explicit time-to-live,
    /// overwriting whatever the key held.
    pub fn setx(&mut self, key: String, value: CacheValue, ttl: i64) -> (r: Result<(), Error>)
        requires
            old(self).wf(),
        ensures
            final(self).wf(),
            r is Ok,
            final(self)@ == old(self)@.insert(key@, (value@, ttl as int)),
            final(self).spec_default_ttl() == old(self).spec_default_ttl(),
    {
        let ghost pre = self.entries@;
        match self.position(&key) {
            Some(i) => {
                let entry = CacheEntry { key, value, ttl };
                proof {
                    lemma_entries_map_update(pre, i as int, entry);
                }
                self.entries.set(i, entry);
                proof {
                    assert forall|a: int, b: int|
                        0 <= a < b < self.entries@.len() implies self.entries@[a].key@
                        != self.entries@[b].key@ by {
                        assert(pre[a].key@ != pre[b].key@);
                    }
                }
            },
            None => {
                self.entries.push(CacheEntry { key, value, ttl });
                proof {
                    assert(self.entries@.drop_last() =~= pre);
                    assert forall|a: int, b: int|
                        0 <= a < b < self.entries@.len() implies self.entries@[a].key@
                        != self.entries@[b].key@ by {
                        if b < self.entries@.len() - 1 {
                            assert(pre[a].key@ != pre[b].key@);
                        }
                    }
                }
            },
        }
        Ok(())
    }

    /// Stores the value under the key with the default time-to-live.
    pub fn set(&mut self, key: String, value: CacheValue) -> (r: Result<(), Error>)
        requires
            old(self).wf(),
        ensures
            final(self).wf(),
            r is Ok,
            final(self)@ == old(self)@.insert(
                key@,
                (value@, old(self).spec_default_ttl()),
            ),
            final(self).spec_default_ttl() == old(self).spec_default_ttl(),
    {
        let ttl = self.default_ttl;
        self.setx(key, value, ttl)
    }

    /// Reads the value under the key; absence is `None`, not an error.
    pub fn get(&self, key: &String) -> (r: Option<&CacheValue>)
        requires
            self.wf(),
        ensures
            r matches Some(v) ==> self@.contains_key(key@) && self@[key@].0 == v@,
            r is None ==> !self@.contains_key(key@),
    {
        proof {
            lemma_entries_map_domain(self.entries@);
        }
        match self.position(key) {
            Some(i) => {
                proof {
                    lemma_entries_map_index(self.entries@, i as int);
                }
                Some(&self.entries[i].value)
            },
            None => None,
        }
    }

    /// Reads the text under the key. Absence is `None`; a non-text value
    /// under the key — which the key discipline never produces — is a
    /// deserialization failure, surfaced as `Internal`.
    pub fn get_text(&self, key: &String) -> (r: Result<Option<String>, Error>)
        requires
            self.wf(),
        ensures
            r matches Ok(Some(s)) ==> self@.contains_key(key@) && self@[key@].0
                == CacheValueView::Text(s@),
            r matches Ok(None) ==> !self@.contains_key(key@),
            r is Err ==> self@.contains_key(key@) && !(self@[key@].0 is Text),
    {
        match self.get(key) {
            Some(value) => match value {
                CacheValue::Text(s) => Ok(Some(s.clone())),
                CacheValue::UserDetail(_) => Err(
                    Error::Internal(not_text_message()),
                ),
            },
            None => Ok(None),
        }
    }

    /// Removes whatever the key holds; removing an absent key is not an
    /// error.
    pub fn del(&mut self, key: String) -> (r: Result<(), Error>)
        requires
            old(self).wf(),
        ensures
            final(self).wf(),
            r is Ok,
            final(self)@ == old(self)@.remove(key@),
            final(self).spec_default_ttl() == old(self).spec_default_ttl(),
    {
        let ghost pre = self.entries@;
        match self.position(&key) {
            Some(i) => {
                proof {
                    lemma_entries_map_remove(pre, i as int);
                }
                self.entries.remove(i);
                proof {
                    assert forall|a: int, b: int|
                        0 <= a < b < self.entries@.len() implies self.entries@[a].key@
                        != self.entries@[b].key@ by {
                        let a0: int = if a < i as int { a } else { a + 1 };
                        let b0: int = if b < i as int { b } else { b + 1 };
                        assert(pre[a0].key@ != pre[b0].key@);
                    }
                }
            },
            None => {
                proof {
                    lemma_entries_map_domain(pre);
                    assert(!old(self)@.contains_key(key@));
                    assert(final(self)@ =~= old(self)@.remove(key@));
                }
            },
        }
        Ok(())
    }
}

/// The message carried when a cached value cannot be read back as text.
fn not_text_message() -> (r: String)
    ensures
        r@ == "cached value is not text"@,
{
    let r: String = "cached value is not text".to_string();
    r
}

} // verus!
