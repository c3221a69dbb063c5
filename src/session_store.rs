use vstd::prelude::*;
use crate::lock_policy::{add_secs, spec_add_secs};

verus! {

/// One stored value and the time at which it expires.
pub struct StoreEntry {
    pub key: String,
    pub value: String,
    pub expires_at: i64,
}

/// The key-value map that a list of entries describes: a later entry for a
/// key replaces an earlier one.
pub open spec fn entries_map(entries: Seq<StoreEntry>) -> Map<Seq<char>, (Seq<char>, i64)>
    decreases entries.len(),
{
    if entries.len() == 0 {
        Map::empty()
    } else {
        entries_map(entries.drop_last()).insert(
            entries.last().key@,
            (entries.last().value@, entries.last().expires_at),
        )
    }
}

/// Whether `m` holds a value for `key` that has not expired at `now`.
pub open spec fn is_live(m: Map<Seq<char>, (Seq<char>, i64)>, key: Seq<char>, now: i64) -> bool {
    m.contains_key(key) && now < m[key].1
}

/// A string-keyed store whose values expire: it holds sessions and cached
/// profiles.
pub struct SessionStore {
    entries: Vec<StoreEntry>,
}

impl View for SessionStore {
    type V = Map<Seq<char>, (Seq<char>, i64)>;

    closed spec fn view(&self) -> Map<Seq<char>, (Seq<char>, i64)> {
        entries_map(self.entries@)
    }
}

proof fn lemma_take_push(s: Seq<StoreEntry>, i: int)
    requires
        0 <= i < s.len(),
    ensures
        s.take(i + 1).drop_last() == s.take(i),
        s.take(i + 1).last() == s[i],
{
    assert(s.take(i + 1).drop_last() =~= s.take(i));
}

impl SessionStore {
    /// An empty store.
    pub fn new() -> (r: SessionStore)
        ensures
            r@ == Map::<Seq<char>, (Seq<char>, i64)>::empty(),
    {
        SessionStore { entries: Vec::new() }
    }

    /// The value under `key` where it has not expired at `now`.
    pub fn get(&self, key: &str, now: i64) -> (r: Option<String>)
        ensures
            match r {
                Some(v) => is_live(self@, key@, now) && v@ == self@[key@].0,
                None => !is_live(self@, key@, now),
            },
    {
        let k = String::from_str(key);
        let n = self.entries.len();
        let mut found: Option<usize> = None;
        let mut i: usize = 0;
        while i < n
            invariant
                n == self.entries@.len(),
                i <= n,
                k@ == key@,
                match found {
                    Some(j) => j < i && entries_map(self.entries@.take(i as int)).contains_key(key@)
                        && entries_map(self.entries@.take(i as int))[key@] == (
                        self.entries@[j as int].value@,
                        self.entries@[j as int].expires_at,
                    ),
                    None => !entries_map(self.entries@.take(i as int)).contains_key(key@),
                },
            decreases n - i,
        {
            proof {
                lemma_take_push(self.entries@, i as int);
            }
            if self.entries[i].key == k {
                found = Some(i);
            }
            i = i + 1;
        }
        proof {
            assert(self.entries@.take(n as int) =~= self.entries@);
        }
        match found {
            Some(j) => {
                if now < self.entries[j].expires_at {
                    Some(self.entries[j].value.clone())
                } else {
                    None
                }
            },
            None => None,
        }
    }

    /// Stores `value` under `key`, replacing what was there, to expire
    /// `ttl_secs` seconds after `now`.
    pub fn set_with_expiry(&mut self, key: &str, value: &str, ttl_secs: i64, now: i64)
        requires
            ttl_secs >= 0,
        ensures
            final(self)@ == old(self)@.insert(key@, (value@, spec_add_secs(now, ttl_secs))),
    {
        self.remove_key(key);
        let entry = StoreEntry {
            key: String::from_str(key),
            value: String::from_str(value),
            expires_at: add_secs(now, ttl_secs),
        };
        let ghost before = self.entries@;
        self.entries.push(entry);
        proof {
            assert(self.entries@.drop_last() =~= before);
            assert(entries_map(before) == old(self)@.remove(key@));
            assert(final(self)@ =~= old(self)@.insert(key@, (value@, spec_add_secs(now, ttl_secs))));
        }
    }

    /// Removes `key`; tells whether it held a value that had not expired at
    /// `now`. Removing an absent key is no error.
    pub fn delete(&mut self, key: &str, now: i64) -> (r: bool)
        ensures
            r == is_live(old(self)@, key@, now),
            final(self)@ == old(self)@.remove(key@),
    {
        let existed = self.get(key, now).is_some();
        self.remove_key(key);
        existed
    }

    fn remove_key(&mut self, key: &str)
        ensures
            final(self)@ == old(self)@.remove(key@),
    {
        let k = String::from_str(key);
        let n = self.entries.len();
        let mut kept: Vec<StoreEntry> = Vec::new();
        let mut i: usize = 0;
        while i < n
            invariant
                n == self.entries@.len(),
                i <= n,
                k@ == key@,
                self@ == old(self)@,
                entries_map(kept@) == entries_map(self.entries@.take(i as int)).remove(key@),
            decreases n - i,
        {
            proof {
                lemma_take_push(self.entries@, i as int);
            }
            let ghost prev = kept@;
            if !(self.entries[i].key == k) {
                let e = StoreEntry {
                    key: self.entries[i].key.clone(),
                    value: self.entries[i].value.clone(),
                    expires_at: self.entries[i].expires_at,
                };
                kept.push(e);
                proof {
                    assert(kept@.drop_last() =~= prev);
                    assert(entries_map(kept@) =~= entries_map(
                        self.entries@.take(i + 1),
                    ).remove(key@));
                }
            } else {
                proof {
                    assert(entries_map(kept@) =~= entries_map(
                        self.entries@.take(i + 1),
                    ).remove(key@));
                }
            }
            i = i + 1;
        }
        proof {
            assert(self.entries@.take(n as int) =~= self.entries@);
        }
        self.entries = kept;
    }
}

} // verus!
