//! The record of when each alarm last fired, keyed by alarm subject and
//! device, and the debounce rule read from it.

use vstd::prelude::*;
use crate::alarm::AlarmSubject;
use crate::clock::{UtcInstant, whole_seconds_between, elapsed_whole_seconds};

verus! {

/// The key under which an alarm's last firing is remembered.
pub type AlarmKey = (AlarmSubject, Seq<char>);

/// Whether an alarm whose key last fired at `last` may fire again at `now`:
/// always when it never fired, otherwise once `interval` whole seconds have passed.
pub open spec fn may_fire(last: Option<UtcInstant>, interval: i64, now: UtcInstant) -> bool {
    match last {
        Some(t) => !(whole_seconds_between(now, t) < interval),
        None => true,
    }
}

/// One remembered firing.
#[derive(Debug, Clone)]
pub struct DebounceEntry {
    pub subject: AlarmSubject,
    pub device_id: String,
    pub at: UtcInstant,
}

pub open spec fn entry_key(e: DebounceEntry) -> AlarmKey {
    (e.subject, e.device_id@)
}

pub open spec fn is_first_entry(s: Seq<DebounceEntry>, k: AlarmKey, i: int) -> bool {
    0 <= i < s.len() && entry_key(s[i]) == k && forall|j: int|
        0 <= j < i ==> entry_key(#[trigger] s[j]) != k
}

/// The firing time recorded for `k`: that of the first entry with key `k`.
pub open spec fn lookup(s: Seq<DebounceEntry>, k: AlarmKey) -> Option<UtcInstant> {
    if exists|i: int| is_first_entry(s, k, i) {
        Some(s[choose|i: int| is_first_entry(s, k, i)].at)
    } else {
        None
    }
}

proof fn lemma_lookup_at(s: Seq<DebounceEntry>, k: AlarmKey, i: int)
    requires
        is_first_entry(s, k, i),
    ensures
        lookup(s, k) == Some(s[i].at),
{
    let w = choose|j: int| is_first_entry(s, k, j);
    if w < i {
        assert(entry_key(s[w]) != k);
    } else if w > i {
        assert(entry_key(s[i]) != k);
    }
}

proof fn lemma_lookup_none(s: Seq<DebounceEntry>, k: AlarmKey)
    requires
        forall|j: int| 0 <= j < s.len() ==> entry_key(#[trigger] s[j]) != k,
    ensures
        lookup(s, k) is None,
{
}

/// Two sequences with the same keys in the same places that agree on every
/// entry but `i`, which has key `k`.
proof fn lemma_lookup_same_keys(
    s: Seq<DebounceEntry>,
    t: Seq<DebounceEntry>,
    i: int,
    k: AlarmKey,
    other: AlarmKey,
)
    requires
        s.len() == t.len(),
        forall|j: int| 0 <= j < s.len() ==> entry_key(#[trigger] s[j]) == entry_key(t[j]),
        forall|j: int| 0 <= j < s.len() && j != i ==> #[trigger] s[j] == t[j],
        0 <= i < s.len(),
        entry_key(s[i]) == k,
        other != k,
    ensures
        lookup(t, other) == lookup(s, other),
{
    if exists|m: int| is_first_entry(s, other, m) {
        let m = choose|m: int| is_first_entry(s, other, m);
        assert forall|j: int| 0 <= j < m implies entry_key(#[trigger] t[j]) != other by {
            assert(entry_key(s[j]) != other);
        }
        assert(is_first_entry(t, other, m));
        lemma_lookup_at(s, other, m);
        lemma_lookup_at(t, other, m);
    } else {
        if exists|m: int| is_first_entry(t, other, m) {
            let m = choose|m: int| is_first_entry(t, other, m);
            assert forall|j: int| 0 <= j < m implies entry_key(#[trigger] s[j]) != other by {
                assert(entry_key(t[j]) != other);
            }
            assert(is_first_entry(s, other, m));
        }
    }
}

/// When each alarm key last fired.
#[derive(Debug)]
pub struct DebounceRegistry {
    entries: Vec<DebounceEntry>,
}

impl View for DebounceRegistry {
    type V = Map<AlarmKey, UtcInstant>;

    closed spec fn view(&self) -> Map<AlarmKey, UtcInstant> {
        Map::new(
            |k: AlarmKey| lookup(self.entries@, k) is Some,
            |k: AlarmKey| lookup(self.entries@, k)->0,
        )
    }
}

impl DebounceRegistry {
    /// A registry in which nothing has fired.
    pub fn new() -> (r: Self)
        ensures
            r@ == Map::<AlarmKey, UtcInstant>::empty(),
    {
        let r = DebounceRegistry { entries: Vec::new() };
        assert(r@ =~= Map::<AlarmKey, UtcInstant>::empty());
        r
    }

    fn find(&self, subject: AlarmSubject, device_id: &String) -> (r: Option<usize>)
        ensures
            match r {
                Some(i) => is_first_entry(self.entries@, (subject, device_id@), i as int),
                None => forall|j: int|
                    0 <= j < self.entries@.len() ==> entry_key(#[trigger] self.entries@[j]) != (
                        subject,
                        device_id@,
                    ),
            },
    {
        let mut i: usize = 0;
        while i < self.entries.len()
            invariant
                i <= self.entries@.len(),
                forall|j: int|
                    0 <= j < i ==> entry_key(#[trigger] self.entries@[j]) != (subject, device_id@),
            decreases self.entries@.len() - i,
        {
            let e = &self.entries[i];
            if e.subject == subject && e.device_id == *device_id {
                return Some(i);
            }
            i = i + 1;
        }
        None
    }

    /// When the alarm `subject` of `device_id` last fired.
    pub fn last_fired(&self, subject: AlarmSubject, device_id: &String) -> (r: Option<
        UtcInstant,
    >)
        ensures
            r == self@.get((subject, device_id@)),
    {
        match self.find(subject, device_id) {
            Some(i) => {
                proof {
                    lemma_lookup_at(self.entries@, (subject, device_id@), i as int);
                }
                Some(self.entries[i].at)
            },
            None => {
                proof {
                    lemma_lookup_none(self.entries@, (subject, device_id@));
                }
                None
            },
        }
    }

    /// Whether the alarm `subject` of `device_id` may fire at `now`: it never
    /// fired, or at least `interval` whole seconds passed since it last did.
    pub fn should_trigger(
        &self,
        subject: AlarmSubject,
        device_id: &String,
        interval: i64,
        now: UtcInstant,
    ) -> (r: bool)
        ensures
            r == may_fire(self@.get((subject, device_id@)), interval, now),
    {
        match self.last_fired(subject, device_id) {
            Some(t) => !(elapsed_whole_seconds(now, t) < interval as i128),
            None => true,
        }
    }

    /// Records that the alarm `subject` of `device_id` fired at `at`.
    pub fn mark_triggered(&mut self, subject: AlarmSubject, device_id: &String, at: UtcInstant)
        ensures
            final(self)@ == old(self)@.insert((subject, device_id@), at),
    {
        let ghost k = (subject, device_id@);
        let ghost old_entries = self.entries@;
        match self.find(subject, device_id) {
            Some(i) => {
                let e = DebounceEntry {
                    subject: self.entries[i].subject,
                    device_id: self.entries[i].device_id.clone(),
                    at,
                };
                self.entries.set(i, e);
                proof {
                    let s = old_entries;
                    let t = self.entries@;
                    assert forall|j: int| 0 <= j < t.len() implies entry_key(#[trigger] t[j])
                        == entry_key(s[j]) by {}
                    assert forall|j: int| 0 <= j < s.len() && j != i implies #[trigger] s[j]
                        == t[j] by {}
                    assert forall|j: int| 0 <= j < i implies entry_key(#[trigger] t[j]) != k by {
                        assert(entry_key(s[j]) != k);
                    }
                    assert(is_first_entry(t, k, i as int));
                    lemma_lookup_at(t, k, i as int);
                    assert forall|o: AlarmKey| o != k implies lookup(t, o) == lookup(s, o) by {
                        lemma_lookup_same_keys(s, t, i as int, k, o);
                    }
                    assert(self@ =~= old(self)@.insert(k, at));
                }
            },
            None => {
                let e = DebounceEntry { subject, device_id: device_id.clone(), at };
                self.entries.push(e);
                proof {
                    let s = old_entries;
                    let t = self.entries@;
                    let n = s.len() as int;
                    assert forall|j: int| 0 <= j < n implies entry_key(#[trigger] t[j]) != k by {
                        assert(t[j] == s[j]);
                    }
                    assert(is_first_entry(t, k, n));
                    lemma_lookup_at(t, k, n);
                    assert forall|o: AlarmKey| o != k implies lookup(t, o) == lookup(s, o) by {
                        if exists|m: int| is_first_entry(s, o, m) {
                            let m = choose|m: int| is_first_entry(s, o, m);
                            assert forall|j: int| 0 <= j < m implies entry_key(#[trigger] t[j])
                                != o by {
                                assert(t[j] == s[j]);
                            }
                            assert(is_first_entry(t, o, m));
                            lemma_lookup_at(s, o, m);
                            lemma_lookup_at(t, o, m);
                        } else if exists|m: int| is_first_entry(t, o, m) {
                            let m = choose|m: int| is_first_entry(t, o, m);
                            assert(m != n);
                            assert forall|j: int| 0 <= j < m implies entry_key(#[trigger] s[j])
                                != o by {
                                assert(t[j] == s[j]);
                            }
                            assert(t[m] == s[m]);
                            assert(is_first_entry(s, o, m));
                        }
                    }
                    assert(self@ =~= old(self)@.insert(k, at));
                }
            },
        }
    }
}

} // verus!
