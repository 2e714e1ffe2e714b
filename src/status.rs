//! Status keys: the cache of the last result of each status command, and the
//! per-slot poll timer that decides when to check and which icon to show.
use vstd::prelude::*;

verus! {

/// Value recorded for command `k`, looking from entry `i` on.
pub open spec fn lookup_from(entries: Seq<(String, bool)>, k: Seq<char>, i: int) -> Option<bool>
    decreases entries.len() - i,
{
    if i < 0 || i >= entries.len() {
        None
    } else if entries[i].0@ == k {
        Some(entries[i].1)
    } else {
        lookup_from(entries, k, i + 1)
    }
}

proof fn lemma_lookup_push(s: Seq<(String, bool)>, e: (String, bool), q: Seq<char>, j: int)
    requires
        0 <= j <= s.len(),
    ensures
        lookup_from(s.push(e), q, j) == if lookup_from(s, q, j) is Some {
            lookup_from(s, q, j)
        } else if e.0@ == q {
            Some(e.1)
        } else {
            None::<bool>
        },
    decreases s.len() - j,
{
    let t = s.push(e);
    if j < s.len() {
        assert(t[j] == s[j]);
        lemma_lookup_push(s, e, q, j + 1);
    } else {
        assert(t[j] == e);
        assert(lookup_from(t, q, j + 1) is None);
    }
}

proof fn lemma_lookup_same_tail(s: Seq<(String, bool)>, t: Seq<(String, bool)>, q: Seq<char>, j: int)
    requires
        0 <= j,
        s.len() == t.len(),
        forall|m: int| j <= m < s.len() ==> s[m] == t[m],
    ensures
        lookup_from(s, q, j) == lookup_from(t, q, j),
    decreases s.len() - j,
{
    if j < s.len() {
        lemma_lookup_same_tail(s, t, q, j + 1);
    }
}

proof fn lemma_lookup_update(
    s: Seq<(String, bool)>,
    i: int,
    e: (String, bool),
    q: Seq<char>,
    j: int,
)
    requires
        0 <= j <= i < s.len(),
        s[i].0@ == e.0@,
        forall|m: int| j <= m < i ==> s[m].0@ != e.0@,
    ensures
        lookup_from(s.update(i, e), q, j) == if q == e.0@ {
            Some(e.1)
        } else {
            lookup_from(s, q, j)
        },
    decreases i - j,
{
    let t = s.update(i, e);
    if j < i {
        lemma_lookup_update(s, i, e, q, j + 1);
    } else {
        lemma_lookup_same_tail(s, t, q, j + 1);
    }
}

/// Last known result of each status command, by the command's text. It
/// outlives page changes and reloads, so a key shows its last state at once.
pub struct StatusCache {
    entries: Vec<(String, bool)>,
}

impl StatusCache {
    /// Result recorded for command `k`, if any.
    pub closed spec fn lookup(&self, k: Seq<char>) -> Option<bool> {
        lookup_from(self.entries@, k, 0)
    }

    pub fn new() -> (r: Self)
        ensures
            forall|k: Seq<char>| r.lookup(k) is None,
    {
        StatusCache { entries: Vec::new() }
    }

    pub fn get(&self, command: &str) -> (r: Option<bool>)
        ensures
            r == self.lookup(command@),
    {
        let key = String::from_str(command);
        let mut i: usize = 0;
        while i < self.entries.len()
            invariant
                key@ == command@,
                i <= self.entries@.len(),
                lookup_from(self.entries@, command@, 0) == lookup_from(
                    self.entries@,
                    command@,
                    i as int,
                ),
            decreases self.entries@.len() - i,
        {
            if self.entries[i].0 == key {
                return Some(self.entries[i].1);
            }
            i = i + 1;
        }
        None
    }

    /// Records `value` as the last result of `command`.
    pub fn insert(&mut self, command: String, value: bool)
        ensures
            forall|k: Seq<char>|
                #![trigger final(self).lookup(k)]
                final(self).lookup(k) == if k == command@ {
                    Some(value)
                } else {
                    old(self).lookup(k)
                },
    {
        let mut i: usize = 0;
        while i < self.entries.len()
            invariant
                i <= self.entries@.len(),
                self.entries@ == old(self).entries@,
                forall|m: int| 0 <= m < i ==> self.entries@[m].0@ != command@,
            decreases self.entries@.len() - i,
        {
            if self.entries[i].0 == command {
                let ghost s = self.entries@;
                let ghost idx = i as int;
                let ghost e = (command, value);
                self.entries.set(i, (command, value));
                proof {
                    assert forall|k: Seq<char>|
                        #![trigger lookup_from(self.entries@, k, 0)]
                        lookup_from(self.entries@, k, 0) == if k == e.0@ {
                            Some(value)
                        } else {
                            lookup_from(s, k, 0)
                        } by {
                        lemma_lookup_update(s, idx, e, k, 0);
                    }
                }
                return;
            }
            i = i + 1;
        }
        let ghost s = self.entries@;
        let ghost e = (command, value);
        self.entries.push((command, value));
        proof {
            assert forall|k: Seq<char>|
                #![trigger lookup_from(self.entries@, k, 0)]
                lookup_from(self.entries@, k, 0) == if k == e.0@ {
                    Some(value)
                } else {
                    lookup_from(s, k, 0)
                } by {
                lemma_lookup_push(s, e, k, 0);
                if lookup_from(s, k, 0) is Some {
                    lemma_lookup_found(s, k, 0);
                }
            }
        }
    }
}

proof fn lemma_lookup_found(s: Seq<(String, bool)>, k: Seq<char>, j: int)
    requires
        0 <= j,
        lookup_from(s, k, j) is Some,
    ensures
        exists|m: int| j <= m < s.len() && s[m].0@ == k,
    decreases s.len() - j,
{
    if j < s.len() && s[j].0@ != k {
        lemma_lookup_found(s, k, j + 1);
    }
}

/// Poll state of one status key on the current page. Times are milliseconds
/// on a monotonic clock.
pub struct StatusKeyState {
    pub command: String,
    pub icon_on: String,
    pub icon_off: String,
    pub clock_background: Option<String>,
    pub check_interval_ms: u64,
    pub next_check_at: u64,
    pub current_on: Option<bool>,
}

/// `a + b`, capped at the largest `u64`.
pub open spec fn add_capped(a: u64, b: u64) -> u64 {
    if a + b > u64::MAX {
        u64::MAX
    } else {
        (a + b) as u64
    }
}

impl StatusKeyState {
    /// Whether the command is due to run at `now`.
    pub fn is_due(&self, now: u64) -> (r: bool)
        ensures
            r == (now >= self.next_check_at),
    {
        now >= self.next_check_at
    }

    /// Takes the outcome of a check run at `now` (`None` when the command
    /// could not be run). A new result is recorded here and in `cache`; the
    /// next check is scheduled one interval later whatever happened. Returns
    /// the state whose icon must now be shown, when the state changed.
    pub fn apply_check(&mut self, now: u64, outcome: Option<bool>, cache: &mut StatusCache) -> (r:
        Option<bool>)
        ensures
            final(self).next_check_at == add_capped(now, old(self).check_interval_ms),
            final(self).command == old(self).command,
            final(self).icon_on == old(self).icon_on,
            final(self).icon_off == old(self).icon_off,
            final(self).clock_background == old(self).clock_background,
            final(self).check_interval_ms == old(self).check_interval_ms,
            final(self).current_on == match outcome {
                Some(v) => Some(v),
                None => old(self).current_on,
            },
            r == match outcome {
                Some(v) => if old(self).current_on == Some(v) {
                    None
                } else {
                    Some(v)
                },
                None => None,
            },
            forall|k: Seq<char>|
                #![trigger final(cache).lookup(k)]
                final(cache).lookup(k) == match outcome {
                    Some(v) => if k == old(self).command@ {
                        Some(v)
                    } else {
                        old(cache).lookup(k)
                    },
                    None => old(cache).lookup(k),
                },
    {
        let changed = match outcome {
            Some(v) => {
                let changed = match self.current_on {
                    Some(c) => c != v,
                    None => true,
                };
                cache.insert(self.command.clone(), v);
                self.current_on = Some(v);
                if changed {
                    Some(v)
                } else {
                    None
                }
            },
            None => None,
        };
        self.next_check_at = now.saturating_add(self.check_interval_ms);
        changed
    }

    /// The icon for the given state.
    pub fn icon_for(&self, on: bool) -> (r: &String)
        ensures
            r == if on {
                &self.icon_on
            } else {
                &self.icon_off
            },
    {
        if on {
            &self.icon_on
        } else {
            &self.icon_off
        }
    }
}

} // verus!
