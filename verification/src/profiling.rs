//! Coarse-grained phase timing. The caller supplies the clock readings, so
//! the collector itself is pure bookkeeping: `start` records a phase's
//! starting instant, `finish` adds the elapsed span to the phase's running
//! total.

use vstd::prelude::*;

verus! {

/// The named phases of one simulation step.
#[derive(Clone, Copy, Debug, PartialEq, Eq, Structural)]
pub enum Phase {
    Step,
    StepVorticity,
    AdvectVortons,
}

/// Position of the first record for `key`, `-1` when absent.
pub open spec fn spec_assoc_find(s: Seq<(Phase, u64)>, key: Phase) -> int
    decreases s.len(),
{
    if s.len() == 0 {
        -1
    } else if s[0].0 == key {
        0
    } else {
        let r = spec_assoc_find(s.skip(1), key);
        if r < 0 {
            -1
        } else {
            r + 1
        }
    }
}

/// The value recorded for `key`, `None` when absent.
pub open spec fn spec_assoc_get(s: Seq<(Phase, u64)>, key: Phase) -> Option<u64> {
    let idx = spec_assoc_find(s, key);
    if idx < 0 {
        None
    } else {
        Some(s[idx].1)
    }
}

/// The records with `key` now bound to `val`: overwritten in place, or
/// appended when absent.
pub open spec fn spec_assoc_set(s: Seq<(Phase, u64)>, key: Phase, val: u64) -> Seq<(Phase, u64)> {
    let idx = spec_assoc_find(s, key);
    if idx < 0 {
        s.push((key, val))
    } else {
        s.update(idx, (key, val))
    }
}

/// The records without `key`.
pub open spec fn spec_assoc_remove(s: Seq<(Phase, u64)>, key: Phase) -> Seq<(Phase, u64)> {
    let idx = spec_assoc_find(s, key);
    if idx < 0 {
        s
    } else {
        s.remove(idx)
    }
}

/// Milliseconds clamped to the largest representable value.
pub open spec fn spec_sat_u64(x: int) -> int {
    if x > u64::MAX {
        u64::MAX as int
    } else {
        x
    }
}

/// The span `finish` adds for a phase: the time since its recorded start,
/// zero when it was never started or the clock went backward.
pub open spec fn spec_elapsed(started: Option<u64>, now: u64) -> int {
    match started {
        Some(t) => if now >= t {
            now - t
        } else {
            0
        },
        None => 0,
    }
}

/// What `spec_assoc_find` finds is in range and carries the key.
proof fn lemma_assoc_find_props(s: Seq<(Phase, u64)>, key: Phase)
    ensures
        -1 <= spec_assoc_find(s, key) < s.len(),
        spec_assoc_find(s, key) >= 0 ==> s[spec_assoc_find(s, key)].0 == key,
    decreases s.len(),
{
    if s.len() == 0 {
    } else if s[0].0 == key {
    } else {
        lemma_assoc_find_props(s.skip(1), key);
        let r = spec_assoc_find(s.skip(1), key);
        if r >= 0 {
            assert(s.skip(1)[r] == s[r + 1]);
        }
    }
}

/// A record that matches at `n`, with no match before it, is the one found.
proof fn lemma_assoc_find_first(s: Seq<(Phase, u64)>, key: Phase, n: int)
    requires
        0 <= n < s.len(),
        s[n].0 == key,
        forall|l: int| 0 <= l < n ==> (#[trigger] s[l]).0 != key,
    ensures
        spec_assoc_find(s, key) == n,
    decreases s.len(),
{
    if n == 0 {
    } else {
        assert(s[0].0 != key);
        assert(s.skip(1)[n - 1] == s[n]);
        assert forall|l: int| 0 <= l < n - 1 implies (#[trigger] s.skip(1)[l]).0 != key by {
            assert(s.skip(1)[l] == s[l + 1]);
        }
        lemma_assoc_find_first(s.skip(1), key, n - 1);
    }
}

/// With no match anywhere, nothing is found.
proof fn lemma_assoc_find_none(s: Seq<(Phase, u64)>, key: Phase)
    requires
        forall|l: int| 0 <= l < s.len() ==> (#[trigger] s[l]).0 != key,
    ensures
        spec_assoc_find(s, key) == -1,
    decreases s.len(),
{
    if s.len() == 0 {
    } else {
        assert(s[0].0 != key);
        assert forall|l: int| 0 <= l < s.skip(1).len() implies (#[trigger] s.skip(1)[l]).0
            != key by {
            assert(s.skip(1)[l] == s[l + 1]);
        }
        lemma_assoc_find_none(s.skip(1), key);
    }
}

/// Phase timing collector: the phases currently running with their starting
/// instants, and the accumulated span of every finished phase.
pub struct Profiling {
    pub current: Vec<(Phase, u64)>,
    pub cumulative: Vec<(Phase, u64)>,
}

/// Position of the first record for `key`, or `records.len()` when absent.
fn assoc_position(records: &Vec<(Phase, u64)>, key: Phase) -> (r: usize)
    ensures
        ({
            let idx = spec_assoc_find(records@, key);
            &&& r <= records@.len()
            &&& (idx < 0 <==> r == records@.len())
            &&& (idx >= 0 ==> r == idx)
        }),
{
    let mut n: usize = 0;
    while n < records.len()
        invariant
            0 <= n <= records@.len(),
            forall|l: int| 0 <= l < n ==> (#[trigger] records@[l]).0 != key,
        decreases records.len() - n,
    {
        if records[n].0 == key {
            proof {
                lemma_assoc_find_first(records@, key, n as int);
            }
            return n;
        }
        n = n + 1;
    }
    proof {
        lemma_assoc_find_none(records@, key);
    }
    n
}

/// Bind `key` to `val` in `records`: overwrite in place, or append.
fn assoc_set(records: &mut Vec<(Phase, u64)>, key: Phase, val: u64)
    ensures
        final(records)@ == spec_assoc_set(old(records)@, key, val),
{
    proof {
        lemma_assoc_find_props(records@, key);
    }
    let pos = assoc_position(records, key);
    if pos < records.len() {
        records[pos] = (key, val);
    } else {
        records.push((key, val));
    }
}

impl Profiling {
    /// A collector with nothing running and nothing accumulated.
    pub fn new() -> (r: Profiling)
        ensures
            r.current@ == Seq::<(Phase, u64)>::empty(),
            r.cumulative@ == Seq::<(Phase, u64)>::empty(),
    {
        Profiling { current: Vec::new(), cumulative: Vec::new() }
    }

    /// Record that `key` starts at instant `now` (milliseconds on the
    /// caller's clock).
    pub fn start(&mut self, key: Phase, now: u64)
        ensures
            final(self).current@ == spec_assoc_set(old(self).current@, key, now),
            final(self).cumulative == old(self).cumulative,
    {
        assoc_set(&mut self.current, key, now);
    }

    /// Record that `key` finished at instant `now`: the span since its
    /// start joins the phase's running total (a phase that was never
    /// started contributes zero), and the phase stops running.
    pub fn finish(&mut self, key: Phase, now: u64)
        ensures
            ({
                let prev = match spec_assoc_get(old(self).cumulative@, key) {
                    Some(d) => d as int,
                    None => 0,
                };
                let elapsed = spec_elapsed(spec_assoc_get(old(self).current@, key), now);
                &&& final(self).cumulative@ == spec_assoc_remove(old(self).cumulative@,
                    key).push((key, spec_sat_u64(prev + elapsed) as u64))
                &&& final(self).current@ == spec_assoc_remove(old(self).current@, key)
            }),
    {
        proof {
            lemma_assoc_find_props(self.cumulative@, key);
            lemma_assoc_find_props(self.current@, key);
        }
        let cpos = assoc_position(&self.cumulative, key);
        let prev: u64 = if cpos < self.cumulative.len() {
            let d = self.cumulative[cpos].1;
            self.cumulative.remove(cpos);
            d
        } else {
            0
        };
        let spos = assoc_position(&self.current, key);
        let elapsed: u64 = if spos < self.current.len() {
            let t = self.current[spos].1;
            self.current.remove(spos);
            if now >= t {
                now - t
            } else {
                0
            }
        } else {
            0
        };
        let total: u64 = if prev > u64::MAX - elapsed {
            u64::MAX
        } else {
            prev + elapsed
        };
        self.cumulative.push((key, total));
    }

    /// The accumulated span of `key`, `None` when the phase never finished.
    pub fn get(&self, key: Phase) -> (r: Option<u64>)
        ensures
            r == spec_assoc_get(self.cumulative@, key),
    {
        proof {
            lemma_assoc_find_props(self.cumulative@, key);
        }
        let pos = assoc_position(&self.cumulative, key);
        if pos < self.cumulative.len() {
            Some(self.cumulative[pos].1)
        } else {
            None
        }
    }
}

} // verus!
