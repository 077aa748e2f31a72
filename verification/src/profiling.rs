//! Aggregation of per-target performance measurements: running call
//! counts, totals and averages, and the descending ordering used when the
//! collected records are written out.

use vstd::prelude::*;

use crate::timing::{dur_add_sat, Duration};

verus! {

broadcast use vstd::seq_lib::group_to_multiset_ensures;

/// The running measurements for one profiling target.
#[derive(Debug, Copy, Clone, PartialEq, Eq, PartialOrd, Ord, Structural)]
pub struct Record {
    pub calls: u32,
    pub total_duration: Duration,
    pub avg_duration: Duration,
}

/// A record after one more observation of `d`: the call count goes up by
/// one (saturating), the total grows by `d` (saturating), and the average
/// is the total divided by the count, truncated.
pub open spec fn updated_record(r: Record, d: Duration) -> Record {
    let calls = if r.calls == u32::MAX {
        r.calls
    } else {
        (r.calls + 1) as u32
    };
    let total = dur_add_sat(r.total_duration.nanos, d.nanos);
    Record {
        calls,
        total_duration: Duration { nanos: total },
        avg_duration: Duration { nanos: (total as int / calls as int) as u64 },
    }
}

/// The record of a target observed for the first time, with duration `d`.
pub open spec fn fresh_record(d: Duration) -> Record {
    Record { calls: 1u32, total_duration: d, avg_duration: d }
}

/// Whether some entry carries a target whose characters are `k`.
pub open spec fn has_key(s: Seq<(&'static str, Record)>, k: Seq<char>) -> bool {
    exists|i: int| 0 <= i < s.len() && #[trigger] s[i].0@ == k
}

/// The index of the entry carrying target `k`.
pub open spec fn key_index(s: Seq<(&'static str, Record)>, k: Seq<char>) -> int {
    choose|i: int| 0 <= i < s.len() && #[trigger] s[i].0@ == k
}

/// Entries are well formed when no target appears twice and every record
/// has been observed at least once.
pub open spec fn entries_wf(s: Seq<(&'static str, Record)>) -> bool {
    &&& forall|i: int, j: int|
        0 <= i < s.len() && 0 <= j < s.len() && i != j ==> #[trigger] s[i].0@ != #[trigger] s[j].0@
    &&& forall|i: int| 0 <= i < s.len() ==> #[trigger] s[i].1.calls >= 1
}

/// Entries are ordered by descending total duration.
pub open spec fn sorted_desc(s: Seq<(&'static str, Record)>) -> bool {
    forall|i: int, j: int|
        0 <= i <= j < s.len() ==> #[trigger] s[i].1.total_duration.nanos
            >= #[trigger] s[j].1.total_duration.nanos
}

/// Collects per-target measurements, one record for each distinct target.
pub struct ProfilingManager {
    entries: Vec<(&'static str, Record)>,
}

impl View for ProfilingManager {
    type V = Seq<(&'static str, Record)>;

    closed spec fn view(&self) -> Seq<(&'static str, Record)> {
        self.entries@
    }
}

impl ProfilingManager {
    /// Creates a manager with no records.
    pub fn new() -> (m: Self)
        ensures
            m@ == Seq::<(&'static str, Record)>::empty(),
            entries_wf(m@),
    {
        ProfilingManager { entries: Vec::new() }
    }

    /// Folds one observed duration for `target` into its record: an
    /// existing record is updated in place, a new target is appended with
    /// a single call.
    pub fn track(&mut self, target: &'static str, duration: Duration)
        requires
            entries_wf(old(self)@),
        ensures
            entries_wf(final(self)@),
            has_key(old(self)@, target@) ==> final(self)@ == old(self)@.update(
                key_index(old(self)@, target@),
                (old(self)@[key_index(old(self)@, target@)].0, updated_record(
                    old(self)@[key_index(old(self)@, target@)].1,
                    duration,
                )),
            ),
            !has_key(old(self)@, target@) ==> final(self)@ == old(self)@.push(
                (target, fresh_record(duration)),
            ),
    {
        let n = self.entries.len();
        let mut i: usize = 0;
        while i < n
            invariant
                entries_wf(self.entries@),
                self.entries@ == old(self)@,
                n == self.entries@.len(),
                i <= n,
                forall|j: int| 0 <= j < i ==> #[trigger] self.entries@[j].0@ != target@,
            decreases n - i,
        {
            let entry = self.entries[i];
            if str_equal(entry.0, target) {
                let updated = update_record(entry.1, duration);
                self.entries[i] = (entry.0, updated);
                proof {
                    let witness = key_index(old(self)@, target@);
                    assert(0 <= witness < old(self)@.len() && old(self)@[witness].0@ == target@);
                    assert(witness == i);
                }
                return ;
            }
            i = i + 1;
        }
        self.entries.push((target, Record { calls: 1, total_duration: duration, avg_duration: duration }));
    }

    /// The collected records, most expensive total first. The result holds
    /// exactly the stored entries, reordered.
    pub fn sorted_records(&self) -> (res: Vec<(&'static str, Record)>)
        ensures
            res@.len() == self@.len(),
            res@.to_multiset() == self@.to_multiset(),
            sorted_desc(res@),
    {
        let n = self.entries.len();
        let mut res: Vec<(&'static str, Record)> = Vec::new();
        let mut i: usize = 0;
        while i < n
            invariant
                n == self.entries@.len(),
                i <= n,
                res@.to_multiset() == self.entries@.subrange(0, i as int).to_multiset(),
                sorted_desc(res@),
            decreases n - i,
        {
            let item = self.entries[i];
            let mut pos: usize = 0;
            while pos < res.len() && holds_before(&res, pos, item.1.total_duration.nanos)
                invariant
                    pos <= res@.len(),
                    sorted_desc(res@),
                    forall|j: int|
                        0 <= j < pos ==> #[trigger] res@[j].1.total_duration.nanos
                            >= item.1.total_duration.nanos,
                decreases res@.len() - pos,
            {
                pos = pos + 1;
            }
            proof {
                lemma_insert_keeps_sorted(res@, pos as int, item);
                lemma_insert_multiset(res@, pos as int, item);
                assert(self.entries@.subrange(0, i + 1) =~= self.entries@.subrange(0, i as int).push(
                    self.entries@[i as int],
                ));
            }
            res.insert(pos, item);
            i = i + 1;
        }
        proof {
            assert(self.entries@.subrange(0, n as int) =~= self.entries@);
            assert(res@.to_multiset().len() == res@.len());
            assert(self.entries@.to_multiset().len() == self.entries@.len());
        }
        res
    }
}

/// Whether the entry at `pos` still has a total at least `nanos`, so the
/// insertion scan must move past it.
fn holds_before(res: &Vec<(&'static str, Record)>, pos: usize, nanos: u64) -> (r: bool)
    requires
        pos < res@.len(),
    ensures
        r == (res@[pos as int].1.total_duration.nanos >= nanos),
{
    res[pos].1.total_duration.nanos >= nanos
}

/// Applies one observation to a record, exactly as `updated_record` says.
fn update_record(r: Record, d: Duration) -> (res: Record)
    ensures
        res == updated_record(r, d),
        r.calls >= 1 ==> res.calls >= 1,
{
    let calls: u32 = if r.calls == u32::MAX {
        r.calls
    } else {
        r.calls + 1
    };
    let total: u64 = r.total_duration.nanos.saturating_add(d.nanos);
    let avg: u64 = total / (calls as u64);

    Record { calls, total_duration: Duration { nanos: total }, avg_duration: Duration { nanos: avg } }
}

/// Inserting an element right after every entry with a total at least its
/// own, and right before the rest, keeps the order descending.
proof fn lemma_insert_keeps_sorted(s: Seq<(&'static str, Record)>, pos: int, item: (&'static str, Record))
    requires
        0 <= pos <= s.len(),
        sorted_desc(s),
        forall|j: int|
            0 <= j < pos ==> #[trigger] s[j].1.total_duration.nanos >= item.1.total_duration.nanos,
        pos < s.len() ==> s[pos].1.total_duration.nanos < item.1.total_duration.nanos,
    ensures
        sorted_desc(s.insert(pos, item)),
{
    s.insert_ensures(pos, item);
    let t = s.insert(pos, item);
    assert forall|i: int, j: int| 0 <= i <= j < t.len() implies #[trigger] t[i].1.total_duration.nanos
        >= #[trigger] t[j].1.total_duration.nanos by {
        if i < pos {
            assert(t[i] == s[i]);
            assert(s[i].1.total_duration.nanos >= item.1.total_duration.nanos);
        } else if i == pos {
            assert(t[i] == item);
        } else {
            assert(t[i] == s[i - 1]);
        }
        if j < pos {
            assert(t[j] == s[j]);
        } else if j == pos {
            assert(t[j] == item);
        } else {
            assert(t[j] == s[j - 1]);
            if j - 1 > pos {
                assert(s[pos].1.total_duration.nanos >= s[j - 1].1.total_duration.nanos);
            }
        }
    }
}

/// Inserting an element anywhere adds exactly that element to the
/// sequence's multiset.
proof fn lemma_insert_multiset(s: Seq<(&'static str, Record)>, pos: int, item: (&'static str, Record))
    requires
        0 <= pos <= s.len(),
    ensures
        s.insert(pos, item).to_multiset() == s.push(item).to_multiset(),
{
    let left = s.subrange(0, pos);
    let right = s.subrange(pos, s.len() as int);
    vstd::seq_lib::lemma_multiset_commutative(left.push(item), right);
    vstd::seq_lib::lemma_multiset_commutative(left, right);
    assert(s =~= left + right);
    assert(s.insert(pos, item).to_multiset() =~= s.to_multiset().insert(item));
    assert(s.push(item).to_multiset() =~= s.to_multiset().insert(item));
}

/// Relies on str's equality: two string slices are equal exactly when
/// their characters are.
#[verifier::external_body]
fn str_equal(a: &str, b: &str) -> (r: bool)
    ensures
        r == (a@ == b@),
{
    a == b
}

/// A handle that marks the start of one measured span of a named target.
pub struct Tracker {
    start: crate::timing::Timer,
    target: &'static str,
}

impl Tracker {
    /// The characters of the target being measured.
    pub closed spec fn spec_target(&self) -> Seq<char> {
        self.target@
    }

    /// Starts measuring `target` now.
    pub fn new(target: &'static str) -> (t: Tracker)
        ensures
            t.spec_target() == target@,
    {
        Tracker { start: crate::timing::Timer::new(), target }
    }

    /// The time measured so far.
    pub fn elapsed(&self) -> Duration {
        self.start.elapsed()
    }

    /// The target being measured.
    pub fn target(&self) -> (r: &'static str)
        ensures
            r@ == self.spec_target(),
    {
        self.target
    }
}

} // verus!
