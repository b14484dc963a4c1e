//! The score store: a tally of submissions per name and the time of the last
//! hand-over to the leaderboard.
//!
//! [`ScoreRecord`] is the mathematical model: a map from names to counts and a
//! time stamp. [`ScoreStore`] is the live tally and [`SubmissionPayload`] a
//! snapshot of it; both are viewed as a `ScoreRecord`, and every contract is
//! stated over that view. Time is counted in nanoseconds of a monotonic clock.
//!
//! A store is owned by one caller at a time: `increment` and `try_flush` take
//! it by `&mut`, so each of them is one indivisible step. A server that shares
//! a store between requests keeps it behind one lock and calls them under it.

use crate::clock::monotonic_ns;
use crate::table::{Entry, Table};
use vstd::prelude::*;

verus! {

/// The flush window that the server uses: five seconds, in nanoseconds.
pub const DEFAULT_THRESHOLD_NS: u64 = 5_000_000_000;

/// The largest count that a name can reach. A count that has reached it stays
/// there.
pub const COUNT_LIMIT: u64 = u64::MAX;

/// The model of a tally: counts per name and the time of the last hand-over.
pub struct ScoreRecord {
    pub counts: Map<Seq<char>, nat>,
    pub last_submit_at: nat,
}

impl ScoreRecord {
    /// The record of a store that was created at `now`.
    pub open spec fn empty_at(now: nat) -> ScoreRecord {
        ScoreRecord { counts: Map::empty(), last_submit_at: now }
    }

    /// How often `name` was counted; 0 for a name without an entry.
    pub open spec fn count(self, name: Seq<char>) -> nat {
        if self.counts.dom().contains(name) {
            self.counts[name]
        } else {
            0
        }
    }

    /// The record after one more submission of `name`.
    pub open spec fn increment(self, name: Seq<char>) -> ScoreRecord {
        let next = if self.count(name) < COUNT_LIMIT {
            self.count(name) + 1
        } else {
            self.count(name)
        };
        ScoreRecord { counts: self.counts.insert(name, next as nat), last_submit_at: self.last_submit_at }
    }

    /// The record after the submissions `names`, in order.
    pub open spec fn increment_all(self, names: Seq<Seq<char>>) -> ScoreRecord
        decreases names.len(),
    {
        if names.len() == 0 {
            self
        } else {
            self.increment_all(names.drop_last()).increment(names.last())
        }
    }

    /// Whether a flush at `now` is still held back: less than `threshold` has
    /// passed since the last hand-over.
    pub open spec fn cooling(self, now: nat, threshold: nat) -> bool {
        now - self.last_submit_at < threshold
    }

    /// The record that a flush at `now` leaves behind.
    pub open spec fn flushed(self, now: nat) -> ScoreRecord {
        ScoreRecord::empty_at(now)
    }

    /// What a flush attempt at `now` does: the record afterwards, and the
    /// snapshot that is handed out, if any.
    pub open spec fn try_flush(self, now: nat, threshold: nat) -> (ScoreRecord, Option<ScoreRecord>) {
        if self.cooling(now, threshold) {
            (self, None)
        } else {
            (self.flushed(now), Some(self))
        }
    }
}

/// How often `name` occurs in `names`.
pub open spec fn occurrences(names: Seq<Seq<char>>, name: Seq<char>) -> nat
    decreases names.len(),
{
    if names.len() == 0 {
        0
    } else {
        let rest = occurrences(names.drop_last(), name);
        if names.last() == name {
            rest + 1
        } else {
            rest
        }
    }
}

/// Submissions leave the time of the last hand-over as it is.
pub proof fn lemma_increments_keep_window(start: ScoreRecord, names: Seq<Seq<char>>)
    ensures
        start.increment_all(names).last_submit_at == start.last_submit_at,
    decreases names.len(),
{
    if names.len() > 0 {
        lemma_increments_keep_window(start, names.drop_last());
    }
}

/// No update is lost: after any sequence of submissions the count of each
/// name has grown by the number of times that the name was submitted, as long
/// as that sum stays within the limit of a count.
pub proof fn lemma_increments_are_counted(start: ScoreRecord, names: Seq<Seq<char>>, name: Seq<char>)
    requires
        start.count(name) + occurrences(names, name) <= COUNT_LIMIT,
    ensures
        start.increment_all(names).count(name) == start.count(name) + occurrences(names, name),
    decreases names.len(),
{
    if names.len() > 0 {
        lemma_increments_are_counted(start, names.drop_last(), name);
    }
}

/// The number of times that a name occurs in a sequence is its multiplicity
/// in the sequence taken as a multiset.
pub proof fn lemma_occurrences_is_multiplicity(names: Seq<Seq<char>>, name: Seq<char>)
    ensures
        occurrences(names, name) == names.to_multiset().count(name),
    decreases names.len(),
{
    if names.len() == 0 {
        names.to_multiset_ensures();
    } else {
        lemma_occurrences_is_multiplicity(names.drop_last(), name);
        vstd::seq_lib::to_multiset_build(names.drop_last(), names.last());
        assert(names.drop_last().push(names.last()) =~= names);
    }
}

/// The order in which submissions arrive does not matter: two sequences that
/// hold the same names the same number of times leave every name with the same
/// count, as long as the counts stay within the limit of a count.
pub proof fn lemma_increments_commute(
    start: ScoreRecord,
    one: Seq<Seq<char>>,
    other: Seq<Seq<char>>,
    name: Seq<char>,
)
    requires
        one.to_multiset() == other.to_multiset(),
        start.count(name) + occurrences(one, name) <= COUNT_LIMIT,
    ensures
        start.increment_all(one).count(name) == start.increment_all(other).count(name),
        start.increment_all(one).last_submit_at == start.increment_all(other).last_submit_at,
{
    lemma_occurrences_is_multiplicity(one, name);
    lemma_occurrences_is_multiplicity(other, name);
    lemma_increments_are_counted(start, one, name);
    lemma_increments_are_counted(start, other, name);
    lemma_increments_keep_window(start, one);
    lemma_increments_keep_window(start, other);
}

/// Of two flush attempts less than `threshold` apart at most one hands out a
/// snapshot, whatever is submitted between them; where the first one does, the
/// second returns nothing and leaves the record as it found it.
pub proof fn lemma_flush_twice_in_window(
    start: ScoreRecord,
    first_at: nat,
    between: Seq<Seq<char>>,
    second_at: nat,
    threshold: nat,
)
    requires
        second_at - first_at < threshold,
    ensures
        ({
            let first = start.try_flush(first_at, threshold);
            let before_second = first.0.increment_all(between);
            let second = before_second.try_flush(second_at, threshold);
            &&& !(first.1.is_some() && second.1.is_some())
            &&& first.1.is_some() ==> second.1.is_none() && second.0 == before_second
        }),
{
    lemma_increments_keep_window(start.try_flush(first_at, threshold).0, between);
}

/// A flush that goes through leaves an empty tally whose window starts at the
/// flush time, and hands out exactly the record that it found.
pub proof fn lemma_flush_empties(start: ScoreRecord, now: nat, threshold: nat)
    requires
        !start.cooling(now, threshold),
    ensures
        start.try_flush(now, threshold).0.counts == Map::<Seq<char>, nat>::empty(),
        start.try_flush(now, threshold).0.last_submit_at == now,
        start.try_flush(now, threshold).1 == Some(start),
{
}

/// A submission that meets a flush lands on exactly one side of it. Counted
/// before the flush, it is in the snapshot and not in the tally that the flush
/// leaves; counted after, it is the first of the new window and the snapshot
/// does not hold it.
pub proof fn lemma_increment_lands_once(start: ScoreRecord, name: Seq<char>, now: nat, threshold: nat)
    requires
        !start.cooling(now, threshold),
        start.count(name) < COUNT_LIMIT,
    ensures
        ({
            let flushed = start.increment(name).try_flush(now, threshold);
            &&& flushed.1 is Some
            &&& flushed.1->0.count(name) == start.count(name) + 1
            &&& flushed.0.count(name) == 0
        }),
        ({
            let flushed = start.try_flush(now, threshold);
            &&& flushed.1 is Some
            &&& flushed.1->0.count(name) == start.count(name)
            &&& flushed.0.increment(name).count(name) == 1
        }),
{
}

/// The counts that a table of machine integers stands for.
pub open spec fn counts_of(table: Map<Seq<char>, u64>) -> Map<Seq<char>, nat> {
    Map::new(|name: Seq<char>| table.dom().contains(name), |name: Seq<char>| table[name] as nat)
}

/// A snapshot of the tally, taken by a flush. It is a copy: nothing that
/// happens to the store afterwards changes it.
pub struct SubmissionPayload {
    counts: Table<u64>,
    last_submit_at: u64,
}

impl View for SubmissionPayload {
    type V = ScoreRecord;

    closed spec fn view(&self) -> ScoreRecord {
        ScoreRecord { counts: counts_of(self.counts@), last_submit_at: self.last_submit_at as nat }
    }
}

impl SubmissionPayload {
    /// The entries of the snapshot, one per name.
    pub fn entries(&self) -> (r: &Vec<Entry<u64>>)
        ensures
            crate::table::distinct_keys(r@),
            counts_of(crate::table::contents(r@)) == self@.counts,
    {
        self.counts.entries()
    }

    /// The time of the hand-over before the one that took this snapshot, or of
    /// the store's creation.
    pub fn last_submit_at(&self) -> (r: u64)
        ensures
            r == self@.last_submit_at,
    {
        self.last_submit_at
    }

    /// How often `name` was counted in this snapshot.
    pub fn count(&self, name: &String) -> (r: u64)
        ensures
            r == self@.count(name@),
    {
        match self.counts.get(name) {
            Some(count) => *count,
            None => 0,
        }
    }
}

/// The live tally of one server.
pub struct ScoreStore {
    counts: Table<u64>,
    last_submit_at: u64,
}

impl View for ScoreStore {
    type V = ScoreRecord;

    closed spec fn view(&self) -> ScoreRecord {
        ScoreRecord { counts: counts_of(self.counts@), last_submit_at: self.last_submit_at as nat }
    }
}

impl ScoreStore {
    /// An empty store whose window starts at `now`.
    pub fn starting_at(now: u64) -> (store: ScoreStore)
        ensures
            store@ == ScoreRecord::empty_at(now as nat),
    {
        let store = ScoreStore { counts: Table::new(), last_submit_at: now };
        assert(store@.counts =~= Map::<Seq<char>, nat>::empty());
        store
    }

    /// An empty store whose window starts now.
    pub fn new() -> (store: ScoreStore)
        ensures
            store@ == ScoreRecord::empty_at(store@.last_submit_at),
    {
        ScoreStore::starting_at(monotonic_ns())
    }

    /// How often `name` was counted since the last flush.
    pub fn count(&self, name: &String) -> (r: u64)
        ensures
            r == self@.count(name@),
    {
        match self.counts.get(name) {
            Some(count) => *count,
            None => 0,
        }
    }

    /// The time of the last hand-over, or of the store's creation.
    pub fn last_submit_at(&self) -> (r: u64)
        ensures
            r == self@.last_submit_at,
    {
        self.last_submit_at
    }

    /// Whether nothing was counted since the last flush.
    pub fn is_empty(&self) -> (r: bool)
        ensures
            r == (self@.counts == Map::<Seq<char>, nat>::empty()),
    {
        let r = self.counts.is_empty();
        proof {
            if r {
                assert(self@.counts =~= Map::<Seq<char>, nat>::empty());
            } else {
                assert(!(self.counts@ =~= Map::<Seq<char>, u64>::empty()));
                let name = choose|name: Seq<char>| self.counts@.dom().contains(name);
                assert(self@.counts.dom().contains(name));
            }
        }
        r
    }

    /// Counts one more submission of `name`, creating its entry with count 1
    /// where there was none.
    pub fn increment(&mut self, name: String)
        ensures
            final(self)@ == old(self)@.increment(name@),
    {
        let count = self.count(&name);
        let next = if count < COUNT_LIMIT {
            count + 1
        } else {
            count
        };
        self.counts.insert(name, next);
        assert(self@.counts =~= old(self)@.increment(name@).counts);
    }

    /// Hands out the tally if at least `threshold` has passed since the last
    /// hand-over: the snapshot is returned, the store is emptied and its window
    /// restarts at `now`. Otherwise nothing is returned and nothing changes.
    pub fn try_flush(&mut self, now: u64, threshold: u64) -> (r: Option<SubmissionPayload>)
        ensures
            final(self)@ == old(self)@.try_flush(now as nat, threshold as nat).0,
            match r {
                Some(payload) => old(self)@.try_flush(now as nat, threshold as nat).1 == Some(payload@),
                None => old(self)@.try_flush(now as nat, threshold as nat).1.is_none(),
            },
            final(self)@.last_submit_at >= old(self)@.last_submit_at,
    {
        if now < self.last_submit_at || now - self.last_submit_at < threshold {
            return None;
        }
        let mut taken = ScoreStore::starting_at(now);
        core::mem::swap(self, &mut taken);
        Some(SubmissionPayload { counts: taken.counts, last_submit_at: taken.last_submit_at })
    }

    /// Tries to flush now, with the server's flush window: the store changes
    /// as `try_flush` changes it at some time `now`.
    pub fn try_submit_score(&mut self) -> (r: Option<SubmissionPayload>)
        ensures
            exists|now: nat|
                {
                    &&& final(self)@ == (#[trigger] old(self)@.try_flush(now, DEFAULT_THRESHOLD_NS as nat)).0
                    &&& match r {
                        Some(payload) => old(self)@.try_flush(now, DEFAULT_THRESHOLD_NS as nat).1 == Some(
                            payload@,
                        ),
                        None => old(self)@.try_flush(now, DEFAULT_THRESHOLD_NS as nat).1.is_none(),
                    }
                },
    {
        let now = monotonic_ns();
        self.try_flush(now, DEFAULT_THRESHOLD_NS)
    }

    /// Counts one submission of `name` and then tries to flush at `now`.
    pub fn record(&mut self, name: String, now: u64, threshold: u64) -> (r: Option<SubmissionPayload>)
        ensures
            final(self)@ == old(self)@.increment(name@).try_flush(now as nat, threshold as nat).0,
            match r {
                Some(payload) => old(self)@.increment(name@).try_flush(
                    now as nat,
                    threshold as nat,
                ).1 == Some(payload@),
                None => old(self)@.increment(name@).try_flush(now as nat, threshold as nat).1.is_none(),
            },
    {
        self.increment(name);
        self.try_flush(now, threshold)
    }
}

} // verus!
