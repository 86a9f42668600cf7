//! How often each day has been raffled.

use std::collections::HashMap;
use vstd::prelude::*;
use vstd::std_specs::hash::*;

verus! {

/// The runs that `runs` holds for `date`: none where the day is unknown.
pub open spec fn runs_of(runs: Map<u64, u16>, date: u64) -> int {
    if runs.contains_key(date) {
        runs[date] as int
    } else {
        0
    }
}

/// The counts after one more run of `date`.
pub open spec fn bumped(runs: Map<u64, u16>, date: u64) -> Map<u64, u16> {
    runs.insert(date, (runs_of(runs, date) + 1) as u16)
}

/// The counts after `k` more runs of `date`.
pub open spec fn bumped_times(runs: Map<u64, u16>, date: u64, k: nat) -> Map<u64, u16>
    decreases k,
{
    if k == 0 {
        runs
    } else {
        bumped(bumped_times(runs, date, (k - 1) as nat), date)
    }
}

/// The runs of a day are counted without gaps and without repeats: the
/// `k`-th run after a count of `n` gets the index `n + k`, and a day's runs
/// leave the counts of the other days alone.
pub proof fn lemma_runs_count_up(runs: Map<u64, u16>, date: u64, k: nat)
    requires
        runs_of(runs, date) + k <= u16::MAX,
    ensures
        runs_of(bumped_times(runs, date, k), date) == runs_of(runs, date) + k,
        forall|other: u64|
            other != date ==> runs_of(bumped_times(runs, date, k), other) == runs_of(
                runs,
                other,
            ),
    decreases k,
{
    if k > 0 {
        lemma_runs_count_up(runs, date, (k - 1) as nat);
    }
}

/// The run counter: for each day, the index of its latest run.
pub struct RunCounter {
    pub runs: HashMap<u64, u16>,
}

impl View for RunCounter {
    type V = Map<u64, u16>;

    open spec fn view(&self) -> Map<u64, u16> {
        self.runs@
    }
}

impl RunCounter {
    /// A counter that has seen no run.
    pub fn new() -> (counter: RunCounter)
        ensures
            counter@ == Map::<u64, u16>::empty(),
    {
        RunCounter { runs: HashMap::new() }
    }

    /// The index of the latest run of `date`, zero where it had none.
    pub fn current(&self, date: u64) -> (run: u16)
        ensures
            run == runs_of(self@, date),
    {
        broadcast use group_hash_axioms;

        match self.runs.get(&date) {
            Some(run) => *run,
            None => 0,
        }
    }

    /// Sets the count of `date`.
    pub fn set(&mut self, date: u64, run: u16)
        ensures
            final(self)@ == old(self)@.insert(date, run),
    {
        broadcast use group_hash_axioms;

        self.runs.insert(date, run);
    }

    /// Counts one more run of `date` and returns its index. The first run of
    /// a day has the index one.
    pub fn next_run(&mut self, date: u64) -> (run: u16)
        requires
            runs_of(old(self)@, date) < u16::MAX,
        ensures
            run == runs_of(old(self)@, date) + 1,
            final(self)@ == bumped(old(self)@, date),
            runs_of(final(self)@, date) == run,
    {
        let run: u16 = self.current(date) + 1;
        self.set(date, run);
        run
    }

    /// Forgets every run of every day.
    pub fn clear(&mut self)
        ensures
            final(self)@ == Map::<u64, u16>::empty(),
    {
        self.runs.clear();
    }
}

} // verus!
