//! Racing concurrent operations: first success wins.
//!
//! A race spawns every operation at once and resolves as soon as one succeeds;
//! a failure only resolves the race once every operation has failed, and then
//! the failure that completed the count is the one delivered. Operations still
//! in flight after the race resolves run to completion, unobserved.
//!
//! `RaceState` is the shared aggregation state the concurrently completing
//! operations report into (guarded by a lock in the runtime around the
//! library); `first_ok` resolves a race whose completions arrive in a given
//! observation order.

use vstd::prelude::*;

verus! {

/// The first success among `s`, which lists the racing operations' outcomes in
/// the order their completions were observed.
pub open spec fn first_ok_of<T, E>(s: Seq<Result<T, E>>) -> Option<T>
    decreases s.len(),
{
    if s.len() == 0 {
        None
    } else {
        let before = first_ok_of(s.drop_last());
        if before is Some {
            before
        } else if s.last() is Ok {
            Some(s.last()->Ok_0)
        } else {
            None
        }
    }
}

/// How many of the outcomes in `s` are failures.
pub open spec fn err_count<T, E>(s: Seq<Result<T, E>>) -> nat
    decreases s.len(),
{
    if s.len() == 0 {
        0
    } else {
        err_count(s.drop_last()) + if s.last() is Err {
            1nat
        } else {
            0nat
        }
    }
}

/// What a race resolves to, given its outcomes in observation order: the first
/// success, or — when no operation succeeded — the failure observed last,
/// which is the one that completes the failure count.
pub open spec fn race_result<T, E>(s: Seq<Result<T, E>>) -> Result<T, E>
    recommends
        s.len() > 0,
{
    if first_ok_of(s) is Some {
        Ok(first_ok_of(s)->Some_0)
    } else {
        s.last()
    }
}

/// The shared state a race's operations report their outcomes into: a success
/// slot that keeps only the first success (the capacity-one success channel),
/// and a counter of the failures so far, which decides when a failure is
/// delivered to the caller.
pub struct RaceState<T> {
    total: usize,
    failures: usize,
    winner: Option<T>,
}

impl<T> RaceState<T> {
    /// How many operations are racing.
    pub closed spec fn total_spec(self) -> usize {
        self.total
    }

    /// How many operations have reported a failure.
    pub closed spec fn failures_spec(self) -> usize {
        self.failures
    }

    /// The first success reported, if any.
    pub closed spec fn winner_spec(self) -> Option<T> {
        self.winner
    }

    /// Fresh state for a race of `total` operations: no failures yet, no
    /// winner.
    pub fn new(total: usize) -> (s: RaceState<T>)
        ensures
            s.total_spec() == total,
            s.failures_spec() == 0,
            s.winner_spec() is None,
    {
        RaceState { total, failures: 0, winner: None }
    }

    /// Whether another operation may still fail: the counter has not yet
    /// reached the total. Each of the `total` operations fails at most once,
    /// so this holds whenever an unreported failure remains.
    pub fn can_fail_more(&self) -> (r: bool)
        ensures
            r == (self.failures_spec() < self.total_spec()),
    {
        self.failures < self.total
    }

    /// An operation succeeded with `v`. The first success is kept; a later one
    /// is dropped, as a send on the already-served capacity-one success
    /// channel would be.
    pub fn on_success(&mut self, v: T)
        ensures
            old(self).winner_spec() is None ==> final(self).winner_spec() == Some(v),
            old(self).winner_spec() is Some ==> final(self).winner_spec() == old(
                self,
            ).winner_spec(),
            final(self).total_spec() == old(self).total_spec(),
            final(self).failures_spec() == old(self).failures_spec(),
    {
        if self.winner.is_none() {
            self.winner = Some(v);
        }
    }

    /// An operation failed with `e`: the shared counter rises by one.
    /// Failures do not resolve the race individually — the failure that
    /// observes the counter reach the total is handed back for delivery to
    /// the caller; every earlier one is absorbed.
    pub fn on_failure<E>(&mut self, e: E) -> (deliver: Option<E>)
        requires
            old(self).failures_spec() < old(self).total_spec(),
        ensures
            final(self).failures_spec() == old(self).failures_spec() + 1,
            final(self).failures_spec() == old(self).total_spec() ==> deliver == Some(e),
            final(self).failures_spec() != old(self).total_spec() ==> deliver is None,
            final(self).total_spec() == old(self).total_spec(),
            final(self).winner_spec() == old(self).winner_spec(),
    {
        self.failures = self.failures + 1;
        if self.failures == self.total {
            Some(e)
        } else {
            None
        }
    }

    /// The success the race kept, if any: the first one reported.
    pub fn into_winner(self) -> (r: Option<T>)
        ensures
            r == self.winner_spec(),
    {
        self.winner
    }
}

/// Resolves a race from its operations' outcomes, listed in the order their
/// completions were observed: the first success wins; failures only resolve
/// the race once all operations have failed, and then the failure that
/// completed the count — the last observed — is delivered. A race needs at
/// least one operation, since no success can ever arrive from none.
pub fn first_ok<T, E>(outcomes: Vec<Result<T, E>>) -> (r: Result<T, E>)
    requires
        outcomes@.len() > 0,
    ensures
        r == race_result(outcomes@),
{
    let ghost all = outcomes@;
    let total = outcomes.len();
    let mut race = RaceState::<T>::new(total);
    let mut last_err: Option<E> = None;
    let mut rest = outcomes;
    let mut i: usize = 0;
    while i < total
        invariant
            total == all.len(),
            0 <= i <= total,
            rest@ == all.subrange(i as int, total as int),
            race.total_spec() == total,
            race.failures_spec() == err_count(all.subrange(0, i as int)),
            race.winner_spec() == first_ok_of(all.subrange(0, i as int)),
            last_err == if race.failures_spec() == total && total > 0 {
                Some(all.last()->Err_0)
            } else {
                None::<E>
            },
        decreases total - i,
    {
        proof {
            lemma_err_count_le_len(all.subrange(0, i as int));
            assert(all.subrange(i as int, total as int)[0] == all[i as int]);
            assert(all.subrange(i as int, total as int).remove(0) =~= all.subrange(
                i + 1,
                total as int,
            ));
            assert(all.subrange(0, i + 1).drop_last() =~= all.subrange(0, i as int));
            assert(all.subrange(0, i + 1).last() == all[i as int]);
        }
        let x = rest.remove(0);
        match x {
            Ok(v) => {
                race.on_success(v);
            },
            Err(e) => {
                let deliver = race.on_failure(e);
                proof {
                    if deliver is Some {
                        lemma_err_count_le_len(all.subrange(0, i + 1));
                        assert(all.subrange(0, i + 1) =~= all);
                    }
                }
                if let Some(delivered) = deliver {
                    last_err = Some(delivered);
                }
            },
        }
        i = i + 1;
    }
    proof {
        assert(all.subrange(0, total as int) =~= all);
        if first_ok_of(all) is None {
            lemma_no_success_all_failed(all);
        }
    }
    match race.into_winner() {
        Some(v) => Ok(v),
        None => Err(last_err.unwrap()),
    }
}

/// A failure count never exceeds the number of outcomes counted.
pub proof fn lemma_err_count_le_len<T, E>(s: Seq<Result<T, E>>)
    ensures
        err_count(s) <= s.len(),
    decreases s.len(),
{
    if s.len() > 0 {
        lemma_err_count_le_len(s.drop_last());
    }
}

/// A race without a success is a race whose every operation failed.
pub proof fn lemma_no_success_all_failed<T, E>(s: Seq<Result<T, E>>)
    requires
        first_ok_of(s) is None,
    ensures
        err_count(s) == s.len(),
        forall|j: int| 0 <= j < s.len() ==> s[j] is Err,
    decreases s.len(),
{
    if s.len() > 0 {
        lemma_no_success_all_failed(s.drop_last());
        assert(forall|j: int| 0 <= j < s.len() - 1 ==> s[j] == s.drop_last()[j]);
    }
}

/// Every operation of a race failed: the resolution is a failure, and its
/// value is one of the operations' failure values.
pub proof fn lemma_race_all_fail<T, E>(s: Seq<Result<T, E>>)
    requires
        s.len() > 0,
        forall|j: int| 0 <= j < s.len() ==> s[j] is Err,
    ensures
        race_result(s) is Err,
        exists|j: int| 0 <= j < s.len() && race_result(s) == s[j],
{
    lemma_all_err_no_success(s);
    assert(race_result(s) == s[s.len() - 1]);
}

/// No outcome of an all-failed race is a success.
pub proof fn lemma_all_err_no_success<T, E>(s: Seq<Result<T, E>>)
    requires
        forall|j: int| 0 <= j < s.len() ==> s[j] is Err,
    ensures
        first_ok_of(s) is None,
    decreases s.len(),
{
    if s.len() > 0 {
        assert(forall|j: int| 0 <= j < s.len() - 1 ==> s.drop_last()[j] == s[j]);
        lemma_all_err_no_success(s.drop_last());
    }
}

/// The first success in observation order is at position `i`: nothing before
/// it succeeded, so it is the success the race keeps.
pub proof fn lemma_first_ok_at<T, E>(s: Seq<Result<T, E>>, i: int)
    requires
        0 <= i < s.len(),
        s[i] is Ok,
        forall|j: int| 0 <= j < i ==> s[j] is Err,
    ensures
        first_ok_of(s) == Some(s[i]->Ok_0),
    decreases s.len(),
{
    if i == s.len() - 1 {
        assert(forall|j: int| 0 <= j < s.drop_last().len() ==> s.drop_last()[j] is Err);
        lemma_all_err_no_success(s.drop_last());
    } else {
        assert(forall|j: int| 0 <= j <= i ==> s.drop_last()[j] == s[j]);
        lemma_first_ok_at(s.drop_last(), i);
    }
}

/// The success whose completion was observed first determines the race's
/// result, whatever came after it.
pub proof fn lemma_race_first_success<T, E>(s: Seq<Result<T, E>>, i: int)
    requires
        0 <= i < s.len(),
        s[i] is Ok,
        forall|j: int| 0 <= j < i ==> s[j] is Err,
    ensures
        race_result(s) == Ok::<T, E>(s[i]->Ok_0),
{
    lemma_first_ok_at(s, i);
}

/// A race of exactly one operation degenerates to that operation's own
/// outcome.
pub proof fn lemma_race_single_operation<T, E>(s: Seq<Result<T, E>>)
    requires
        s.len() == 1,
    ensures
        race_result(s) == s[0],
{
    reveal_with_fuel(first_ok_of, 2);
    assert(s.last() == s[0]);
}

/// A race in which exactly one operation succeeds resolves to that
/// operation's success value.
pub proof fn lemma_race_single_success<T, E>(s: Seq<Result<T, E>>, i: int)
    requires
        0 <= i < s.len(),
        s[i] is Ok,
        forall|j: int| 0 <= j < s.len() && j != i ==> s[j] is Err,
    ensures
        race_result(s) == Ok::<T, E>(s[i]->Ok_0),
{
    lemma_race_first_success(s, i);
}

} // verus!
