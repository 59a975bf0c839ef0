//! The decisions of the two-call protocol behind every plural query: ask the
//! driver how many records it has, hand it storage for that many, and take
//! what it wrote. When the driver says that its records changed in between,
//! start over, a bounded number of times. The calls themselves are made
//! elsewhere; here each answer is judged.

use vstd::prelude::*;
use crate::error::Error;

verus! {

/// How many passes an enumeration makes before it gives up on a driver whose
/// records never hold still.
pub const MAX_PASSES: u32 = 8;

/// What an enumeration asks of the driver next.
#[derive(Clone, Copy, Debug, PartialEq, Eq, Structural)]
pub enum Request {
    /// Call without storage: the driver writes how many records it has.
    Count,
    /// Call with storage for this many records: the driver fills it and
    /// writes how many it wrote.
    Fill(u32),
}

/// Where an enumeration stands.
#[derive(Clone, Copy, Debug, PartialEq, Eq, Structural)]
pub enum Stage {
    /// About to ask for the count.
    Counting,
    /// The driver counted this many records; about to ask for them.
    Filling(u32),
    /// Done: this many records were written into the storage.
    Finished(u32),
    /// Given up, for this reason.
    Failed(Error),
}

/// What an enumeration does next: another call, or the end.
#[derive(Clone, Copy, Debug, PartialEq, Eq)]
pub enum Next {
    /// Call the driver with this request, then `advance` with its answer.
    Ask(Request),
    /// Over: keep this many records of the storage, or fail for this reason.
    Done(Result<u32, Error>),
}

/// One enumeration in progress: the decisions of the protocol, apart from the
/// calls themselves.
#[derive(Clone, Copy, Debug, PartialEq, Eq, Structural)]
pub struct Enumeration {
    pub stage: Stage,
    /// Passes that the driver has cut short so far.
    pub retries: u32,
}

/// The smaller of two counts.
pub open spec fn least(a: u32, b: u32) -> u32 {
    if a <= b {
        a
    } else {
        b
    }
}

/// How many records a pass wrote into storage for `capacity` records, going
/// by the count that the driver wrote back, and never past the storage.
pub fn settle(capacity: u32, written: u32) -> (count: u32)
    ensures
        count == least(written, capacity),
{
    if written <= capacity {
        written
    } else {
        capacity
    }
}

impl Enumeration {
    /// An enumeration that has not called the driver yet.
    pub open spec fn start_spec() -> Enumeration {
        Enumeration { stage: Stage::Counting, retries: 0 }
    }

    /// What to ask next; nothing once the enumeration has ended.
    pub open spec fn request_spec(self) -> Option<Request> {
        match self.stage {
            Stage::Counting => Some(Request::Count),
            Stage::Filling(capacity) => Some(Request::Fill(capacity)),
            _ => None,
        }
    }

    /// Whether the enumeration has ended.
    pub open spec fn is_over(self) -> bool {
        self.request_spec().is_none()
    }

    /// The state after a pass that the driver cut short: a new pass, unless
    /// that was the last one allowed.
    pub open spec fn retry_spec(self) -> Enumeration {
        if self.retries >= MAX_PASSES - 1 {
            Enumeration { stage: Stage::Failed(Error::Unstable), retries: self.retries }
        } else {
            Enumeration { stage: Stage::Counting, retries: (self.retries + 1) as u32 }
        }
    }

    /// The state after the driver answered the pending request with `status`
    /// and `count`.
    pub open spec fn advance_spec(self, status: i32, count: u32) -> Enumeration {
        if self.is_over() {
            self
        } else {
            match crate::vk::Result::of_code(status as int) {
                None => Enumeration {
                    stage: Stage::Failed(Error::UnknownStatus(status)),
                    retries: self.retries,
                },
                Some(crate::vk::Result::Incomplete) => self.retry_spec(),
                Some(crate::vk::Result::Success) => match self.stage {
                    Stage::Counting => Enumeration {
                        stage: Stage::Filling(count),
                        retries: self.retries,
                    },
                    Stage::Filling(capacity) => Enumeration {
                        stage: Stage::Finished(least(count, capacity)),
                        retries: self.retries,
                    },
                    _ => self,
                },
                Some(refusal) => Enumeration {
                    stage: Stage::Failed(Error::Native(refusal)),
                    retries: self.retries,
                },
            }
        }
    }

    /// How the enumeration ended, once it has: the number of records to keep,
    /// or the reason for giving up.
    pub open spec fn outcome_spec(self) -> Option<Result<u32, Error>> {
        match self.stage {
            Stage::Finished(count) => Some(Ok(count)),
            Stage::Failed(error) => Some(Err(error)),
            _ => None,
        }
    }

    /// What to do next: the pending request, or how the enumeration ended.
    pub open spec fn next_spec(self) -> Next {
        match self.stage {
            Stage::Counting => Next::Ask(Request::Count),
            Stage::Filling(capacity) => Next::Ask(Request::Fill(capacity)),
            Stage::Finished(count) => Next::Done(Ok(count)),
            Stage::Failed(error) => Next::Done(Err(error)),
        }
    }

    /// An upper bound on the calls that the enumeration can still make.
    pub open spec fn calls_left(self) -> nat {
        let passes: nat = if self.retries < MAX_PASSES {
            (MAX_PASSES - self.retries) as nat
        } else {
            1
        };
        match self.stage {
            Stage::Counting => 2 * passes,
            Stage::Filling(_) => (2 * passes - 1) as nat,
            _ => 0,
        }
    }

    /// The state after the driver answered each request in turn with the
    /// next of `answers`, a status and a count.
    pub open spec fn run_spec(self, answers: Seq<(i32, u32)>) -> Enumeration
        decreases answers.len(),
    {
        if answers.len() == 0 {
            self
        } else {
            self.run_spec(answers.drop_last()).advance_spec(answers.last().0, answers.last().1)
        }
    }

    pub fn start() -> (state: Enumeration)
        ensures
            state == Enumeration::start_spec(),
    {
        Enumeration { stage: Stage::Counting, retries: 0 }
    }

    pub fn next(&self) -> (next: Next)
        ensures
            next == self.next_spec(),
    {
        match self.stage {
            Stage::Counting => Next::Ask(Request::Count),
            Stage::Filling(capacity) => Next::Ask(Request::Fill(capacity)),
            Stage::Finished(count) => Next::Done(Ok(count)),
            Stage::Failed(error) => Next::Done(Err(error)),
        }
    }

    pub fn request(&self) -> (request: Option<Request>)
        ensures
            request == self.request_spec(),
    {
        match self.stage {
            Stage::Counting => Some(Request::Count),
            Stage::Filling(capacity) => Some(Request::Fill(capacity)),
            _ => None,
        }
    }

    pub fn outcome(&self) -> (outcome: Option<Result<u32, Error>>)
        ensures
            outcome == self.outcome_spec(),
    {
        match self.stage {
            Stage::Finished(count) => Some(Ok(count)),
            Stage::Failed(error) => Some(Err(error)),
            _ => None,
        }
    }

    /// Takes the driver's answer to the pending request and decides how the
    /// enumeration goes on. Every answer brings the end nearer.
    pub fn advance(self, status: i32, count: u32) -> (next: Enumeration)
        ensures
            next == self.advance_spec(status, count),
            !self.is_over() ==> next.calls_left() < self.calls_left(),
    {
        let pending = match self.stage {
            Stage::Counting => true,
            Stage::Filling(_) => true,
            _ => false,
        };
        if !pending {
            return self;
        }
        match crate::vk::Result::from_raw(status) {
            None => Enumeration {
                stage: Stage::Failed(Error::UnknownStatus(status)),
                retries: self.retries,
            },
            Some(crate::vk::Result::Incomplete) => {
                if self.retries >= MAX_PASSES - 1 {
                    Enumeration { stage: Stage::Failed(Error::Unstable), retries: self.retries }
                } else {
                    Enumeration { stage: Stage::Counting, retries: self.retries + 1 }
                }
            },
            Some(crate::vk::Result::Success) => match self.stage {
                Stage::Counting => Enumeration {
                    stage: Stage::Filling(count),
                    retries: self.retries,
                },
                Stage::Filling(capacity) => Enumeration {
                    stage: Stage::Finished(settle(capacity, count)),
                    retries: self.retries,
                },
                _ => self,
            },
            Some(refusal) => Enumeration {
                stage: Stage::Failed(Error::Native(refusal)),
                retries: self.retries,
            },
        }
    }

    /// Replays a recorded exchange: the state after the driver gave each of
    /// `answers` in turn.
    pub fn run(self, answers: &Vec<(i32, u32)>) -> (state: Enumeration)
        ensures
            state == self.run_spec(answers@),
    {
        let mut state = self;
        let mut at: usize = 0;
        while at < answers.len()
            invariant
                at <= answers@.len(),
                state == self.run_spec(answers@.take(at as int)),
            decreases answers@.len() - at,
        {
            let answer = answers[at];
            state = state.advance(answer.0, answer.1);
            at += 1;
            assert(answers@.take(at as int).drop_last() =~= answers@.take(at - 1));
        }
        assert(answers@.take(at as int) =~= answers@);
        state
    }
}

/// The records to hand out: the first `count` of the storage, and no more
/// than the storage holds.
pub open spec fn kept<T>(records: Seq<T>, count: u32) -> Seq<T> {
    if count <= records.len() {
        records.take(count as int)
    } else {
        records
    }
}

/// Cuts the storage down to the records that the driver wrote.
pub fn keep<T>(records: Vec<T>, count: u32) -> (out: Vec<T>)
    ensures
        out@ == kept(records@, count),
{
    let mut out = records;
    out.truncate(count as usize);
    out
}

/// Why an enumeration can fail: the driver refused with a status that is
/// neither success nor a short pass, answered with a number that is no
/// status, or cut short every pass that was allowed.
pub open spec fn enumeration_failure(error: Error) -> bool {
    match error {
        Error::Native(status) => status != crate::vk::Result::Success && status
            != crate::vk::Result::Incomplete,
        Error::UnknownStatus(raw) => crate::vk::Result::of_code(raw as int).is_none(),
        Error::Unstable => true,
        _ => false,
    }
}

/// An enumeration fails only for one of the reasons of
/// `enumeration_failure`, wherever it started and whatever it was answered.
pub proof fn lemma_failures(state: Enumeration, status: i32, count: u32)
    requires
        state.outcome_spec() matches Some(Err(error)) ==> enumeration_failure(error),
    ensures
        state.advance_spec(status, count).outcome_spec() matches Some(Err(error))
            ==> enumeration_failure(error),
{
}

/// However an enumeration is answered, it fails only for one of the reasons
/// of `enumeration_failure`, unless it had failed otherwise before.
pub proof fn lemma_run_failures(state: Enumeration, answers: Seq<(i32, u32)>)
    requires
        state.outcome_spec() matches Some(Err(error)) ==> enumeration_failure(error),
    ensures
        state.run_spec(answers).outcome_spec() matches Some(Err(error)) ==> enumeration_failure(
            error,
        ),
    decreases answers.len(),
{
    if answers.len() > 0 {
        lemma_run_failures(state, answers.drop_last());
        lemma_failures(state.run_spec(answers.drop_last()), answers.last().0, answers.last().1);
    }
}

/// The answers of a driver that cuts every pass short: for each pass, the
/// count it reported and the count it wrote when it found its records changed.
pub open spec fn cut_short(passes: Seq<(u32, u32)>) -> Seq<(i32, u32)>
    decreases passes.len(),
{
    if passes.len() == 0 {
        Seq::empty()
    } else {
        cut_short(passes.drop_last()).push((0i32, passes.last().0)).push((5i32, passes.last().1))
    }
}

/// When the driver's records hold still between the two calls, the
/// enumeration ends after those two calls, asks for storage of exactly the
/// count reported, and keeps exactly as many records as the driver counted.
pub proof fn lemma_stable_count(state: Enumeration, count: u32)
    requires
        state.stage == Stage::Counting,
    ensures
        state.request_spec() == Some(Request::Count),
        state.advance_spec(0, count).request_spec() == Some(Request::Fill(count)),
        state.advance_spec(0, count).advance_spec(0, count).outcome_spec() == Some(
            Ok::<u32, Error>(count),
        ),
{
    crate::vk::Result::lemma_of_code_round_trip(crate::vk::Result::Success);
}

/// Of storage that holds as many records as the driver counted, all are
/// handed out, in the order in which the driver wrote them.
pub proof fn lemma_stable_keeps_all<T>(records: Seq<T>, count: u32)
    requires
        records.len() == count,
    ensures
        kept(records, count) == records,
        kept(records, least(count, count)) == records,
{
    assert(records.take(count as int) =~= records);
}

/// The enumeration never keeps more records than it gave storage for.
pub proof fn lemma_never_past_storage(state: Enumeration, capacity: u32, written: u32)
    requires
        state.stage == Stage::Filling(capacity),
    ensures
        state.advance_spec(0, written).outcome_spec() == Some(
            Ok::<u32, Error>(least(written, capacity)),
        ),
        least(written, capacity) <= capacity,
{
    crate::vk::Result::lemma_of_code_round_trip(crate::vk::Result::Success);
}

/// When the driver cuts a pass short, the enumeration starts over with a new
/// count, and a pass that then holds still ends it with the records of that
/// pass: a short pass is never taken for a result.
pub proof fn lemma_retry_then_finish(state: Enumeration, first: u32, grown: u32)
    requires
        state.stage == Stage::Counting,
        state.retries < MAX_PASSES - 1,
    ensures
        state.advance_spec(0, first).advance_spec(5, grown) == (Enumeration {
            stage: Stage::Counting,
            retries: (state.retries + 1) as u32,
        }),
        state.advance_spec(0, first).advance_spec(5, grown).advance_spec(0, grown).request_spec()
            == Some(Request::Fill(grown)),
        state.advance_spec(0, first).advance_spec(5, grown).advance_spec(0, grown).advance_spec(
            0,
            grown,
        ).outcome_spec() == Some(Ok::<u32, Error>(grown)),
{
    crate::vk::Result::lemma_of_code_round_trip(crate::vk::Result::Success);
    crate::vk::Result::lemma_of_code_round_trip(crate::vk::Result::Incomplete);
}

/// An answer that cuts the pass short never ends an enumeration with records.
pub proof fn lemma_short_pass_is_no_result(state: Enumeration, count: u32)
    requires
        !state.is_over(),
    ensures
        state.advance_spec(5, count).outcome_spec() != Some(Ok::<u32, Error>(count)),
        state.advance_spec(5, count).stage == Stage::Counting || state.advance_spec(
            5,
            count,
        ).stage == Stage::Failed(Error::Unstable),
{
    crate::vk::Result::lemma_of_code_round_trip(crate::vk::Result::Incomplete);
}

/// Any status but success and the one that cuts a pass short ends the
/// enumeration at once, with that status as the reason.
pub proof fn lemma_refusal_ends(state: Enumeration, refusal: crate::vk::Result, count: u32)
    requires
        !state.is_over(),
        refusal != crate::vk::Result::Success,
        refusal != crate::vk::Result::Incomplete,
        i32::MIN <= refusal.code() <= i32::MAX,
    ensures
        state.advance_spec(refusal.code() as i32, count).outcome_spec() == Some(
            Err::<u32, Error>(Error::Native(refusal)),
        ),
{
    crate::vk::Result::lemma_of_code_round_trip(refusal);
}

/// A driver that cuts every pass short is asked again pass after pass, and
/// given up on after `MAX_PASSES` passes in a row.
pub proof fn lemma_gives_up(passes: Seq<(u32, u32)>)
    ensures
        passes.len() < MAX_PASSES ==> Enumeration::start_spec().run_spec(cut_short(passes)) == (
        Enumeration { stage: Stage::Counting, retries: passes.len() as u32 }),
        passes.len() == MAX_PASSES ==> Enumeration::start_spec().run_spec(
            cut_short(passes),
        ).outcome_spec() == Some(Err::<u32, Error>(Error::Unstable)),
    decreases passes.len(),
{
    crate::vk::Result::lemma_of_code_round_trip(crate::vk::Result::Success);
    crate::vk::Result::lemma_of_code_round_trip(crate::vk::Result::Incomplete);
    let start = Enumeration::start_spec();
    if passes.len() > 0 {
        let before = cut_short(passes.drop_last());
        let counted = before.push((0i32, passes.last().0));
        let answers = cut_short(passes);
        lemma_gives_up(passes.drop_last());
        assert(answers.drop_last() =~= counted);
        assert(counted.drop_last() =~= before);
        assert(start.run_spec(answers) == start.run_spec(counted).advance_spec(
            5,
            passes.last().1,
        ));
        assert(start.run_spec(counted) == start.run_spec(before).advance_spec(
            0,
            passes.last().0,
        ));
    }
}

/// Each answer uses up one of the calls that an enumeration may still make:
/// whatever the driver answers, no enumeration calls it more than
/// `2 * MAX_PASSES` times.
pub proof fn lemma_calls_bounded(state: Enumeration, answers: Seq<(i32, u32)>)
    ensures
        state.run_spec(answers).calls_left() <= state.calls_left(),
        state.run_spec(answers).is_over() || state.run_spec(answers).calls_left()
            + answers.len() <= state.calls_left(),
        Enumeration::start_spec().calls_left() == 2 * MAX_PASSES,
        answers.len() >= state.calls_left() ==> state.run_spec(answers).is_over(),
    decreases answers.len(),
{
    if answers.len() > 0 {
        lemma_calls_bounded(state, answers.drop_last());
        let before = state.run_spec(answers.drop_last());
        lemma_advance_nearer(before, answers.last().0, answers.last().1);
    }
}

/// Every answer to a pending request brings the end nearer; an enumeration
/// that has ended stays as it is.
pub proof fn lemma_advance_nearer(state: Enumeration, status: i32, count: u32)
    ensures
        state.is_over() ==> state.advance_spec(status, count) == state,
        !state.is_over() ==> state.advance_spec(status, count).calls_left() < state.calls_left(),
{
}

} // verus!
