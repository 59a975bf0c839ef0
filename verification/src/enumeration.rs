//! The two-call protocol run against a driver: count, fill, and again from
//! the count whenever the driver cuts a pass short. What an enumeration hands
//! out is stated over the exchange that it had with the driver, reply by
//! reply.

use vstd::prelude::*;
use crate::driver::Reply;
use crate::error::Error;
use crate::protocol::{
    enumeration_failure, keep, kept, least, lemma_calls_bounded, lemma_run_failures,
    lemma_stable_keeps_all, Enumeration, Next, Request, MAX_PASSES,
};

verus! {

/// A plural query of the driver, ready to be called any number of times.
pub trait CountedQuery<T> {
    /// One call: without storage where `capacity` is none, else with storage
    /// for that many records.
    fn ask(&self, capacity: Option<u32>) -> Reply<T>;
}

/// What is handed to the driver for a request: no storage, or storage for as
/// many records as the request says.
pub open spec fn capacity_of(request: Request) -> Option<u32> {
    match request {
        Request::Count => None,
        Request::Fill(capacity) => Some(capacity),
    }
}

/// The status and the count of each reply, in turn.
pub open spec fn answers_of<T>(replies: Seq<Reply<T>>) -> Seq<(i32, u32)> {
    Seq::new(replies.len(), |i: int| (replies[i].status, replies[i].count))
}

/// Where an enumeration stands after the driver gave `replies` in turn.
pub open spec fn state_after<T>(replies: Seq<Reply<T>>) -> Enumeration {
    Enumeration::start_spec().run_spec(answers_of(replies))
}

/// `replies` is an exchange that the protocol can have with a driver that
/// answers as `answered` allows: each reply is given to the request that was
/// pending after the replies before it, with the storage that the request
/// calls for.
pub open spec fn follows<T>(
    answered: spec_fn(Option<u32>, Reply<T>) -> bool,
    replies: Seq<Reply<T>>,
) -> bool {
    forall|i: int|
        0 <= i < replies.len() ==> (#[trigger] state_after(replies.take(i)).request_spec()
            matches Some(request) && answered(capacity_of(request), replies[i]))
}

/// `result` is what the exchange `replies` comes to once it is over: the
/// reason for which the enumeration gave up, or the storage of the last
/// reply, cut down to the count that the enumeration settled on.
pub open spec fn concludes<T>(replies: Seq<Reply<T>>, result: Result<Vec<T>, Error>) -> bool {
    match state_after(replies).outcome_spec() {
        Some(Ok(count)) => replies.len() > 0 && (result matches Ok(records) && records@ == kept(
            replies.last().records@,
            count,
        )),
        Some(Err(error)) => result == Err::<Vec<T>, Error>(error),
        None => false,
    }
}

/// `result` is what the protocol may come to with a driver that answers as
/// `answered` allows.
pub open spec fn enumerated<T>(
    answered: spec_fn(Option<u32>, Reply<T>) -> bool,
    result: Result<Vec<T>, Error>,
) -> bool {
    exists|replies: Seq<Reply<T>>| #[trigger]
        follows(answered, replies) && concludes(replies, result)
}

/// What `query` may answer to a call.
pub open spec fn asked<T, Q: CountedQuery<T>>(query: &Q) -> spec_fn(Option<u32>, Reply<T>) -> bool {
    |capacity: Option<u32>, reply: Reply<T>| Q::ask.ensures((query, capacity), reply)
}

/// One more reply moves the state by one step of the protocol.
pub proof fn lemma_state_after_push<T>(replies: Seq<Reply<T>>, reply: Reply<T>)
    ensures
        state_after(replies.push(reply)) == state_after(replies).advance_spec(
            reply.status,
            reply.count,
        ),
{
    let longer = replies.push(reply);
    assert(answers_of(longer).drop_last() =~= answers_of(replies));
    assert(answers_of(longer).last() == (reply.status, reply.count));
}

/// An exchange goes on with a reply to the request that is pending.
pub proof fn lemma_follows_push<T>(
    answered: spec_fn(Option<u32>, Reply<T>) -> bool,
    replies: Seq<Reply<T>>,
    reply: Reply<T>,
)
    requires
        follows(answered, replies),
        state_after(replies).request_spec() matches Some(request) && answered(
            capacity_of(request),
            reply,
        ),
    ensures
        follows(answered, replies.push(reply)),
{
    let longer = replies.push(reply);
    assert forall|i: int| 0 <= i < longer.len() implies (#[trigger] state_after(
        longer.take(i),
    ).request_spec() matches Some(request) && answered(capacity_of(request), longer[i])) by {
        if i < replies.len() {
            assert(longer.take(i) =~= replies.take(i));
        } else {
            assert(longer.take(i) =~= replies);
        }
    }
}

/// An exchange with a driver is also one with any driver that may answer at
/// least as it did.
pub proof fn lemma_follows_weaker<T>(
    answered: spec_fn(Option<u32>, Reply<T>) -> bool,
    weaker: spec_fn(Option<u32>, Reply<T>) -> bool,
    replies: Seq<Reply<T>>,
)
    requires
        follows(answered, replies),
        forall|capacity: Option<u32>, reply: Reply<T>| #[trigger]
            answered(capacity, reply) ==> weaker(capacity, reply),
    ensures
        follows(weaker, replies),
{
    assert forall|i: int| 0 <= i < replies.len() implies (#[trigger] state_after(
        replies.take(i),
    ).request_spec() matches Some(request) && weaker(capacity_of(request), replies[i])) by {
        let request = state_after(replies.take(i)).request_spec().unwrap();
        assert(answered(capacity_of(request), replies[i]));
    }
}

/// What the protocol comes to with one driver, it may come to with any
/// driver that may answer at least as that one did.
pub proof fn lemma_enumerated_weaker<T>(
    answered: spec_fn(Option<u32>, Reply<T>) -> bool,
    weaker: spec_fn(Option<u32>, Reply<T>) -> bool,
    result: Result<Vec<T>, Error>,
)
    requires
        enumerated(answered, result),
        forall|capacity: Option<u32>, reply: Reply<T>| #[trigger]
            answered(capacity, reply) ==> weaker(capacity, reply),
    ensures
        enumerated(weaker, result),
{
    let replies = choose|replies: Seq<Reply<T>>| #[trigger]
        follows(answered, replies) && concludes(replies, result);
    lemma_follows_weaker(answered, weaker, replies);
}

/// Runs the protocol on `query`: count, fill, and again from the count
/// whenever the driver cuts a pass short, `MAX_PASSES` passes at most. Hands
/// out the records of the pass that held still, cut down to the count that the
/// driver wrote.
pub fn enumerate<T, Q: CountedQuery<T>>(query: &Q) -> (result: Result<Vec<T>, Error>)
    ensures
        enumerated(asked(query), result),
{
    let mut state = Enumeration::start();
    let mut records: Vec<T> = Vec::new();
    let ghost mut replies: Seq<Reply<T>> = Seq::empty();
    proof {
        assert(answers_of(replies) =~= Seq::<(i32, u32)>::empty());
    }
    loop
        invariant
            follows(asked(query), replies),
            state == state_after(replies),
            state.stage is Finished ==> replies.len() > 0 && records@ == replies.last().records@,
        decreases state.calls_left(),
    {
        match state.next() {
            Next::Ask(Request::Count) => {
                let reply = query.ask(None);
                proof {
                    lemma_state_after_push(replies, reply);
                    lemma_follows_push(asked(query), replies, reply);
                    replies = replies.push(reply);
                }
                state = state.advance(reply.status, reply.count);
            },
            Next::Ask(Request::Fill(capacity)) => {
                let reply = query.ask(Some(capacity));
                proof {
                    lemma_state_after_push(replies, reply);
                    lemma_follows_push(asked(query), replies, reply);
                    replies = replies.push(reply);
                }
                state = state.advance(reply.status, reply.count);
                records = reply.records;
            },
            Next::Done(Ok(count)) => {
                let out = keep(records, count);
                assert(concludes(replies, Ok::<Vec<T>, Error>(out)));
                return Ok(out);
            },
            Next::Done(Err(error)) => {
                assert(concludes(replies, Err::<Vec<T>, Error>(error)));
                return Err(error);
            },
        }
    }
}

/// An enumeration fails only for one of the reasons of
/// `enumeration_failure`, and hands out no more records than a count can
/// say, whatever the driver answers.
pub proof fn lemma_enumerated_outcomes<T>(
    answered: spec_fn(Option<u32>, Reply<T>) -> bool,
    result: Result<Vec<T>, Error>,
)
    requires
        enumerated(answered, result),
    ensures
        result matches Ok(records) ==> records@.len() <= u32::MAX,
        result matches Err(error) ==> enumeration_failure(error),
{
    let replies = choose|replies: Seq<Reply<T>>| #[trigger]
        follows(answered, replies) && concludes(replies, result);
    lemma_run_failures(Enumeration::start_spec(), answers_of(replies));
}

/// The state after the first `upto + 1` replies is one step on from the
/// state after the first `upto`.
pub proof fn lemma_state_after_take<T>(replies: Seq<Reply<T>>, upto: int)
    requires
        0 <= upto < replies.len(),
    ensures
        state_after(replies.take(upto + 1)) == state_after(replies.take(upto)).advance_spec(
            replies[upto].status,
            replies[upto].count,
        ),
{
    assert(replies.take(upto + 1) =~= replies.take(upto).push(replies[upto]));
    lemma_state_after_push(replies.take(upto), replies[upto]);
}

/// With a driver whose records hold still, an enumeration hands out exactly
/// the records that the driver has: where the driver always counts `count`
/// records and, given storage for that many, always writes `records`, which
/// are that many, the result is `records`, in the driver's order, and no
/// failure. A driver that has no records gives an empty result.
pub proof fn lemma_stable_driver<T>(
    answered: spec_fn(Option<u32>, Reply<T>) -> bool,
    result: Result<Vec<T>, Error>,
    count: u32,
    records: Seq<T>,
)
    requires
        enumerated(answered, result),
        records.len() == count,
        forall|reply: Reply<T>| #[trigger]
            answered(None, reply) ==> reply.status == 0 && reply.count == count,
        forall|reply: Reply<T>| #[trigger]
            answered(Some(count), reply) ==> reply.status == 0 && reply.count == count
                && reply.records@ =~= records,
    ensures
        result matches Ok(handed) && handed@ == records,
{
    crate::vk::Result::lemma_of_code_round_trip(crate::vk::Result::Success);
    let replies = choose|replies: Seq<Reply<T>>| #[trigger]
        follows(answered, replies) && concludes(replies, result);
    let start = Enumeration::start_spec();
    assert(answers_of(replies.take(0)) =~= Seq::<(i32, u32)>::empty());
    assert(state_after(replies.take(0)) == start);
    assert(replies.take(replies.len() as int) =~= replies);
    if replies.len() >= 1 {
        assert(state_after(replies.take(0)).request_spec() == Some(Request::Count));
        assert(answered(capacity_of(Request::Count), replies[0]));
        lemma_state_after_take(replies, 0);
        if replies.len() >= 2 {
            assert(state_after(replies.take(1)).request_spec() == Some(Request::Fill(count)));
            assert(answered(capacity_of(Request::Fill(count)), replies[1]));
            lemma_state_after_take(replies, 1);
            if replies.len() >= 3 {
                assert(state_after(replies.take(2)).request_spec().is_some());
            }
            lemma_stable_keeps_all(records, count);
        }
    }
}

/// No exchange is longer than two calls for each pass allowed, whatever
/// the driver answers.
pub proof fn lemma_exchange_bounded<T>(
    answered: spec_fn(Option<u32>, Reply<T>) -> bool,
    replies: Seq<Reply<T>>,
)
    requires
        follows(answered, replies),
    ensures
        replies.len() <= 2 * MAX_PASSES,
{
    if replies.len() > 0 {
        let before = replies.take(replies.len() - 1);
        assert(state_after(before).request_spec().is_some());
        assert(answers_of(before).len() == replies.len() - 1);
        lemma_calls_bounded(Enumeration::start_spec(), answers_of(before));
    }
}

/// Records are handed out only from a pass that held still: an exchange that
/// ends with records ends with a count that the driver gave with success,
/// then a fill with storage for exactly that count, which the driver
/// answered with success too. What is handed out is the storage of that
/// fill, cut to the count written, and never a pass that was cut short.
pub proof fn lemma_result_is_a_whole_pass<T>(
    answered: spec_fn(Option<u32>, Reply<T>) -> bool,
    replies: Seq<Reply<T>>,
    records: Vec<T>,
)
    requires
        follows(answered, replies),
        concludes(replies, Ok::<Vec<T>, Error>(records)),
    ensures
        replies.len() >= 2,
        replies[replies.len() - 2].status == 0,
        replies.last().status == 0,
        answered(None, replies[replies.len() - 2]),
        answered(Some(replies[replies.len() - 2].count), replies.last()),
        records@ == kept(
            replies.last().records@,
            least(replies.last().count, replies[replies.len() - 2].count),
        ),
{
    let len = replies.len() as int;
    assert(answers_of(replies.take(0)) =~= Seq::<(i32, u32)>::empty());
    assert(replies.take(len) =~= replies);
    assert(len >= 1);
    let filling = state_after(replies.take(len - 1));
    assert(filling.request_spec().is_some());
    lemma_state_after_take(replies, len - 1);
    assert(len >= 2);
    let counting = state_after(replies.take(len - 2));
    assert(counting.request_spec().is_some());
    lemma_state_after_take(replies, len - 2);
}

} // verus!
