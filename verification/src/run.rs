//! Whole runs of the handler, and what holds of every one of them.
//!
//! A run is the list of actions that the handler asks for while one request
//! is served: the first action, then one action for each event that the stage
//! of the request was waiting for.

use vstd::prelude::*;
use crate::handler::{
    accepted, is_client_error, point_failure_response, rejected, step_spec, stored_response,
    write_failure_response, ActionView, EventView, RejectionView, ResponseView, StageView,
};
use crate::point::{point_of, BUCKET};
use crate::reading::{stamped, SensorDataView, Timestamp};

verus! {

/// The actions asked for, in order, when `events` are reported one after
/// another to a request that stands in `stage`.
pub open spec fn actions_from(stage: StageView, events: Seq<EventView>) -> Seq<ActionView>
    decreases events.len(),
{
    if events.len() == 0 {
        Seq::empty()
    } else {
        let next = step_spec(stage, events.first());
        let rest = actions_from(next.0, events.drop_first());
        match next.1 {
            Some(action) => seq![action] + rest,
            None => rest,
        }
    }
}

/// The whole run of a request that started as `start` and was then reported
/// `events`.
pub open spec fn run(start: (StageView, ActionView), events: Seq<EventView>) -> Seq<ActionView> {
    seq![start.1] + actions_from(start.0, events)
}

/// How many of `actions` are of the `wanted` kind.
pub open spec fn count(actions: Seq<ActionView>, wanted: spec_fn(ActionView) -> bool) -> nat
    decreases actions.len(),
{
    if actions.len() == 0 {
        0
    } else {
        count(actions.drop_last(), wanted) + if wanted(actions.last()) {
            1nat
        } else {
            0nat
        }
    }
}

/// How many log entries `actions` ask for.
pub open spec fn logs(actions: Seq<ActionView>) -> nat {
    count(actions, |a: ActionView| a is Log)
}

/// How many points `actions` ask to construct.
pub open spec fn builds(actions: Seq<ActionView>) -> nat {
    count(actions, |a: ActionView| a is BuildPoint)
}

/// How many writes to the store `actions` ask for.
pub open spec fn writes(actions: Seq<ActionView>) -> nat {
    count(actions, |a: ActionView| a is Write)
}

/// How many responses `actions` give.
pub open spec fn responses(actions: Seq<ActionView>) -> nat {
    count(actions, |a: ActionView| a is Respond)
}

proof fn lemma_count_one(action: ActionView, wanted: spec_fn(ActionView) -> bool)
    ensures
        count(seq![action], wanted) == if wanted(action) {
            1nat
        } else {
            0nat
        },
{
    reveal_with_fuel(count, 2);
    assert(seq![action].drop_last() =~= Seq::<ActionView>::empty());
}

proof fn lemma_count_concat(
    front: Seq<ActionView>,
    back: Seq<ActionView>,
    wanted: spec_fn(ActionView) -> bool,
)
    ensures
        count(front + back, wanted) == count(front, wanted) + count(back, wanted),
    decreases back.len(),
{
    if back.len() == 0 {
        assert(front + back =~= front);
    } else {
        assert((front + back).drop_last() =~= front + back.drop_last());
        lemma_count_concat(front, back.drop_last(), wanted);
    }
}

proof fn lemma_count_four(
    a: ActionView,
    b: ActionView,
    c: ActionView,
    d: ActionView,
    wanted: spec_fn(ActionView) -> bool,
)
    ensures
        count(seq![a, b, c, d], wanted) == count(seq![a], wanted) + count(seq![b], wanted) + count(
            seq![c],
            wanted,
        ) + count(seq![d], wanted),
{
    assert(seq![a, b, c, d] =~= seq![a] + seq![b] + seq![c] + seq![d]);
    lemma_count_concat(seq![a] + seq![b] + seq![c], seq![d], wanted);
    lemma_count_concat(seq![a] + seq![b], seq![c], wanted);
    lemma_count_concat(seq![a], seq![b], wanted);
}

proof fn lemma_count_three(
    a: ActionView,
    b: ActionView,
    c: ActionView,
    wanted: spec_fn(ActionView) -> bool,
)
    ensures
        count(seq![a, b, c], wanted) == count(seq![a], wanted) + count(seq![b], wanted) + count(
            seq![c],
            wanted,
        ),
{
    assert(seq![a, b, c] =~= seq![a] + seq![b] + seq![c]);
    lemma_count_concat(seq![a] + seq![b], seq![c], wanted);
    lemma_count_concat(seq![a], seq![b], wanted);
}

/// Once the response was given, no event brings another action.
pub proof fn lemma_done_is_silent(events: Seq<EventView>)
    ensures
        actions_from(StageView::Done, events) == Seq::<ActionView>::empty(),
    decreases events.len(),
{
    if events.len() > 0 {
        lemma_done_is_silent(events.drop_first());
    }
}

spec fn builds_left(stage: StageView) -> nat {
    if stage is AwaitingLog {
        1
    } else {
        0
    }
}

spec fn writes_left(stage: StageView) -> nat {
    if stage is AwaitingLog || stage is AwaitingPoint {
        1
    } else {
        0
    }
}

spec fn responses_left(stage: StageView) -> nat {
    if stage is Done {
        0
    } else {
        1
    }
}

proof fn lemma_actions_within_what_is_left(stage: StageView, events: Seq<EventView>)
    ensures
        logs(actions_from(stage, events)) == 0,
        builds(actions_from(stage, events)) <= builds_left(stage),
        writes(actions_from(stage, events)) <= writes_left(stage),
        responses(actions_from(stage, events)) <= responses_left(stage),
    decreases events.len(),
{
    if events.len() > 0 {
        let next = step_spec(stage, events.first());
        let rest = actions_from(next.0, events.drop_first());
        lemma_actions_within_what_is_left(next.0, events.drop_first());
        match next.1 {
            Some(action) => {
                lemma_count_concat(seq![action], rest, |a: ActionView| a is Log);
                lemma_count_concat(seq![action], rest, |a: ActionView| a is BuildPoint);
                lemma_count_concat(seq![action], rest, |a: ActionView| a is Write);
                lemma_count_concat(seq![action], rest, |a: ActionView| a is Respond);
                lemma_count_one(action, |a: ActionView| a is Log);
                lemma_count_one(action, |a: ActionView| a is BuildPoint);
                lemma_count_one(action, |a: ActionView| a is Write);
                lemma_count_one(action, |a: ActionView| a is Respond);
            },
            None => {},
        }
    }
}

/// Whatever is reported, in whatever order, a request whose body was decoded
/// is logged exactly once, and its point is constructed at most once, written
/// at most once, and answered at most once.
pub proof fn lemma_accepted_run_is_orderly(
    reading: SensorDataView,
    received_at: Timestamp,
    events: Seq<EventView>,
)
    ensures
        run(accepted(reading, received_at), events)[0] == ActionView::Log(
            stamped(reading, received_at),
        ),
        logs(run(accepted(reading, received_at), events)) == 1,
        builds(run(accepted(reading, received_at), events)) <= 1,
        writes(run(accepted(reading, received_at), events)) <= 1,
        responses(run(accepted(reading, received_at), events)) <= 1,
{
    let start = accepted(reading, received_at);
    let rest = actions_from(start.0, events);
    lemma_actions_within_what_is_left(start.0, events);
    lemma_count_concat(seq![start.1], rest, |a: ActionView| a is Log);
    lemma_count_concat(seq![start.1], rest, |a: ActionView| a is BuildPoint);
    lemma_count_concat(seq![start.1], rest, |a: ActionView| a is Write);
    lemma_count_concat(seq![start.1], rest, |a: ActionView| a is Respond);
    lemma_count_one(start.1, |a: ActionView| a is Log);
    lemma_count_one(start.1, |a: ActionView| a is BuildPoint);
    lemma_count_one(start.1, |a: ActionView| a is Write);
    lemma_count_one(start.1, |a: ActionView| a is Respond);
}

/// The first of several events is taken by one step; the rest follow from
/// the stage that the step leads to.
proof fn lemma_actions_unfold(stage: StageView, event: EventView, rest: Seq<EventView>)
    ensures
        actions_from(stage, seq![event] + rest) == match step_spec(stage, event).1 {
            Some(action) => seq![action] + actions_from(step_spec(stage, event).0, rest),
            None => actions_from(step_spec(stage, event).0, rest),
        },
{
    let events = seq![event] + rest;
    assert(events.first() == event);
    assert(events.drop_first() =~= rest);
}

/// A request whose record was logged, whose point was constructed and whose
/// point the store took: the record of the reading with its receipt time is
/// logged, the point of the reading is constructed, one write goes to the
/// bucket, and the answer is `200` without a body.  Whatever is reported
/// after that changes nothing.
pub proof fn lemma_stored_run(reading: SensorDataView, received_at: Timestamp, more: Seq<EventView>)
    ensures
        run(
            accepted(reading, received_at),
            seq![EventView::Logged, EventView::PointBuilt, EventView::Written] + more,
        ) == seq![
            ActionView::Log(stamped(reading, received_at)),
            ActionView::BuildPoint(point_of(reading)),
            ActionView::Write(BUCKET@),
            ActionView::Respond(stored_response()),
        ],
        logs(
            run(
                accepted(reading, received_at),
                seq![EventView::Logged, EventView::PointBuilt, EventView::Written] + more,
            ),
        ) == 1,
        writes(
            run(
                accepted(reading, received_at),
                seq![EventView::Logged, EventView::PointBuilt, EventView::Written] + more,
            ),
        ) == 1,
        stored_response().status == 200,
        stored_response().body.len() == 0,
{
    let start = accepted(reading, received_at);
    let events = seq![EventView::Logged, EventView::PointBuilt, EventView::Written] + more;
    let after_build = seq![EventView::PointBuilt] + (seq![EventView::Written] + more);
    assert(events =~= seq![EventView::Logged] + after_build);
    lemma_actions_unfold(start.0, EventView::Logged, after_build);
    lemma_actions_unfold(StageView::AwaitingPoint, EventView::PointBuilt, seq![EventView::Written] + more);
    lemma_actions_unfold(StageView::AwaitingWrite, EventView::Written, more);
    lemma_done_is_silent(more);
    let a = ActionView::Log(stamped(reading, received_at));
    let b = ActionView::BuildPoint(point_of(reading));
    let c = ActionView::Write(BUCKET@);
    let d = ActionView::Respond(stored_response());
    assert(run(start, events) =~= seq![a, b, c, d]);
    lemma_count_four(a, b, c, d, |x: ActionView| x is Log);
    lemma_count_four(a, b, c, d, |x: ActionView| x is Write);
    lemma_count_one(a, |x: ActionView| x is Log);
    lemma_count_one(b, |x: ActionView| x is Log);
    lemma_count_one(c, |x: ActionView| x is Log);
    lemma_count_one(d, |x: ActionView| x is Log);
    lemma_count_one(a, |x: ActionView| x is Write);
    lemma_count_one(b, |x: ActionView| x is Write);
    lemma_count_one(c, |x: ActionView| x is Write);
    lemma_count_one(d, |x: ActionView| x is Write);
}

/// A request whose point the store did not take: one write went to the
/// bucket, the answer is `500` with a body that names the failure, and no
/// second write follows, whatever is reported after that.
pub proof fn lemma_write_failure_run(
    reading: SensorDataView,
    received_at: Timestamp,
    error: Seq<char>,
    more: Seq<EventView>,
)
    ensures
        run(
            accepted(reading, received_at),
            seq![EventView::Logged, EventView::PointBuilt, EventView::WriteFailed(error)] + more,
        ) == seq![
            ActionView::Log(stamped(reading, received_at)),
            ActionView::BuildPoint(point_of(reading)),
            ActionView::Write(BUCKET@),
            ActionView::Respond(write_failure_response(error)),
        ],
        writes(
            run(
                accepted(reading, received_at),
                seq![EventView::Logged, EventView::PointBuilt, EventView::WriteFailed(error)]
                    + more,
            ),
        ) == 1,
        write_failure_response(error).status == 500,
        write_failure_response(error).body == "Influx write error: "@ + error,
{
    let start = accepted(reading, received_at);
    let failed = EventView::WriteFailed(error);
    let events = seq![EventView::Logged, EventView::PointBuilt, failed] + more;
    let after_build = seq![EventView::PointBuilt] + (seq![failed] + more);
    assert(events =~= seq![EventView::Logged] + after_build);
    lemma_actions_unfold(start.0, EventView::Logged, after_build);
    lemma_actions_unfold(StageView::AwaitingPoint, EventView::PointBuilt, seq![failed] + more);
    lemma_actions_unfold(StageView::AwaitingWrite, failed, more);
    lemma_done_is_silent(more);
    let a = ActionView::Log(stamped(reading, received_at));
    let b = ActionView::BuildPoint(point_of(reading));
    let c = ActionView::Write(BUCKET@);
    let d = ActionView::Respond(write_failure_response(error));
    assert(run(start, events) =~= seq![a, b, c, d]);
    lemma_count_four(a, b, c, d, |x: ActionView| x is Write);
    lemma_count_one(a, |x: ActionView| x is Write);
    lemma_count_one(b, |x: ActionView| x is Write);
    lemma_count_one(c, |x: ActionView| x is Write);
    lemma_count_one(d, |x: ActionView| x is Write);
}

/// A request whose point could not be constructed: the answer is `500` with
/// a body that names the failure, and no write is asked for, whatever is
/// reported after that.
pub proof fn lemma_point_failure_run(
    reading: SensorDataView,
    received_at: Timestamp,
    error: Seq<char>,
    more: Seq<EventView>,
)
    ensures
        run(
            accepted(reading, received_at),
            seq![EventView::Logged, EventView::PointRejected(error)] + more,
        ) == seq![
            ActionView::Log(stamped(reading, received_at)),
            ActionView::BuildPoint(point_of(reading)),
            ActionView::Respond(point_failure_response(error)),
        ],
        writes(
            run(
                accepted(reading, received_at),
                seq![EventView::Logged, EventView::PointRejected(error)] + more,
            ),
        ) == 0,
        point_failure_response(error).status == 500,
        point_failure_response(error).body == "DataPoint error: "@ + error,
{
    let start = accepted(reading, received_at);
    let failed = EventView::PointRejected(error);
    let events = seq![EventView::Logged, failed] + more;
    assert(events =~= seq![EventView::Logged] + (seq![failed] + more));
    lemma_actions_unfold(start.0, EventView::Logged, seq![failed] + more);
    lemma_actions_unfold(StageView::AwaitingPoint, failed, more);
    lemma_done_is_silent(more);
    let a = ActionView::Log(stamped(reading, received_at));
    let b = ActionView::BuildPoint(point_of(reading));
    let c = ActionView::Respond(point_failure_response(error));
    assert(run(start, events) =~= seq![a, b, c]);
    lemma_count_three(a, b, c, |x: ActionView| x is Write);
    lemma_count_one(a, |x: ActionView| x is Write);
    lemma_count_one(b, |x: ActionView| x is Write);
    lemma_count_one(c, |x: ActionView| x is Write);
}

/// A request whose body was not decoded is answered with the decoder's
/// client error and with nothing else: no log entry, no point, no write,
/// whatever is reported.
pub proof fn lemma_rejected_run(rejection: RejectionView, events: Seq<EventView>)
    requires
        is_client_error(rejection.status),
    ensures
        run(rejected(rejection), events) == seq![
            ActionView::Respond(
                ResponseView { status: rejection.status, body: rejection.message },
            ),
        ],
        logs(run(rejected(rejection), events)) == 0,
        builds(run(rejected(rejection), events)) == 0,
        writes(run(rejected(rejection), events)) == 0,
        400 <= rejection.status <= 499,
{
    lemma_done_is_silent(events);
    let a = rejected(rejection).1;
    assert(run(rejected(rejection), events) =~= seq![a]);
    lemma_count_one(a, |x: ActionView| x is Log);
    lemma_count_one(a, |x: ActionView| x is BuildPoint);
    lemma_count_one(a, |x: ActionView| x is Write);
}

/// The same reading submitted twice is served twice: each request has its
/// own run, with its own write of the same point.  The two runs differ in
/// nothing but the receipt time of the record that is logged.
pub proof fn lemma_same_reading_twice(
    reading: SensorDataView,
    first: Timestamp,
    second: Timestamp,
    events: Seq<EventView>,
)
    ensures
        run(accepted(reading, first), events).len() == run(accepted(reading, second), events).len(),
        run(accepted(reading, first), events)[0] == ActionView::Log(stamped(reading, first)),
        run(accepted(reading, second), events)[0] == ActionView::Log(stamped(reading, second)),
        stamped(reading, first).reading() == stamped(reading, second).reading(),
        forall|i: int|
            1 <= i < run(accepted(reading, first), events).len() ==> run(
                accepted(reading, first),
                events,
            )[i] == run(accepted(reading, second), events)[i],
        writes(run(accepted(reading, first), events)) == writes(
            run(accepted(reading, second), events),
        ),
{
    let rest = actions_from(StageView::AwaitingLog(point_of(reading)), events);
    let a = ActionView::Log(stamped(reading, first));
    let b = ActionView::Log(stamped(reading, second));
    lemma_count_concat(seq![a], rest, |x: ActionView| x is Write);
    lemma_count_concat(seq![b], rest, |x: ActionView| x is Write);
    lemma_count_one(a, |x: ActionView| x is Write);
    lemma_count_one(b, |x: ActionView| x is Write);
}

} // verus!
