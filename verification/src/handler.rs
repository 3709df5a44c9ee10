//! One request, from arrival to response.
//!
//! The handler decides; the program around it acts.  A request starts with
//! [`accept`] (its body was decoded into a reading) or [`reject`] (it was not).
//! Either hands back the [`Stage`] the request is in and the first [`Action`]
//! to perform.  After each action the program reports what happened as an
//! [`Event`] to [`step`], which hands back the next stage and action, until
//! the action is [`Action::Respond`].
//!
//! An accepted request is logged first, then its point is constructed, then
//! the point is written, once; the first failure ends the request with a
//! server error.  Nothing is kept from one request to the next.

use vstd::prelude::*;
use crate::clock::receipt_time;
use crate::point::{point_of, Point, PointView, BUCKET};
use crate::reading::{
    stamped, SensorData, SensorDataView, SensorDataWithTimestamp, SensorDataWithTimestampView,
    Timestamp,
};

verus! {

/// The path of the one route that the service offers, for `POST` requests
/// with a JSON body.
pub const ROUTE: &'static str = "/sensors";

/// The status of a request that was handled in full.
pub const STATUS_OK: u16 = 200;

/// The status of a request whose point could not be constructed or written.
pub const STATUS_INTERNAL_SERVER_ERROR: u16 = 500;

/// An HTTP response: a status code and a plain-text body.
#[derive(Clone, Debug, PartialEq, Eq)]
pub struct Response {
    pub status: u16,
    pub body: String,
}

/// What a [`Response`] holds, as mathematical values.
pub struct ResponseView {
    pub status: u16,
    pub body: Seq<char>,
}

impl View for Response {
    type V = ResponseView;

    open spec fn view(&self) -> ResponseView {
        ResponseView { status: self.status, body: self.body@ }
    }
}

/// Whether `status` is in the client-error class.
pub open spec fn is_client_error(status: u16) -> bool {
    400 <= status <= 499
}

/// The response to a request that was handled in full: no body.
pub open spec fn stored_response() -> ResponseView {
    ResponseView { status: STATUS_OK, body: Seq::empty() }
}

/// The response to a request whose point could not be constructed; `error`
/// describes why.
pub open spec fn point_failure_response(error: Seq<char>) -> ResponseView {
    ResponseView { status: STATUS_INTERNAL_SERVER_ERROR, body: "DataPoint error: "@ + error }
}

/// The response to a request whose point the store did not take; `error`
/// describes why.
pub open spec fn write_failure_response(error: Seq<char>) -> ResponseView {
    ResponseView { status: STATUS_INTERNAL_SERVER_ERROR, body: "Influx write error: "@ + error }
}

impl Response {
    /// The response to a request that was handled in full.
    pub fn stored() -> (response: Response)
        ensures
            response@ == stored_response(),
    {
        Response { status: STATUS_OK, body: String::new() }
    }

    /// The response to a request whose point could not be constructed.
    pub fn point_failure(error: &str) -> (response: Response)
        ensures
            response@ == point_failure_response(error@),
    {
        let mut body = "DataPoint error: ".to_owned();
        body.append(error);
        Response { status: STATUS_INTERNAL_SERVER_ERROR, body }
    }

    /// The response to a request whose point the store did not take.
    pub fn write_failure(error: &str) -> (response: Response)
        ensures
            response@ == write_failure_response(error@),
    {
        let mut body = "Influx write error: ".to_owned();
        body.append(error);
        Response { status: STATUS_INTERNAL_SERVER_ERROR, body }
    }
}

/// Why a request body was not decoded into a reading: the client error that
/// the decoder answers with.  Its status is always in the client-error class.
#[derive(Debug, PartialEq, Eq)]
pub struct Rejection {
    status: u16,
    message: String,
}

/// What a [`Rejection`] holds, as mathematical values.
pub struct RejectionView {
    pub status: u16,
    pub message: Seq<char>,
}

impl View for Rejection {
    type V = RejectionView;

    closed spec fn view(&self) -> RejectionView {
        RejectionView { status: self.status, message: self.message@ }
    }
}

impl Rejection {
    #[verifier::type_invariant]
    spec fn holds_client_error(self) -> bool {
        is_client_error(self.status)
    }

    /// A rejection with the given status and message, if the status is a
    /// client error; nothing otherwise.
    pub fn new(status: u16, message: String) -> (rejection: Option<Rejection>)
        ensures
            is_client_error(status) <==> rejection is Some,
            rejection matches Some(r) ==> r@ == (RejectionView { status, message: message@ }),
    {
        if 400 <= status && status <= 499 {
            Some(Rejection { status, message })
        } else {
            None
        }
    }

    /// The status that the decoder answers with.
    pub fn status(&self) -> (status: u16)
        ensures
            status == self@.status,
            is_client_error(status),
    {
        proof {
            use_type_invariant(self);
        }
        self.status
    }

    /// The text that the decoder answers with.
    pub fn message(&self) -> (message: &str)
        ensures
            message@ == self@.message,
    {
        self.message.as_str()
    }
}

/// How far a request has come.
#[derive(Clone, Debug, PartialEq, Eq)]
pub enum Stage {
    /// The record is being logged; the point waits to be constructed.
    AwaitingLog(Point),
    /// The point is being constructed.
    AwaitingPoint,
    /// The point is being written to the store.
    AwaitingWrite,
    /// The response was given.  Nothing more happens.
    Done,
}

/// What the program reports back after performing an action.
#[derive(Clone, Debug, PartialEq, Eq)]
pub enum Event {
    /// The record was logged.
    Logged,
    /// The point was constructed.
    PointBuilt,
    /// The point could not be constructed, for the reason given.
    PointRejected(String),
    /// The store took the point.
    Written,
    /// The store did not take the point, for the reason given.
    WriteFailed(String),
}

/// What the program is to do next.
#[derive(Clone, Debug, PartialEq, Eq)]
pub enum Action {
    /// Write one log entry that holds this record.
    Log(SensorDataWithTimestamp),
    /// Construct this point for the store.
    BuildPoint(Point),
    /// Write the constructed point, alone and once, to the bucket named.
    Write(String),
    /// Answer the request with this response.
    Respond(Response),
}

/// What a [`Stage`] holds, as mathematical values.
pub enum StageView {
    AwaitingLog(PointView),
    AwaitingPoint,
    AwaitingWrite,
    Done,
}

/// What an [`Event`] holds, as mathematical values.
pub enum EventView {
    Logged,
    PointBuilt,
    PointRejected(Seq<char>),
    Written,
    WriteFailed(Seq<char>),
}

/// What an [`Action`] holds, as mathematical values.
pub enum ActionView {
    Log(SensorDataWithTimestampView),
    BuildPoint(PointView),
    Write(Seq<char>),
    Respond(ResponseView),
}

impl View for Stage {
    type V = StageView;

    open spec fn view(&self) -> StageView {
        match self {
            Stage::AwaitingLog(point) => StageView::AwaitingLog(point@),
            Stage::AwaitingPoint => StageView::AwaitingPoint,
            Stage::AwaitingWrite => StageView::AwaitingWrite,
            Stage::Done => StageView::Done,
        }
    }
}

impl View for Event {
    type V = EventView;

    open spec fn view(&self) -> EventView {
        match self {
            Event::Logged => EventView::Logged,
            Event::PointBuilt => EventView::PointBuilt,
            Event::PointRejected(error) => EventView::PointRejected(error@),
            Event::Written => EventView::Written,
            Event::WriteFailed(error) => EventView::WriteFailed(error@),
        }
    }
}

impl View for Action {
    type V = ActionView;

    open spec fn view(&self) -> ActionView {
        match self {
            Action::Log(record) => ActionView::Log(record@),
            Action::BuildPoint(point) => ActionView::BuildPoint(point@),
            Action::Write(bucket) => ActionView::Write(bucket@),
            Action::Respond(response) => ActionView::Respond(response@),
        }
    }
}

/// The view of an action that may be absent.
pub open spec fn action_view(action: Option<Action>) -> Option<ActionView> {
    match action {
        Some(a) => Some(a@),
        None => None,
    }
}

/// How a request starts whose body was decoded into `reading` and received at
/// `received_at`: the record is to be logged, and the point waits.
pub open spec fn accepted(reading: SensorDataView, received_at: Timestamp) -> (StageView, ActionView) {
    (StageView::AwaitingLog(point_of(reading)), ActionView::Log(stamped(reading, received_at)))
}

/// How a request starts, and ends, whose body was not decoded: it is answered
/// with the decoder's client error.
pub open spec fn rejected(rejection: RejectionView) -> (StageView, ActionView) {
    (
        StageView::Done,
        ActionView::Respond(ResponseView { status: rejection.status, body: rejection.message }),
    )
}

/// The stage that follows `stage` when `event` is reported, and the action to
/// perform then.  An event that `stage` does not wait for changes nothing and
/// asks for nothing.
pub open spec fn step_spec(stage: StageView, event: EventView) -> (StageView, Option<ActionView>) {
    match (stage, event) {
        (StageView::AwaitingLog(point), EventView::Logged) => (
            StageView::AwaitingPoint,
            Some(ActionView::BuildPoint(point)),
        ),
        (StageView::AwaitingPoint, EventView::PointBuilt) => (
            StageView::AwaitingWrite,
            Some(ActionView::Write(BUCKET@)),
        ),
        (StageView::AwaitingPoint, EventView::PointRejected(error)) => (
            StageView::Done,
            Some(ActionView::Respond(point_failure_response(error))),
        ),
        (StageView::AwaitingWrite, EventView::Written) => (
            StageView::Done,
            Some(ActionView::Respond(stored_response())),
        ),
        (StageView::AwaitingWrite, EventView::WriteFailed(error)) => (
            StageView::Done,
            Some(ActionView::Respond(write_failure_response(error))),
        ),
        _ => (stage, None),
    }
}

/// Starts a request whose body was decoded into `reading` and received at
/// `received_at`.
pub fn accept_at(reading: SensorData, received_at: Timestamp) -> (started: (Stage, Action))
    ensures
        (started.0@, started.1@) == accepted(reading@, received_at),
{
    let record = reading.stamp(received_at);
    let point = reading.to_point();
    (Stage::AwaitingLog(point), Action::Log(record))
}

/// Starts a request whose body was decoded into `reading`, received now.
///
/// The receipt time is read from the server's clock: nothing that the client
/// sent has a part in it.
pub fn accept(reading: SensorData) -> (started: (Stage, Action))
    ensures
        exists|received_at: Timestamp|
            (started.0@, started.1@) == #[trigger] accepted(reading@, received_at),
{
    let now = receipt_time();
    accept_at(reading, now)
}

/// Starts, and ends, a request whose body was not decoded: it is answered
/// with the decoder's client error, and nothing else is done.
pub fn reject(rejection: Rejection) -> (started: (Stage, Action))
    ensures
        (started.0@, started.1@) == rejected(rejection@),
        is_client_error(rejection@.status),
{
    proof {
        use_type_invariant(&rejection);
    }
    let response = Response { status: rejection.status, body: rejection.message };
    (Stage::Done, Action::Respond(response))
}

/// Takes the report of what happened to the last action and decides what
/// comes next.
pub fn step(stage: Stage, event: Event) -> (next: (Stage, Option<Action>))
    ensures
        (next.0@, action_view(next.1)) == step_spec(stage@, event@),
{
    match stage {
        Stage::AwaitingLog(point) => match event {
            Event::Logged => (Stage::AwaitingPoint, Some(Action::BuildPoint(point))),
            _ => (Stage::AwaitingLog(point), None),
        },
        Stage::AwaitingPoint => match event {
            Event::PointBuilt => (Stage::AwaitingWrite, Some(Action::Write(BUCKET.to_owned()))),
            Event::PointRejected(error) => (
                Stage::Done,
                Some(Action::Respond(Response::point_failure(error.as_str()))),
            ),
            _ => (Stage::AwaitingPoint, None),
        },
        Stage::AwaitingWrite => match event {
            Event::Written => (Stage::Done, Some(Action::Respond(Response::stored()))),
            Event::WriteFailed(error) => (
                Stage::Done,
                Some(Action::Respond(Response::write_failure(error.as_str()))),
            ),
            _ => (Stage::AwaitingWrite, None),
        },
        Stage::Done => (Stage::Done, None),
    }
}

} // verus!
