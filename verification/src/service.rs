//! The two operations of the service, list and insert, as the decisions that
//! a request handler takes between the steps that its host performs for it.
//!
//! A handler never reaches the store itself. It tells its host the next step
//! (open a connection, run one statement, answer the caller) and is told
//! what came of it. So the rules of a request are proved here, and the host
//! is left with the waiting.

use vstd::prelude::*;
use crate::identity::fresh_id;
use crate::identity::is_random_uuid_text;
use crate::model::DisplayError;
use crate::model::Failure;
use crate::model::NewParticleCount;
use crate::model::ParticleCount;
use crate::model::Reading;
use crate::wire::decode_payload;
use crate::wire::read_payload;

verus! {

/// The address that the service binds to where none is configured.
pub const DEFAULT_HOST: &'static str = "0.0.0.0:3000";

/// The address to bind to: the configured one, or `DEFAULT_HOST`.
pub fn api_host(configured: Option<String>) -> (host: String)
    ensures
        host@ == match configured {
            Some(address) => address@,
            None => DEFAULT_HOST@,
        },
{
    match configured {
        Some(address) => address,
        None => String::from_str(DEFAULT_HOST),
    }
}

/// The words of the failure where no connection string is configured.
pub const NO_DATABASE_URL: &'static str = "DATABASE_URL must be set";

/// The connection string of the database: the configured one. The
/// relational store cannot be reached without it, so its lack is a failure
/// of the connection.
pub fn database_url(configured: Option<String>) -> (url: Result<String, DisplayError>)
    ensures
        match configured {
            Some(given) => url matches Ok(found) && found@ == given@,
            None => url matches Err(failure) && failure@ == Failure::ConnectionError(
                NO_DATABASE_URL@,
            ),
        },
{
    match configured {
        Some(given) => Ok(given),
        None => Err(DisplayError::ConnectionError(String::from_str(NO_DATABASE_URL))),
    }
}

/// What a caller asks of the service.
#[derive(Debug, Clone, PartialEq, Eq)]
pub enum Request {
    /// All stored readings.
    List,
    /// To store the reading that the body submits.
    Insert(String),
}

/// What the host reports of the step that it was told to perform.
#[derive(Debug, Clone, PartialEq, Eq)]
pub enum Event {
    /// The connection is open.
    Connected,
    /// No connection could be opened; the text tells why.
    ConnectionFailed(String),
    /// The store gave all its readings.
    Listed(Vec<ParticleCount>),
    /// The store took the reading and gave back what it stored.
    Stored(ParticleCount),
    /// The store refused the statement; the text tells why.
    StoreFailed(String),
}

/// What the caller is answered.
#[derive(Debug, Clone, PartialEq, Eq)]
pub enum Reply {
    /// The stored readings, in the order of the store.
    Records(Vec<ParticleCount>),
    /// The reading as it was stored.
    Record(ParticleCount),
    /// The request failed. The kind is kept here; the caller is sent the
    /// detail alone.
    Failure(DisplayError),
}

/// What the host is to do next.
#[derive(Debug, Clone, PartialEq, Eq)]
pub enum Step {
    /// Open a connection to the store.
    Connect,
    /// Select every reading.
    Query,
    /// Insert the reading and have the stored row returned, in one statement.
    Store(NewParticleCount),
    /// Answer the caller. The request is done.
    Reply(Reply),
}

/// How far a request has come.
#[derive(Debug, Clone, Copy, PartialEq, Eq, Structural)]
pub enum Stage {
    /// The connection is awaited; with it goes the reading to insert, if the
    /// request is an insert.
    Connecting(Option<NewParticleCount>),
    /// The readings are awaited.
    Querying,
    /// The stored reading is awaited.
    Storing,
    /// The caller was answered.
    Done,
}

/// A request as plain values.
pub enum Ask {
    List,
    Insert(Seq<char>),
}

/// A report of the host as plain values.
pub enum Report {
    Connected,
    ConnectionFailed(Seq<char>),
    Listed(Seq<Reading>),
    Stored(Reading),
    StoreFailed(Seq<char>),
}

/// An answer as plain values.
pub enum Answer {
    Records(Seq<Reading>),
    Record(Reading),
    Failure(Failure),
}

/// A step as plain values.
pub enum Move {
    Connect,
    Query,
    Store(NewParticleCount),
    Reply(Answer),
}

impl View for Request {
    type V = Ask;

    open spec fn view(&self) -> Ask {
        match self {
            Request::List => Ask::List,
            Request::Insert(body) => Ask::Insert(body@),
        }
    }
}

impl View for Event {
    type V = Report;

    open spec fn view(&self) -> Report {
        match self {
            Event::Connected => Report::Connected,
            Event::ConnectionFailed(why) => Report::ConnectionFailed(why@),
            Event::Listed(readings) => Report::Listed(readings.deep_view()),
            Event::Stored(reading) => Report::Stored(reading@),
            Event::StoreFailed(why) => Report::StoreFailed(why@),
        }
    }
}

impl View for Reply {
    type V = Answer;

    open spec fn view(&self) -> Answer {
        match self {
            Reply::Records(readings) => Answer::Records(readings.deep_view()),
            Reply::Record(reading) => Answer::Record(reading@),
            Reply::Failure(failure) => Answer::Failure(failure@),
        }
    }
}

impl View for Step {
    type V = Move;

    open spec fn view(&self) -> Move {
        match self {
            Step::Connect => Move::Connect,
            Step::Query => Move::Query,
            Step::Store(reading) => Move::Store(*reading),
            Step::Reply(reply) => Move::Reply(reply@),
        }
    }
}

/// The words of the failure that answers a report which the stage did not
/// await.
pub open spec fn out_of_turn() -> Seq<char> {
    "the store was heard out of turn"@
}

/// The first decision on a request. A list goes on to the connection. An
/// insert does so with the reading that its body submits; a body that
/// submits none is answered at once with a `Serde` failure, and the store is
/// not reached. The words of that failure are those of the fault among the
/// members; where the body is no JSON object they are not fixed.
pub open spec fn is_first_move(ask: Ask, stage: Stage, step: Move) -> bool {
    match ask {
        Ask::List => stage == Stage::Connecting(None) && step == Move::Connect,
        Ask::Insert(body) => match decode_payload(body) {
            Ok(reading) => stage == Stage::Connecting(Some(reading)) && step == Move::Connect,
            Err(Some(words)) => stage == Stage::Done && step == Move::Reply(
                Answer::Failure(Failure::Serde(words)),
            ),
            Err(None) => stage == Stage::Done && step matches Move::Reply(
                Answer::Failure(Failure::Serde(_)),
            ),
        },
    }
}

/// The decision on a report. With the connection open the one statement of
/// the request follows; what the store gives is the answer. A failure is
/// answered as it is, under its kind. A report that the stage does not await
/// ends the request with a failure.
pub open spec fn next_move(stage: Stage, report: Report) -> (Stage, Move) {
    match (stage, report) {
        (Stage::Connecting(None), Report::Connected) => (Stage::Querying, Move::Query),
        (Stage::Connecting(Some(reading)), Report::Connected) => (
            Stage::Storing,
            Move::Store(reading),
        ),
        (Stage::Connecting(_), Report::ConnectionFailed(why)) => (
            Stage::Done,
            Move::Reply(Answer::Failure(Failure::ConnectionError(why))),
        ),
        (Stage::Querying, Report::Listed(readings)) => (
            Stage::Done,
            Move::Reply(Answer::Records(readings)),
        ),
        (Stage::Storing, Report::Stored(reading)) => (
            Stage::Done,
            Move::Reply(Answer::Record(reading)),
        ),
        (Stage::Querying, Report::StoreFailed(why)) => (
            Stage::Done,
            Move::Reply(Answer::Failure(Failure::DatabaseError(why))),
        ),
        (Stage::Storing, Report::StoreFailed(why)) => (
            Stage::Done,
            Move::Reply(Answer::Failure(Failure::DatabaseError(why))),
        ),
        _ => (Stage::Done, Move::Reply(Answer::Failure(Failure::DatabaseError(out_of_turn())))),
    }
}

/// The handler of one request: its correlation identifier and how far it
/// has come.
#[derive(Debug, Clone, PartialEq, Eq)]
pub struct Handler {
    request_id: String,
    stage: Stage,
}

impl Handler {
    /// The stage of the request.
    pub closed spec fn stage(&self) -> Stage {
        self.stage
    }

    /// The identifier under which the lines of the request are logged.
    pub closed spec fn correlation(&self) -> Seq<char> {
        self.request_id@
    }

    /// Takes up a request under the given correlation identifier, and tells
    /// the first step.
    pub fn begin_as(request: Request, request_id: String) -> (begun: (Handler, Step))
        ensures
            begun.0.correlation() == request_id@,
            is_first_move(request@, begun.0.stage(), begun.1@),
    {
        match request {
            Request::List => (
                Handler { request_id, stage: Stage::Connecting(None) },
                Step::Connect,
            ),
            Request::Insert(body) => match read_payload(body.as_str()) {
                Ok(reading) => (
                    Handler { request_id, stage: Stage::Connecting(Some(reading)) },
                    Step::Connect,
                ),
                Err(failure) => (
                    Handler { request_id, stage: Stage::Done },
                    Step::Reply(Reply::Failure(failure)),
                ),
            },
        }
    }

    /// Takes up a request under a fresh correlation identifier, and tells
    /// the first step.
    pub fn begin(request: Request) -> (begun: (Handler, Step))
        ensures
            is_random_uuid_text(begun.0.correlation()),
            is_first_move(request@, begun.0.stage(), begun.1@),
    {
        Handler::begin_as(request, fresh_id())
    }

    /// The correlation identifier.
    pub fn request_id(&self) -> (id: &String)
        ensures
            id@ == self.correlation(),
    {
        &self.request_id
    }

    /// Whether the caller was answered.
    pub fn is_done(&self) -> (done: bool)
        ensures
            done == (self.stage() == Stage::Done),
    {
        match self.stage {
            Stage::Done => true,
            _ => false,
        }
    }

    /// Takes the report of the last step and tells the next.
    pub fn advance(&mut self, event: Event) -> (step: Step)
        ensures
            final(self).correlation() == old(self).correlation(),
            (final(self).stage(), step@) == next_move(old(self).stage(), event@),
    {
        let (stage, step) = match (self.stage, event) {
            (Stage::Connecting(None), Event::Connected) => (Stage::Querying, Step::Query),
            (Stage::Connecting(Some(reading)), Event::Connected) => (
                Stage::Storing,
                Step::Store(reading),
            ),
            (Stage::Connecting(_), Event::ConnectionFailed(why)) => (
                Stage::Done,
                Step::Reply(Reply::Failure(DisplayError::ConnectionError(why))),
            ),
            (Stage::Querying, Event::Listed(readings)) => (
                Stage::Done,
                Step::Reply(Reply::Records(readings)),
            ),
            (Stage::Storing, Event::Stored(reading)) => (
                Stage::Done,
                Step::Reply(Reply::Record(reading)),
            ),
            (Stage::Querying, Event::StoreFailed(why)) => (
                Stage::Done,
                Step::Reply(Reply::Failure(DisplayError::DatabaseError(why))),
            ),
            (Stage::Storing, Event::StoreFailed(why)) => (
                Stage::Done,
                Step::Reply(Reply::Failure(DisplayError::DatabaseError(why))),
            ),
            _ => (
                Stage::Done,
                Step::Reply(
                    Reply::Failure(
                        DisplayError::DatabaseError(
                            String::from_str("the store was heard out of turn"),
                        ),
                    ),
                ),
            ),
        };
        self.stage = stage;
        step
    }
}

impl Reply {
    /// The failure as the caller is sent it: the detail alone, as text.
    /// `None` where the request did not fail.
    pub fn failure_text(&self) -> (text: Option<String>)
        ensures
            match self@ {
                Answer::Failure(failure) => text matches Some(detail) && detail@
                    == failure.detail(),
                _ => text is None,
            },
    {
        match self {
            Reply::Failure(failure) => Some(failure.message()),
            _ => None,
        }
    }
}

/// How many reports a request can still take before the caller is answered.
pub open spec fn reports_left(stage: Stage) -> nat {
    match stage {
        Stage::Connecting(_) => 2,
        Stage::Querying => 1,
        Stage::Storing => 1,
        Stage::Done => 0,
    }
}

/// A request opens at most one connection and runs at most one statement,
/// and every report brings it nearer to its answer.
///
/// After the first move no step opens a connection. A statement is told for
/// the report that the connection is open, and for no other; with it the
/// connection is no longer awaited, so none follows it. A request that is not
/// done is nearer to its answer after every report, and it is done exactly
/// when the step is the answer.
pub proof fn lemma_one_connection_one_statement(stage: Stage, report: Report)
    ensures
        ({
            let (reached, step) = next_move(stage, report);
            &&& step != Move::Connect
            &&& (step is Query || step is Store) ==> stage is Connecting && report is Connected
                && !(reached is Connecting)
            &&& stage != Stage::Done ==> reports_left(reached) < reports_left(stage)
            &&& reached == Stage::Done <==> step is Reply
        }),
{
}

/// Where the store can be reached and is willing, a list is answered with
/// the readings that the store gave, in its order, and an insert with the
/// reading as the store kept it; the store is told no other reading than the
/// one that was submitted.
pub proof fn lemma_the_answer_is_what_the_store_gave(
    submitted: Option<NewParticleCount>,
    listed: Seq<Reading>,
    kept: Reading,
)
    ensures
        ({
            let (awaiting, statement) = next_move(Stage::Connecting(submitted), Report::Connected);
            match submitted {
                None => statement == Move::Query && next_move(awaiting, Report::Listed(listed))
                    == (Stage::Done, Move::Reply(Answer::Records(listed))),
                Some(reading) => statement == Move::Store(reading) && next_move(
                    awaiting,
                    Report::Stored(kept),
                ) == (Stage::Done, Move::Reply(Answer::Record(kept))),
            }
        }),
{
}

/// A request that fails at the connection or at its statement is answered
/// with the words that the host reported, under the kind of the failure.
pub proof fn lemma_failures_are_answered_as_reported(stage: Stage, why: Seq<char>)
    requires
        stage != Stage::Done,
    ensures
        stage is Connecting ==> next_move(stage, Report::ConnectionFailed(why)).1 == Move::Reply(
            Answer::Failure(Failure::ConnectionError(why)),
        ),
        !(stage is Connecting) ==> next_move(stage, Report::StoreFailed(why)).1 == Move::Reply(
            Answer::Failure(Failure::DatabaseError(why)),
        ),
{
}

} // verus!
