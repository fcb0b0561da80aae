use particle_collector::instant::Timestamp;
use particle_collector::model::DisplayError;
use particle_collector::model::NewParticleCount;
use particle_collector::model::ParticleCount;
use particle_collector::service::api_host;
use particle_collector::service::database_url;
use particle_collector::service::NO_DATABASE_URL;
use particle_collector::service::Event;
use particle_collector::service::Handler;
use particle_collector::service::Reply;
use particle_collector::service::Request;
use particle_collector::service::Step;
use particle_collector::service::DEFAULT_HOST;

const BODY: &str = r#"{"micro_meter_10":1,"micro_meter_60":2,"micro_meter_180":3,"micro_meter_500":4}"#;

/// A store that keeps its readings in memory, and can be told to fail.
struct Store {
    rows: Vec<ParticleCount>,
    reachable: bool,
    willing: bool,
    connections: usize,
    statements: usize,
}

impl Store {
    fn empty() -> Store {
        Store { rows: Vec::new(), reachable: true, willing: true, connections: 0, statements: 0 }
    }

    fn perform(&mut self, step: Step) -> Result<Event, Reply> {
        match step {
            Step::Connect => {
                self.connections += 1;
                if self.reachable {
                    Ok(Event::Connected)
                } else {
                    Ok(Event::ConnectionFailed("connection refused".to_string()))
                }
            }
            Step::Query => {
                self.statements += 1;
                if self.willing {
                    Ok(Event::Listed(self.rows.clone()))
                } else {
                    Ok(Event::StoreFailed("relation \"particles\" does not exist".to_string()))
                }
            }
            Step::Store(reading) => {
                self.statements += 1;
                if self.willing {
                    let id = (self.rows.len() + 1).to_string();
                    let stored = ParticleCount::stamp(reading, id, Timestamp::now());
                    self.rows.push(stored.clone());
                    Ok(Event::Stored(stored))
                } else {
                    Ok(Event::StoreFailed("permission denied".to_string()))
                }
            }
            Step::Reply(reply) => Err(reply),
        }
    }

    fn serve(&mut self, request: Request) -> Reply {
        let (mut handler, mut step) = Handler::begin(request);
        loop {
            match self.perform(step) {
                Ok(event) => {
                    assert!(!handler.is_done());
                    step = handler.advance(event);
                }
                Err(reply) => {
                    assert!(handler.is_done());
                    return reply;
                }
            }
        }
    }
}

#[test]
fn read_return_custom_value() {
    let value = "127.211.42:3000";

    let api_host = api_host(Some(value.to_string()));

    assert_eq!(api_host, value.to_string());
}

#[test]
fn return_default_value() {
    let api_host = api_host(None);

    assert_eq!(api_host, "0.0.0.0:3000");
    assert_eq!(DEFAULT_HOST, "0.0.0.0:3000");
}

#[test]
fn the_database_needs_its_connection_string() {
    assert_eq!(
        database_url(Some("postgres://localhost/particles".to_string())),
        Ok("postgres://localhost/particles".to_string())
    );
    assert_eq!(
        database_url(None),
        Err(DisplayError::ConnectionError("DATABASE_URL must be set".to_string()))
    );
    assert_eq!(NO_DATABASE_URL, "DATABASE_URL must be set");
}

#[test]
fn an_inserted_reading_is_returned_and_then_listed() {
    let mut store = Store::empty();
    assert_eq!(store.serve(Request::List), Reply::Records(Vec::new()));

    let before = chrono::Utc::now().timestamp();
    let reply = store.serve(Request::Insert(BODY.to_string()));
    let after = chrono::Utc::now().timestamp();
    let stored = match reply {
        Reply::Record(stored) => stored,
        other => panic!("{:?}", other),
    };
    assert_eq!(stored.counts(), NewParticleCount::new(1, 2, 3, 4));
    assert_eq!(stored.id(), "1");
    assert!(before <= stored.time().seconds() && stored.time().seconds() <= after);

    assert_eq!(store.serve(Request::List), Reply::Records(vec![stored]));
    assert_eq!(store.connections, 3);
    assert_eq!(store.statements, 3);
}

#[test]
fn a_request_connects_once_and_runs_one_statement() {
    let mut store = Store::empty();
    store.serve(Request::Insert(BODY.to_string()));
    assert_eq!((store.connections, store.statements), (1, 1));
    store.serve(Request::List);
    assert_eq!((store.connections, store.statements), (2, 2));
}

#[test]
fn the_steps_of_a_list() {
    let (mut handler, step) = Handler::begin(Request::List);
    assert_eq!(step, Step::Connect);
    assert!(!handler.is_done());
    assert_eq!(handler.advance(Event::Connected), Step::Query);
    assert!(!handler.is_done());
    let rows = vec![ParticleCount::new("7".to_string(), 1, 2, 3, 4, Timestamp::new(0, 0).unwrap())];
    assert_eq!(handler.advance(Event::Listed(rows.clone())), Step::Reply(Reply::Records(rows)));
    assert!(handler.is_done());
}

#[test]
fn the_steps_of_an_insert() {
    let (mut handler, step) = Handler::begin(Request::Insert(BODY.to_string()));
    assert_eq!(step, Step::Connect);
    assert_eq!(handler.advance(Event::Connected), Step::Store(NewParticleCount::new(1, 2, 3, 4)));
    let row = ParticleCount::new("7".to_string(), 1, 2, 3, 4, Timestamp::new(0, 0).unwrap());
    assert_eq!(handler.advance(Event::Stored(row.clone())), Step::Reply(Reply::Record(row)));
    assert!(handler.is_done());
}

#[test]
fn a_body_that_submits_nothing_never_reaches_the_store() {
    let mut store = Store::empty();
    let reply = store.serve(Request::Insert(r#"{"micro_meter_10":1}"#.to_string()));
    assert_eq!(
        reply,
        Reply::Failure(DisplayError::Serde("no single member is named micro_meter_60".to_string()))
    );
    assert_eq!(reply.failure_text(), Some("no single member is named micro_meter_60".to_string()));
    match store.serve(Request::Insert("not json".to_string())) {
        Reply::Failure(DisplayError::Serde(words)) => assert!(!words.is_empty()),
        other => panic!("{:?}", other),
    }
    assert_eq!((store.connections, store.statements), (0, 0));
    assert!(store.rows.is_empty());
}

#[test]
fn a_failed_connection_is_answered_with_its_words() {
    let mut store = Store::empty();
    store.reachable = false;
    for request in [Request::List, Request::Insert(BODY.to_string())] {
        let reply = store.serve(request);
        assert_eq!(
            reply,
            Reply::Failure(DisplayError::ConnectionError("connection refused".to_string()))
        );
        assert_eq!(reply.failure_text(), Some("connection refused".to_string()));
    }
    assert_eq!((store.connections, store.statements), (2, 0));
}

#[test]
fn a_failed_statement_is_answered_with_its_words() {
    let mut store = Store::empty();
    store.willing = false;
    assert_eq!(
        store.serve(Request::List),
        Reply::Failure(DisplayError::DatabaseError(
            "relation \"particles\" does not exist".to_string()
        ))
    );
    assert_eq!(
        store.serve(Request::Insert(BODY.to_string())),
        Reply::Failure(DisplayError::DatabaseError("permission denied".to_string()))
    );
    assert!(store.rows.is_empty());
}

#[test]
fn a_failed_request_leaves_the_next_one_alone() {
    let mut store = Store::empty();
    store.reachable = false;
    assert!(store.serve(Request::List).failure_text().is_some());
    store.reachable = true;
    assert_eq!(store.serve(Request::List), Reply::Records(Vec::new()));
    assert_eq!(store.serve(Request::List).failure_text(), None);
}

#[test]
fn a_report_out_of_turn_ends_the_request() {
    let out_of_turn = Step::Reply(Reply::Failure(DisplayError::DatabaseError(
        "the store was heard out of turn".to_string(),
    )));
    let row = ParticleCount::new("7".to_string(), 1, 2, 3, 4, Timestamp::new(0, 0).unwrap());

    let (mut handler, _) = Handler::begin(Request::List);
    assert_eq!(handler.advance(Event::Listed(Vec::new())), out_of_turn);
    assert!(handler.is_done());
    assert_eq!(handler.advance(Event::Connected), out_of_turn);
    assert!(handler.is_done());

    let (mut handler, _) = Handler::begin(Request::List);
    handler.advance(Event::Connected);
    assert_eq!(handler.advance(Event::Stored(row.clone())), out_of_turn);

    let (mut handler, _) = Handler::begin(Request::Insert(BODY.to_string()));
    handler.advance(Event::Connected);
    assert_eq!(handler.advance(Event::Listed(vec![row])), out_of_turn);

    let (mut handler, _) = Handler::begin(Request::Insert(BODY.to_string()));
    handler.advance(Event::Connected);
    assert_eq!(handler.advance(Event::ConnectionFailed("late".to_string())), out_of_turn);
}

#[test]
fn every_request_has_its_own_correlation_identifier() {
    let (first, _) = Handler::begin(Request::List);
    let (second, _) = Handler::begin(Request::List);
    assert!(uuid::Uuid::parse_str(first.request_id()).is_ok());
    assert!(uuid::Uuid::parse_str(second.request_id()).is_ok());
    assert_ne!(first.request_id(), second.request_id());
    let (mut given, _) = Handler::begin_as(Request::List, "request-1".to_string());
    assert_eq!(given.request_id(), "request-1");
    given.advance(Event::Connected);
    assert_eq!(given.request_id(), "request-1");
}
