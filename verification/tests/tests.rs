//! Whole conversations between clients and the service, with the sockets
//! replaced by byte queues.
use hash_delivery_service::run::{accept_client, handle_client, Action, Event, Phase};
use hash_delivery_service::tools::log_printer::{LogStatement, Logger};
use hash_delivery_service::tools::request_manager::{frame_length, Request};
use hash_delivery_service::tools::storage::Store;
use hash_delivery_service::{ErrorKind, ErrorType};

/// One connection: the handler's side of it and the two directions of the
/// stream.
struct Client {
    peer: String,
    phase: Phase,
    action: Action,
    to_server: Vec<u8>,
    to_client: Vec<u8>,
    hung_up: bool,
    logs: Vec<Logger>,
}

impl Client {
    /// Connects, and lets the handler run until it waits for the client.
    fn connect(store: &mut Store, peer: &str) -> Self {
        let first = accept_client();
        assert_eq!(first.phase, Phase::Greeting);
        assert!(first.log.is_none());
        let mut client = Client {
            peer: peer.to_string(),
            phase: first.phase,
            action: first.action,
            to_server: Vec::new(),
            to_client: Vec::new(),
            hung_up: false,
            logs: Vec::new(),
        };
        client.serve(store);
        client
    }

    /// Runs the handler until it needs bytes that are not there yet, or
    /// closes.
    fn serve(&mut self, store: &mut Store) {
        loop {
            let action = std::mem::replace(&mut self.action, Action::Close);
            let event = match action {
                Action::Send(payload) => {
                    self.to_client.extend_from_slice(&payload);
                    Event::Sent
                }
                Action::Receive => {
                    let length = frame_length(&self.to_server);
                    let whole = length > 0 && self.to_server[length - 1] == b'}';
                    if !whole && !self.hung_up {
                        self.action = Action::Receive;
                        return;
                    }
                    Event::Received(self.to_server.drain(..length).collect())
                }
                Action::Close => return,
            };
            let step = handle_client(&self.peer, self.phase, event, store);
            self.phase = step.phase;
            self.action = step.action;
            self.logs.extend(step.log);
        }
    }

    fn write(&mut self, store: &mut Store, data: &[u8]) {
        self.to_server.extend_from_slice(data);
        self.serve(store);
    }

    /// Reads up to the next `}` and compares, blanks aside.
    fn read_expect(&mut self, expected: String) {
        let length = frame_length(&self.to_client);
        let bytes: Vec<u8> = self.to_client.drain(..length).collect();
        let incoming = delete_char(' ', String::from_utf8(bytes).unwrap());
        assert_eq!(expected, incoming);
    }

    fn shutdown(&mut self, store: &mut Store) {
        self.hung_up = true;
        self.serve(store);
    }
}

fn make_store_request(key: &str, hash: &str) -> String {
    format!(
        r#"{{
        "request_type": "store",
        "key": "{key}",
        "hash": "{hash}"}}
    "#
    )
}

fn make_load_request(key: &str) -> String {
    format!(
        r#"{{
        "request_type": "load",
        "key": "{key}"}}
    "#
    )
}

fn make_greeting() -> String {
    delete_char(' ', format!(r#"{{"student_name":"Gordei Skorobogatov"}}"#))
}

fn make_success_store() -> String {
    delete_char(' ', format!(r#"{{"response_status": "success"}}"#))
}

fn make_success_load(key: &str, hash: &str) -> String {
    delete_char(
        ' ',
        format!(
            r#"{{"response_status": "success", "requested_key": "{key}", "requested_hash": "{hash}"}}"#
        ),
    )
}

fn make_no_key() -> String {
    delete_char(' ', format!(r#"{{"response_status": "key not found"}}"#))
}

fn make_error() -> String {
    delete_char(
        ' ',
        format!(r#"{{"response_status": "error"}}"#).replace("-", " "),
    )
}

fn delete_char(ch: char, mut str: String) -> String {
    str.retain(|i| i != ch);
    str
}

#[test]
fn test_single_login() {
    let mut store = Store::new();
    let mut client = Client::connect(&mut store, "127.0.0.1");
    client.read_expect(make_greeting());

    client.shutdown(&mut store);
}

#[test]
fn test_store_request() {
    let mut store = Store::new();
    let mut client = Client::connect(&mut store, "127.0.0.1");
    client.read_expect(make_greeting());

    client.write(&mut store, make_store_request("aboba", "baboba").as_bytes());
    client.read_expect(make_success_store());

    client.shutdown(&mut store);
}

#[test]
fn test_load_request() {
    let mut store = Store::new();
    let mut client = Client::connect(&mut store, "127.0.0.1");
    client.read_expect(make_greeting());

    client.write(&mut store, make_store_request("aboba", "baboba").as_bytes());
    client.read_expect(make_success_store());

    client.write(&mut store, make_load_request("aboba").as_bytes());
    client.read_expect(make_success_load("aboba", "baboba"));

    client.shutdown(&mut store);
}

#[test]
fn test_no_key_load_request() {
    let mut store = Store::new();
    let mut client = Client::connect(&mut store, "127.0.0.1");
    client.read_expect(make_greeting());

    client.write(&mut store, make_store_request("aboba", "baboba").as_bytes());
    client.read_expect(make_success_store());

    client.write(&mut store, make_load_request("chel").as_bytes());
    client.read_expect(make_no_key());

    client.shutdown(&mut store);
}

#[test]
fn test_error() {
    let mut store = Store::new();
    let mut client = Client::connect(&mut store, "127.0.0.1");
    client.read_expect(make_greeting());

    client.write(
        &mut store,
        delete_char(' ', format!(r#"{{"response_status": "nothing"}}"#)).as_bytes(),
    );
    client.read_expect(make_error());

    client.shutdown(&mut store);
}

#[test]
fn greeting_is_the_first_thing_on_the_wire() {
    let mut store = Store::new();
    let first = accept_client();
    assert_eq!(first.phase, Phase::Greeting);
    assert_eq!(
        first.action,
        Action::Send(b"{\"student_name\":\"Gordei Skorobogatov\"}".to_vec())
    );
    assert!(first.log.is_none());

    // Until the greeting is out, nothing is read and nothing is answered.
    let request = b"{\"request_type\":\"load\",\"key\":\"k\"}".to_vec();
    let early = handle_client("peer", Phase::Greeting, Event::Received(request), &mut store);
    assert_eq!(early.phase, Phase::Terminated);
    assert_eq!(early.action, Action::Close);
    assert!(early.log.is_none());

    let greeted = handle_client("peer", Phase::Greeting, Event::Sent, &mut store);
    assert_eq!(greeted.phase, Phase::Serving);
    assert_eq!(greeted.action, Action::Receive);
    let entry = greeted.log.unwrap();
    assert_eq!(entry.ip, "peer");
    assert!(matches!(entry.state, LogStatement::NewConnection));
    assert_eq!(entry.cur_storage_size, 0);
}

#[test]
fn greeting_that_cannot_be_sent_ends_the_connection() {
    let mut store = Store::new();
    let cause = std::io::Error::new(std::io::ErrorKind::BrokenPipe, "gone");
    let step = handle_client("peer", Phase::Greeting, Event::SendFailed(cause), &mut store);
    assert_eq!(step.phase, Phase::Terminated);
    assert_eq!(step.action, Action::Close);
    let entry = step.log.unwrap();
    assert!(matches!(entry.state, LogStatement::Error(ErrorType::IoError(_))));
    assert_eq!(entry.cur_storage_size, 0);
}

#[test]
fn scenario_store_then_load() {
    let mut store = Store::new();
    let mut client = Client::connect(&mut store, "10.0.0.7");
    assert_eq!(
        client.to_client,
        b"{\"student_name\":\"Gordei Skorobogatov\"}".to_vec()
    );
    client.to_client.clear();

    client.write(
        &mut store,
        b"{\"request_type\":\"store\",\"key\":\"aboba\",\"hash\":\"baboba\"}",
    );
    assert_eq!(client.to_client, b"{\"response_status\":\"success\"}".to_vec());
    client.to_client.clear();

    client.write(&mut store, b"{\"request_type\":\"load\",\"key\":\"aboba\"}");
    assert_eq!(
        client.to_client,
        b"{\"response_status\":\"success\",\"requested_key\":\"aboba\",\"requested_hash\":\"baboba\"}"
            .to_vec()
    );
    assert_eq!(client.phase, Phase::Serving);

    // The log saw the connection and both requests, each with the size of
    // the store at that moment.
    assert_eq!(client.logs.len(), 3);
    assert!(matches!(client.logs[0].state, LogStatement::NewConnection));
    assert_eq!(client.logs[0].cur_storage_size, 0);
    match &client.logs[1].state {
        LogStatement::Request(Request::Store { key, hash }) => {
            assert_eq!(key, "aboba");
            assert_eq!(hash, "baboba");
        }
        other => panic!("unexpected entry {:?}", other),
    }
    assert_eq!(client.logs[1].cur_storage_size, 0);
    match &client.logs[2].state {
        LogStatement::Request(Request::Load { key }) => assert_eq!(key, "aboba"),
        other => panic!("unexpected entry {:?}", other),
    }
    assert_eq!(client.logs[2].cur_storage_size, 1);
    assert_eq!(client.logs[2].ip, "10.0.0.7");
}

#[test]
fn scenario_load_without_store() {
    let mut store = Store::new();
    let mut client = Client::connect(&mut store, "10.0.0.7");
    client.to_client.clear();

    client.write(&mut store, b"{\"request_type\":\"load\",\"key\":\"chel\"}");
    assert_eq!(
        client.to_client,
        b"{\"response_status\":\"key not found\"}".to_vec()
    );
    assert_eq!(client.phase, Phase::Serving);
    assert_eq!(store.size(), 0);
}

#[test]
fn scenario_unknown_request_type() {
    let mut store = Store::new();
    let mut client = Client::connect(&mut store, "10.0.0.7");
    client.to_client.clear();

    client.write(&mut store, b"{\"request_type\":\"erase\",\"key\":\"aboba\"}");
    assert_eq!(client.to_client, b"{\"response_status\":\"error\"}".to_vec());
    assert_eq!(client.phase, Phase::Terminated);
    assert_eq!(client.action, Action::Close);
    let last = client.logs.last().unwrap();
    match &last.state {
        LogStatement::Error(error) => assert_eq!(error.kind(), ErrorKind::JsonErr),
        other => panic!("unexpected entry {:?}", other),
    }

    // Whatever the client sends now stays unread and unanswered.
    client.to_client.clear();
    let ignored = b"{\"request_type\":\"load\",\"key\":\"aboba\"}";
    client.write(&mut store, ignored);
    assert!(client.to_client.is_empty());
    assert_eq!(client.to_server, ignored.to_vec());
    assert_eq!(client.phase, Phase::Terminated);
}

#[test]
fn invalid_payload_gets_exactly_one_error_response() {
    let mut store = Store::new();
    let mut client = Client::connect(&mut store, "10.0.0.7");
    client.write(
        &mut store,
        b"{\"request_type\":\"store\",\"key\":\"k\",\"hash\":\"h\"}",
    );
    client.to_client.clear();

    client.write(&mut store, b"{\"request_type\":\"load\",\"key\":}");
    assert_eq!(client.to_client, b"{\"response_status\":\"error\"}".to_vec());
    assert_eq!(client.phase, Phase::Terminated);
    assert_eq!(store.size(), 1);

    for event in [
        Event::Sent,
        Event::Received(b"{\"request_type\":\"load\",\"key\":\"k\"}".to_vec()),
        Event::Received(Vec::new()),
        Event::SendFailed(std::io::Error::new(std::io::ErrorKind::Other, "x")),
        Event::ReadFailed(std::io::Error::new(std::io::ErrorKind::Other, "x")),
    ] {
        let step = handle_client("10.0.0.7", Phase::Terminated, event, &mut store);
        assert_eq!(step.phase, Phase::Terminated);
        assert_eq!(step.action, Action::Close);
        assert!(step.log.is_none());
    }
    assert_eq!(store.get("k"), Some("h".to_string()));
}

#[test]
fn peer_that_hangs_up_is_a_bad_reading() {
    let mut store = Store::new();
    let mut client = Client::connect(&mut store, "10.0.0.7");
    client.to_client.clear();
    client.shutdown(&mut store);

    assert_eq!(client.phase, Phase::Terminated);
    assert_eq!(client.to_client, b"{\"response_status\":\"error\"}".to_vec());
    match &client.logs.last().unwrap().state {
        LogStatement::Error(error) => assert_eq!(error.kind(), ErrorKind::BadReading),
        other => panic!("unexpected entry {:?}", other),
    }
}

#[test]
fn failed_read_and_failed_send_end_the_connection() {
    let mut store = Store::new();
    let cause = std::io::Error::new(std::io::ErrorKind::ConnectionReset, "reset");
    let step = handle_client("peer", Phase::Serving, Event::ReadFailed(cause), &mut store);
    assert_eq!(step.phase, Phase::Terminated);
    assert_eq!(
        step.action,
        Action::Send(b"{\"response_status\":\"error\"}".to_vec())
    );
    assert!(matches!(
        step.log.unwrap().state,
        LogStatement::Error(ErrorType::IoError(_))
    ));

    let cause = std::io::Error::new(std::io::ErrorKind::BrokenPipe, "gone");
    let step = handle_client("peer", Phase::Serving, Event::SendFailed(cause), &mut store);
    assert_eq!(step.phase, Phase::Terminated);
    assert_eq!(step.action, Action::Close);
    assert!(matches!(
        step.log.unwrap().state,
        LogStatement::Error(ErrorType::IoError(_))
    ));

    let step = handle_client("peer", Phase::Serving, Event::Sent, &mut store);
    assert_eq!(step.phase, Phase::Serving);
    assert_eq!(step.action, Action::Receive);
    assert!(step.log.is_none());
}

#[test]
fn stores_from_many_connections_are_all_visible() {
    let mut store = Store::new();
    let mut clients: Vec<Client> = (0..8)
        .map(|n| Client::connect(&mut store, &format!("10.0.0.{n}")))
        .collect();
    // The connections take turns, so their stores interleave.
    for round in 0..5 {
        for (n, client) in clients.iter_mut().enumerate() {
            client.to_client.clear();
            let request = make_store_request(&format!("key-{n}-{round}"), &format!("hash-{n}-{round}"));
            client.write(&mut store, request.as_bytes());
            client.read_expect(make_success_store());
        }
    }
    assert_eq!(store.size(), 40);
    let reader = clients.last_mut().unwrap();
    for n in 0..8 {
        for round in 0..5 {
            let key = format!("key-{n}-{round}");
            reader.write(&mut store, make_load_request(&key).as_bytes());
            reader.read_expect(make_success_load(&key, &format!("hash-{n}-{round}")));
        }
    }
}

#[test]
fn last_write_wins_across_connections() {
    let mut store = Store::new();
    let mut one = Client::connect(&mut store, "10.0.0.1");
    let mut two = Client::connect(&mut store, "10.0.0.2");
    one.to_client.clear();
    two.to_client.clear();

    one.write(&mut store, make_store_request("k", "first").as_bytes());
    two.write(&mut store, make_store_request("k", "second").as_bytes());
    one.read_expect(make_success_store());
    two.read_expect(make_success_store());

    one.write(&mut store, make_load_request("k").as_bytes());
    one.read_expect(make_success_load("k", "second"));
    assert_eq!(store.size(), 1);
}
