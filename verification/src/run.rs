//! The decisions of the service: what a connection does next, what the
//! listener does next, and what the log does with an entry.
//!
//! Nothing here touches a socket. The program around this crate performs the
//! action it is handed (write these bytes, read a frame, close) and comes back
//! with what happened.
use crate::tools::json::{quote, string_literal};
use crate::tools::log_printer::{
    log_text, print_log, LogStatement, LogStatementView, Logger, LoggerView,
};
use crate::tools::request_manager::{
    frame_request, get_request, response_text, send_response, Request, RequestView, Response,
    ResponseView,
};
use crate::tools::storage::Store;
use crate::{ErrorKind, ErrorType};
use vstd::prelude::*;
use vstd::string::StrSliceExecFns;
use vstd::string::StringExecFns;
use vstd::utf8::encode_utf8;

verus! {

/// The name this service gives in its greeting.
pub const STUDENT_NAME: &'static str = "Gordei Skorobogatov";

/// The text of a greeting around the name in it, the name being written as a
/// JSON string.
pub open spec fn greeting_around(name_literal: Seq<char>) -> Seq<char> {
    "{\"student_name\":"@ + name_literal + "}"@
}

/// The greeting on the wire.
pub open spec fn greeting_bytes() -> Seq<u8> {
    encode_utf8(greeting_around(string_literal(STUDENT_NAME@)))
}

/// The bytes of the answer to anything that is no request.
pub open spec fn error_bytes() -> Seq<u8> {
    encode_utf8(response_text(ResponseView::Error))
}

/// Lays out a greeting around a name already written as a JSON string.
pub fn greeting_with(name_literal: &str) -> (text: String)
    ensures
        text@ == greeting_around(name_literal@),
{
    let mut text = String::from_str("{\"student_name\":");
    text.append(name_literal);
    text.append("}");
    text
}

/// The bytes every connection is greeted with.
pub fn greeting() -> (payload: Vec<u8>)
    ensures
        payload@ == greeting_bytes(),
{
    let name_literal = quote(STUDENT_NAME);
    greeting_with(name_literal.as_str()).as_str().as_bytes_vec()
}

/// What serving `request` on `store` comes to: the store afterwards, and the
/// answer.
pub open spec fn applied(store: Map<Seq<char>, Seq<char>>, request: RequestView) -> (
    Map<Seq<char>, Seq<char>>,
    ResponseView,
) {
    match request {
        RequestView::Store { key, hash } => (store.insert(key, hash), ResponseView::SuccessStore),
        RequestView::Load { key } => if store.contains_key(key) {
            (store, ResponseView::SuccessLoad { key, hash: store[key] })
        } else {
            (store, ResponseView::NoKey)
        },
    }
}

/// Serves one request: a single operation on the store.
pub fn apply_request(store: &mut Store, request: Request) -> (response: Response)
    ensures
        (final(store)@, response@) == applied(old(store)@, request@),
{
    match request {
        Request::Store { key, hash } => {
            store.put(key, hash);
            Response::SuccessStore
        },
        Request::Load { key } => match store.get(key.as_str()) {
            Some(hash) => Response::SuccessLoad { key, hash },
            None => Response::NoKey,
        },
    }
}

/// Where a connection stands.
#[derive(Clone, Copy, Debug, PartialEq, Eq, Structural)]
pub enum Phase {
    /// Accepted; the greeting is on its way and nothing has been read yet.
    Greeting,
    /// Greeted; requests are read and answered in turn.
    Serving,
    /// Over. Nothing more is read or written.
    Terminated,
}

/// What the program around the handler reports back to it.
#[derive(Debug)]
pub enum Event {
    /// The bytes of the last `Action::Send` were written in full.
    Sent,
    /// Writing the bytes of the last `Action::Send` failed.
    SendFailed(std::io::Error),
    /// A read came back with these bytes: everything up to and including the
    /// first `}`, or up to the end of the stream. No bytes: the peer is gone.
    Received(Vec<u8>),
    /// Reading failed.
    ReadFailed(std::io::Error),
}

/// What the handler wants done next.
#[derive(Debug, PartialEq, Eq)]
pub enum Action {
    /// Write all of these bytes to the stream, then report `Sent` or
    /// `SendFailed`.
    Send(Vec<u8>),
    /// Read the next frame, then report `Received` or `ReadFailed`.
    Receive,
    /// Close the stream and stop.
    Close,
}

/// One move of a connection's handler.
#[derive(Debug)]
pub struct Step {
    /// Where the connection stands now.
    pub phase: Phase,
    /// What is to be done next.
    pub action: Action,
    /// The entry to hand to the log, if this move makes one.
    pub log: Option<Logger>,
}

/// An event as the contracts see it.
pub enum EventView {
    Sent,
    SendFailed,
    Received(Seq<u8>),
    ReadFailed,
}

/// An action as the contracts see it.
pub enum ActionView {
    Send(Seq<u8>),
    Receive,
    Close,
}

/// A move as the contracts see it.
pub struct StepView {
    pub phase: Phase,
    pub action: ActionView,
    pub log: Option<LoggerView>,
}

impl View for Event {
    type V = EventView;

    open spec fn view(&self) -> EventView {
        match *self {
            Event::Sent => EventView::Sent,
            Event::SendFailed(_) => EventView::SendFailed,
            Event::Received(data) => EventView::Received(data@),
            Event::ReadFailed(_) => EventView::ReadFailed,
        }
    }
}

impl View for Action {
    type V = ActionView;

    open spec fn view(&self) -> ActionView {
        match *self {
            Action::Send(payload) => ActionView::Send(payload@),
            Action::Receive => ActionView::Receive,
            Action::Close => ActionView::Close,
        }
    }
}

impl View for Step {
    type V = StepView;

    open spec fn view(&self) -> StepView {
        StepView {
            phase: self.phase,
            action: self.action@,
            log: match self.log {
                Some(entry) => Some(entry@),
                None => None,
            },
        }
    }
}

/// The log entry for an error on the connection to `peer`. It carries no
/// store size.
pub open spec fn error_entry(peer: Seq<char>, error: ErrorKind) -> LoggerView {
    LoggerView { ip: peer, state: LogStatementView::Error(error), cur_storage_size: 0 }
}

/// The move that ends a connection on `error` after a last, best-effort
/// answer.
pub open spec fn refusal(peer: Seq<char>, error: ErrorKind) -> StepView {
    StepView {
        phase: Phase::Terminated,
        action: ActionView::Send(error_bytes()),
        log: Some(error_entry(peer, error)),
    }
}

/// The move that ends a connection on `error` with nothing left to say.
pub open spec fn breakdown(peer: Seq<char>, error: ErrorKind) -> StepView {
    StepView {
        phase: Phase::Terminated,
        action: ActionView::Close,
        log: Some(error_entry(peer, error)),
    }
}

/// The move of a connection that is over, or that is told of something that
/// cannot have happened where it stands.
pub open spec fn halt() -> StepView {
    StepView { phase: Phase::Terminated, action: ActionView::Close, log: None }
}

/// The first move of every connection: greet, before anything is read.
pub open spec fn first_step() -> StepView {
    StepView { phase: Phase::Greeting, action: ActionView::Send(greeting_bytes()), log: None }
}

/// The move of the handler of the connection to `peer`, standing in `phase`,
/// on `event`, with the store holding `store`.
pub open spec fn next_step(
    peer: Seq<char>,
    phase: Phase,
    event: EventView,
    store: Map<Seq<char>, Seq<char>>,
) -> StepView {
    match phase {
        Phase::Greeting => match event {
            EventView::Sent => StepView {
                phase: Phase::Serving,
                action: ActionView::Receive,
                log: Some(
                    LoggerView {
                        ip: peer,
                        state: LogStatementView::NewConnection,
                        cur_storage_size: store.len() as usize,
                    },
                ),
            },
            EventView::SendFailed => breakdown(peer, ErrorKind::IoError),
            _ => halt(),
        },
        Phase::Serving => match event {
            EventView::Received(data) => match frame_request(data) {
                Ok(request) => StepView {
                    phase: Phase::Serving,
                    action: ActionView::Send(encode_utf8(response_text(applied(store, request).1))),
                    log: Some(
                        LoggerView {
                            ip: peer,
                            state: LogStatementView::Request(request),
                            cur_storage_size: store.len() as usize,
                        },
                    ),
                },
                Err(error) => refusal(peer, error),
            },
            EventView::ReadFailed => refusal(peer, ErrorKind::IoError),
            EventView::Sent => StepView {
                phase: Phase::Serving,
                action: ActionView::Receive,
                log: None,
            },
            EventView::SendFailed => breakdown(peer, ErrorKind::IoError),
        },
        Phase::Terminated => halt(),
    }
}

/// What the store holds after that move: a request that was read in the
/// serving phase is applied to it, and nothing else touches it.
pub open spec fn next_store(
    phase: Phase,
    event: EventView,
    store: Map<Seq<char>, Seq<char>>,
) -> Map<Seq<char>, Seq<char>> {
    match (phase, event) {
        (Phase::Serving, EventView::Received(data)) => match frame_request(data) {
            Ok(request) => applied(store, request).0,
            Err(_) => store,
        },
        _ => store,
    }
}

fn error_step(peer: &str, error: ErrorType, action: Action) -> (step: Step)
    ensures
        step@ == (StepView {
            phase: Phase::Terminated,
            action: action@,
            log: Some(error_entry(peer@, error@)),
        }),
{
    Step {
        phase: Phase::Terminated,
        action,
        log: Some(
            Logger { ip: String::from_str(peer), state: LogStatement::Error(error), cur_storage_size: 0 },
        ),
    }
}

/// The first move of a connection that was just accepted.
pub fn accept_client() -> (step: Step)
    ensures
        step@ == first_step(),
{
    Step { phase: Phase::Greeting, action: Action::Send(greeting()), log: None }
}

/// The handler of one connection, one move at a time.
///
/// `peer` is the address of the client as text, `phase` where the connection
/// stands, `event` what came of the last action. The store is touched only to
/// serve a request that was read in the serving phase, and by a single
/// operation.
pub fn handle_client(peer: &str, phase: Phase, event: Event, store: &mut Store) -> (step: Step)
    ensures
        step@ == next_step(peer@, phase, event@, old(store)@),
        final(store)@ == next_store(phase, event@, old(store)@),
{
    match phase {
        Phase::Greeting => match event {
            Event::Sent => Step {
                phase: Phase::Serving,
                action: Action::Receive,
                log: Some(
                    Logger {
                        ip: String::from_str(peer),
                        state: LogStatement::NewConnection,
                        cur_storage_size: store.size(),
                    },
                ),
            },
            Event::SendFailed(cause) => error_step(peer, ErrorType::IoError(cause), Action::Close),
            _ => Step { phase: Phase::Terminated, action: Action::Close, log: None },
        },
        Phase::Serving => match event {
            Event::Received(data) => match get_request(data.as_slice()) {
                Ok(request) => {
                    let size = store.size();
                    let logged = request.clone();
                    let response = apply_request(store, request);
                    Step {
                        phase: Phase::Serving,
                        action: Action::Send(send_response(response)),
                        log: Some(
                            Logger {
                                ip: String::from_str(peer),
                                state: LogStatement::Request(logged),
                                cur_storage_size: size,
                            },
                        ),
                    }
                },
                Err(error) => error_step(peer, error, Action::Send(send_response(Response::Error))),
            },
            Event::ReadFailed(cause) => error_step(
                peer,
                ErrorType::IoError(cause),
                Action::Send(send_response(Response::Error)),
            ),
            Event::Sent => Step { phase: Phase::Serving, action: Action::Receive, log: None },
            Event::SendFailed(cause) => error_step(peer, ErrorType::IoError(cause), Action::Close),
        },
        Phase::Terminated => Step { phase: Phase::Terminated, action: Action::Close, log: None },
    }
}

/// What the log does with an entry: `None` for the signal to stop, which ends
/// the log without a line; the line to print for every other entry.
pub fn log_printer_handler(logger: Logger) -> (line: Option<String>)
    ensures
        match line {
            Some(text) => !(logger.state is Shutdown) && exists|time: Seq<char>|
                text@ == log_text(logger@, time),
            None => logger.state is Shutdown,
        },
{
    match logger.state {
        LogStatement::Shutdown => None,
        _ => Some(print_log(logger)),
    }
}

/// What the listener reports.
#[derive(Clone, Copy, Debug, PartialEq, Eq, Structural)]
pub enum Listener {
    /// The address is bound.
    Bound,
    /// The address could not be bound.
    BindFailed,
    /// A connection was accepted.
    Accepted,
    /// Accepting a connection failed.
    AcceptFailed,
    /// The listener will hand out no more connections.
    Closed,
}

/// What the dispatcher does next.
#[derive(Clone, Copy, Debug, PartialEq, Eq, Structural)]
pub enum Dispatch {
    /// Wait for the next connection.
    Accept,
    /// Start a handler of its own for the connection just accepted, and wait
    /// for the next one without waiting for that handler.
    Serve,
    /// Tell the log to stop, and wait for what is still running.
    Shutdown,
}

/// The dispatcher's decision on what the listener reports.
///
/// Only a failed bind is fatal. A failed accept is passed over.
pub fn run(event: Listener) -> (decision: Result<Dispatch, ErrorType>)
    ensures
        decision == (match event {
            Listener::Bound => Ok::<Dispatch, ErrorType>(Dispatch::Accept),
            Listener::BindFailed => Err::<Dispatch, ErrorType>(ErrorType::BadConnection),
            Listener::Accepted => Ok::<Dispatch, ErrorType>(Dispatch::Serve),
            Listener::AcceptFailed => Ok::<Dispatch, ErrorType>(Dispatch::Accept),
            Listener::Closed => Ok::<Dispatch, ErrorType>(Dispatch::Shutdown),
        }),
{
    match event {
        Listener::Bound => Ok(Dispatch::Accept),
        Listener::BindFailed => Err(ErrorType::BadConnection),
        Listener::Accepted => Ok(Dispatch::Serve),
        Listener::AcceptFailed => Ok(Dispatch::Accept),
        Listener::Closed => Ok(Dispatch::Shutdown),
    }
}

/// Whether `request` stores something under `key`.
pub open spec fn stores_to(request: RequestView, key: Seq<char>) -> bool {
    request matches RequestView::Store { key: stored, .. } && stored == key
}

/// What the store holds after `requests` were served on it in this order,
/// whichever connections they came from.
pub open spec fn store_after(
    store: Map<Seq<char>, Seq<char>>,
    requests: Seq<RequestView>,
) -> Map<Seq<char>, Seq<char>>
    decreases requests.len(),
{
    if requests.len() == 0 {
        store
    } else {
        applied(store_after(store, requests.drop_last()), requests.last()).0
    }
}

/// The payloads that a handler sends, in order, when it starts in `phase`
/// with the store holding `store` and is told `events` one after another.
pub open spec fn replies(
    peer: Seq<char>,
    phase: Phase,
    store: Map<Seq<char>, Seq<char>>,
    events: Seq<EventView>,
) -> Seq<Seq<u8>>
    decreases events.len(),
{
    if events.len() == 0 {
        Seq::empty()
    } else {
        let step = next_step(peer, phase, events[0], store);
        let rest = replies(
            peer,
            step.phase,
            next_store(phase, events[0], store),
            events.drop_first(),
        );
        match step.action {
            ActionView::Send(payload) => seq![payload] + rest,
            _ => rest,
        }
    }
}

/// A load that follows a store of the same key is answered with the hash that
/// was stored.
pub proof fn law_load_after_store(
    store: Map<Seq<char>, Seq<char>>,
    key: Seq<char>,
    hash: Seq<char>,
)
    ensures
        applied(applied(store, RequestView::Store { key, hash }).0, RequestView::Load { key }).1
            == (ResponseView::SuccessLoad { key, hash }),
{
}

/// Serving requests leaves a key alone unless one of them stores to it.
proof fn lemma_untouched_key(
    store: Map<Seq<char>, Seq<char>>,
    requests: Seq<RequestView>,
    key: Seq<char>,
)
    requires
        forall|i: int| 0 <= i < requests.len() ==> !stores_to(#[trigger] requests[i], key),
    ensures
        store_after(store, requests).contains_key(key) == store.contains_key(key),
        store.contains_key(key) ==> store_after(store, requests)[key] == store[key],
    decreases requests.len(),
{
    if requests.len() > 0 {
        let earlier = requests.drop_last();
        assert forall|i: int| 0 <= i < earlier.len() implies !stores_to(
            #[trigger] earlier[i],
            key,
        ) by {
            assert(earlier[i] == requests[i]);
        }
        lemma_untouched_key(store, earlier, key);
        assert(!stores_to(requests[requests.len() - 1], key));
    }
}

/// A load of a key that was never stored, on a store that started out empty,
/// is answered with "key not found".
pub proof fn law_load_of_unstored_key(requests: Seq<RequestView>, key: Seq<char>)
    requires
        forall|i: int| 0 <= i < requests.len() ==> !stores_to(#[trigger] requests[i], key),
    ensures
        applied(
            store_after(Map::<Seq<char>, Seq<char>>::empty(), requests),
            RequestView::Load { key },
        ).1 == ResponseView::NoKey,
{
    lemma_untouched_key(Map::<Seq<char>, Seq<char>>::empty(), requests, key);
}

/// Of two stores of one key, the later wins: a load that follows them is
/// answered with the second hash.
pub proof fn law_last_write_wins(
    store: Map<Seq<char>, Seq<char>>,
    key: Seq<char>,
    first: Seq<char>,
    second: Seq<char>,
)
    ensures
        applied(
            applied(
                applied(store, RequestView::Store { key, hash: first }).0,
                RequestView::Store { key, hash: second },
            ).0,
            RequestView::Load { key },
        ).1 == (ResponseView::SuccessLoad { key, hash: second }),
{
}

/// Whatever the order in which requests reach the store, the last store of a
/// key is what a later load of that key is answered with.
pub proof fn law_latest_store_is_visible(
    store: Map<Seq<char>, Seq<char>>,
    requests: Seq<RequestView>,
    at: int,
    key: Seq<char>,
    hash: Seq<char>,
)
    requires
        0 <= at < requests.len(),
        requests[at] == (RequestView::Store { key, hash }),
        forall|j: int| at < j < requests.len() ==> !stores_to(#[trigger] requests[j], key),
    ensures
        applied(store_after(store, requests), RequestView::Load { key }).1 == (
        ResponseView::SuccessLoad { key, hash }),
    decreases requests.len(),
{
    let earlier = requests.drop_last();
    if at == requests.len() - 1 {
    } else {
        assert(earlier[at] == requests[at]);
        assert forall|j: int| at < j < earlier.len() implies !stores_to(
            #[trigger] earlier[j],
            key,
        ) by {
            assert(earlier[j] == requests[j]);
        }
        law_latest_store_is_visible(store, earlier, at, key, hash);
        assert(!stores_to(requests[requests.len() - 1], key));
    }
}

/// No update is lost: where the stores among `requests` all go to different
/// keys, each of them is what a later load of its key is answered with,
/// whatever the order in which the connections' requests reached the store.
pub proof fn law_no_lost_updates(
    store: Map<Seq<char>, Seq<char>>,
    requests: Seq<RequestView>,
    at: int,
    key: Seq<char>,
    hash: Seq<char>,
)
    requires
        forall|i: int, j: int|
            0 <= i < j < requests.len() && requests[i] is Store && requests[j] is Store
                ==> requests[i]->Store_key != requests[j]->Store_key,
        0 <= at < requests.len(),
        requests[at] == (RequestView::Store { key, hash }),
    ensures
        applied(store_after(store, requests), RequestView::Load { key }).1 == (
        ResponseView::SuccessLoad { key, hash }),
{
    assert forall|j: int| at < j < requests.len() implies !stores_to(#[trigger] requests[j], key) by {
        if requests[j] is Store {
            assert(requests[at]->Store_key != requests[j]->Store_key);
        }
    }
    law_latest_store_is_visible(store, requests, at, key, hash);
}

/// A connection that is over sends nothing, whatever it is told.
proof fn lemma_terminated_is_silent(
    peer: Seq<char>,
    store: Map<Seq<char>, Seq<char>>,
    events: Seq<EventView>,
)
    ensures
        replies(peer, Phase::Terminated, store, events) == Seq::<Seq<u8>>::empty(),
    decreases events.len(),
{
    if events.len() > 0 {
        lemma_terminated_is_silent(peer, store, events.drop_first());
    }
}

/// Bytes that are no request get exactly one answer, the error response, and
/// end the connection: it is terminated, the store is as it was, and nothing
/// is sent after that answer, whatever comes next. Bytes that are not JSON
/// are such bytes.
pub proof fn law_malformed_payload_ends_connection(
    peer: Seq<char>,
    store: Map<Seq<char>, Seq<char>>,
    data: Seq<u8>,
    later: Seq<EventView>,
)
    requires
        frame_request(data) is Err,
    ensures
        next_step(peer, Phase::Serving, EventView::Received(data), store).phase
            == Phase::Terminated,
        next_store(Phase::Serving, EventView::Received(data), store) == store,
        replies(peer, Phase::Serving, store, seq![EventView::Received(data)] + later)
            == seq![error_bytes()],
{
    let events = seq![EventView::Received(data)] + later;
    assert(events[0] == EventView::Received(data));
    assert(events.drop_first() =~= later);
    lemma_terminated_is_silent(peer, store, later);
    assert(seq![error_bytes()] + Seq::<Seq<u8>>::empty() =~= seq![error_bytes()]);
}

/// Everything that the handler of a new connection sends, in order, when it
/// is told `events` one after another: the payload of its first move, then
/// its replies.
pub open spec fn sent_on_connection(
    peer: Seq<char>,
    store: Map<Seq<char>, Seq<char>>,
    events: Seq<EventView>,
) -> Seq<Seq<u8>> {
    let rest = replies(peer, first_step().phase, store, events);
    match first_step().action {
        ActionView::Send(payload) => seq![payload] + rest,
        _ => rest,
    }
}

/// The greeting comes first: whatever happens on a connection, the first
/// thing sent on it is the greeting. Until the greeting is reported as sent,
/// the handler sends nothing else, serves nothing and leaves the store alone.
pub proof fn law_greeting_comes_first(
    peer: Seq<char>,
    store: Map<Seq<char>, Seq<char>>,
    events: Seq<EventView>,
)
    ensures
        sent_on_connection(peer, store, events).len() >= 1,
        sent_on_connection(peer, store, events)[0] == greeting_bytes(),
        events.len() > 0 && !(events[0] is Sent) ==> sent_on_connection(peer, store, events)
            == seq![greeting_bytes()],
        events.len() > 0 ==> next_store(Phase::Greeting, events[0], store) == store,
        events.len() > 0 ==> !(next_step(peer, Phase::Greeting, events[0], store).action is Send),
{
    if events.len() > 0 && !(events[0] is Sent) {
        lemma_terminated_is_silent(peer, store, events.drop_first());
        assert(seq![greeting_bytes()] + Seq::<Seq<u8>>::empty() =~= seq![greeting_bytes()]);
    }
}

/// On a connection that is being served, a store request followed by a load
/// request for the same key gets two answers: success, then success with the
/// key and the hash that was stored.
pub proof fn law_store_then_load_on_a_connection(
    peer: Seq<char>,
    store: Map<Seq<char>, Seq<char>>,
    storing: Seq<u8>,
    loading: Seq<u8>,
    key: Seq<char>,
    hash: Seq<char>,
)
    requires
        frame_request(storing) == Ok::<RequestView, ErrorKind>(RequestView::Store { key, hash }),
        frame_request(loading) == Ok::<RequestView, ErrorKind>(RequestView::Load { key }),
    ensures
        replies(
            peer,
            Phase::Serving,
            store,
            seq![EventView::Received(storing), EventView::Sent, EventView::Received(loading)],
        ) == seq![
            encode_utf8(response_text(ResponseView::SuccessStore)),
            encode_utf8(response_text(ResponseView::SuccessLoad { key, hash })),
        ],
{
    let events = seq![EventView::Received(storing), EventView::Sent, EventView::Received(loading)];
    let after_store = store.insert(key, hash);
    let second = events.drop_first();
    let third = second.drop_first();
    assert(second =~= seq![EventView::Sent, EventView::Received(loading)]);
    assert(third =~= seq![EventView::Received(loading)]);
    assert(third.drop_first() =~= Seq::<EventView>::empty());
    let success = encode_utf8(response_text(ResponseView::SuccessStore));
    let found = encode_utf8(response_text(ResponseView::SuccessLoad { key, hash }));
    assert(replies(peer, Phase::Serving, after_store, third.drop_first()) == Seq::<
        Seq<u8>,
    >::empty());
    assert(replies(peer, Phase::Serving, after_store, third) =~= seq![found]);
    assert(replies(peer, Phase::Serving, after_store, second) =~= seq![found]);
    assert(replies(peer, Phase::Serving, store, events) =~= seq![success, found]);
}

} // verus!
