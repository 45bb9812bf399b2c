//! The activity log: what an entry holds and the line it is printed as.
use crate::tools::request_manager::{Request, RequestView};
use crate::{ErrorKind, ErrorType};
use vstd::prelude::*;
use vstd::string::StringExecFns;

verus! {

/// What happened.
#[derive(Debug)]
pub enum LogStatement {
    /// A request was decoded and is about to be served.
    Request(Request),
    /// A connection was accepted and greeted.
    NewConnection,
    /// The log is to stop; nothing is printed for it.
    Shutdown,
    /// A connection ended on this error.
    Error(ErrorType),
}

/// One entry of the log: a snapshot, with nothing left that points into the
/// store.
#[derive(Debug)]
pub struct Logger {
    /// The address of the peer, as text.
    pub ip: String,
    /// What happened.
    pub state: LogStatement,
    /// The number of keys in the store when the entry was made.
    pub cur_storage_size: usize,
}

/// A log statement as the contracts see it.
pub enum LogStatementView {
    Request(RequestView),
    NewConnection,
    Shutdown,
    Error(ErrorKind),
}

/// A log entry as the contracts see it.
pub struct LoggerView {
    pub ip: Seq<char>,
    pub state: LogStatementView,
    pub cur_storage_size: usize,
}

impl View for LogStatement {
    type V = LogStatementView;

    open spec fn view(&self) -> LogStatementView {
        match *self {
            LogStatement::Request(request) => LogStatementView::Request(request@),
            LogStatement::NewConnection => LogStatementView::NewConnection,
            LogStatement::Shutdown => LogStatementView::Shutdown,
            LogStatement::Error(error) => LogStatementView::Error(error@),
        }
    }
}

impl View for Logger {
    type V = LoggerView;

    open spec fn view(&self) -> LoggerView {
        LoggerView {
            ip: self.ip@,
            state: self.state@,
            cur_storage_size: self.cur_storage_size,
        }
    }
}

/// The pattern, in `strftime` notation, of the time in a log line.
pub const TIME_PATTERN: &'static str = "%d/%b%Y:%T %z";

/// The decimal digit for `d`, which is below ten.
pub open spec fn digit(d: nat) -> char
    recommends
        d < 10,
{
    if d == 0 {
        '0'
    } else if d == 1 {
        '1'
    } else if d == 2 {
        '2'
    } else if d == 3 {
        '3'
    } else if d == 4 {
        '4'
    } else if d == 5 {
        '5'
    } else if d == 6 {
        '6'
    } else if d == 7 {
        '7'
    } else if d == 8 {
        '8'
    } else {
        '9'
    }
}

/// `n` in decimal, without leading zeros.
pub open spec fn decimal_text(n: nat) -> Seq<char>
    decreases n,
{
    if n < 10 {
        seq![digit(n)]
    } else {
        decimal_text(n / 10).push(digit(n % 10))
    }
}

/// What the log says of an error.
pub open spec fn error_text(error: ErrorKind) -> Seq<char> {
    match error {
        ErrorKind::BadReading => "Can't read request from client "@,
        ErrorKind::IoError => "Can't read(write) request(response) to client "@,
        ErrorKind::JsonErr => "Client sent bad json request "@,
        ErrorKind::BadConnection => "Can't run server with given ip and port "@,
    }
}

/// What the log says of a statement. An error ends its own line.
pub open spec fn statement_text(state: LogStatementView) -> Seq<char>
    recommends
        !(state is Shutdown),
{
    match state {
        LogStatementView::Request(RequestView::Store { key, hash }) => {
            "Received request to write new value "@ + hash + " by key "@ + key + ". "@
        },
        LogStatementView::Request(RequestView::Load { key }) => {
            "Received request to get value by key "@ + key + ". "@
        },
        LogStatementView::NewConnection => "Connection established. "@,
        LogStatementView::Shutdown => Seq::empty(),
        LogStatementView::Error(error) => error_text(error) + "\n"@,
    }
}

/// The printed form of an entry made at `time`: the peer, the time in square
/// brackets, the statement, and the size of the store.
pub open spec fn log_text(logger: LoggerView, time: Seq<char>) -> Seq<char>
    recommends
        !(logger.state is Shutdown),
{
    logger.ip + " ["@ + time + "] "@ + statement_text(logger.state) + "Storage size: "@
        + decimal_text(logger.cur_storage_size as nat) + ".\n"@
}

fn digit_text(d: usize) -> (text: &'static str)
    requires
        d < 10,
    ensures
        text@ == seq![digit(d as nat)],
{
    proof {
        reveal_strlit("0");
        reveal_strlit("1");
        reveal_strlit("2");
        reveal_strlit("3");
        reveal_strlit("4");
        reveal_strlit("5");
        reveal_strlit("6");
        reveal_strlit("7");
        reveal_strlit("8");
        reveal_strlit("9");
    }
    let text = match d {
        0 => "0",
        1 => "1",
        2 => "2",
        3 => "3",
        4 => "4",
        5 => "5",
        6 => "6",
        7 => "7",
        8 => "8",
        _ => "9",
    };
    assert(text@ =~= seq![digit(d as nat)]);
    text
}

/// Writes `n` in decimal.
pub fn decimal(n: usize) -> (text: String)
    ensures
        text@ == decimal_text(n as nat),
    decreases n,
{
    if n < 10 {
        String::from_str(digit_text(n))
    } else {
        let mut text = decimal(n / 10);
        text.append(digit_text(n % 10));
        assert(text@ =~= decimal_text(n as nat));
        text
    }
}

fn error_message(error: &ErrorType) -> (text: &'static str)
    ensures
        text@ == error_text(error@),
{
    match error {
        ErrorType::BadReading => "Can't read request from client ",
        ErrorType::IoError(_) => "Can't read(write) request(response) to client ",
        ErrorType::JsonErr(_) => "Client sent bad json request ",
        ErrorType::BadConnection => "Can't run server with given ip and port ",
    }
}

fn statement_message(state: &LogStatement) -> (text: String)
    requires
        !(state is Shutdown),
    ensures
        text@ == statement_text(state@),
{
    match state {
        LogStatement::Request(Request::Store { key, hash }) => {
            let mut text = String::from_str("Received request to write new value ");
            text.append(hash.as_str());
            text.append(" by key ");
            text.append(key.as_str());
            text.append(". ");
            text
        },
        LogStatement::Request(Request::Load { key }) => {
            let mut text = String::from_str("Received request to get value by key ");
            text.append(key.as_str());
            text.append(". ");
            text
        },
        LogStatement::NewConnection => String::from_str("Connection established. "),
        LogStatement::Shutdown => String::new(),
        LogStatement::Error(error) => {
            let mut text = String::from_str(error_message(error));
            text.append("\n");
            text
        },
    }
}

/// The line to print for an entry made at `time`.
pub fn log_line(logger: &Logger, time: &str) -> (line: String)
    requires
        !(logger.state is Shutdown),
    ensures
        line@ == log_text(logger@, time@),
{
    let mut line = logger.ip.clone();
    line.append(" [");
    line.append(time);
    line.append("] ");
    line.append(statement_message(&logger.state).as_str());
    line.append("Storage size: ");
    line.append(decimal(logger.cur_storage_size).as_str());
    line.append(".\n");
    line
}

/// Calls `chrono::Utc::now`, then `format` and `to_string` on what it gives:
/// the current time, written after `pattern`.
///
/// Nothing is claimed of the text: it is whatever the clock says. The pattern
/// is held to the one this crate uses because `to_string` panics on a pattern
/// that `chrono` does not know; `Utc::now` itself panics only where the
/// system clock stands before 1970.
#[verifier::external_body]
pub(crate) fn utc_now(pattern: &str) -> (time: String)
    requires
        pattern@ == TIME_PATTERN@,
{
    chrono::Utc::now().format(pattern).to_string()
}

/// The line to print for an entry made now.
pub fn print_log(logger: Logger) -> (line: String)
    requires
        !(logger.state is Shutdown),
    ensures
        exists|time: Seq<char>| line@ == log_text(logger@, time),
{
    let time = utc_now(TIME_PATTERN);
    log_line(&logger, time.as_str())
}

} // verus!
