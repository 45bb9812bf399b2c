//! The text of the activity log.
use hash_delivery_service::run::log_printer_handler;
use hash_delivery_service::tools::log_printer::{
    decimal, log_line, print_log, LogStatement, Logger, TIME_PATTERN,
};
use hash_delivery_service::tools::request_manager::Request;
use hash_delivery_service::ErrorType;

fn entry(state: LogStatement, size: usize) -> Logger {
    Logger { ip: "127.0.0.1".to_string(), state, cur_storage_size: size }
}

fn io_error() -> std::io::Error {
    std::io::Error::new(std::io::ErrorKind::BrokenPipe, "gone")
}

fn json_error() -> serde_json::Error {
    serde_json::from_slice::<serde_json::Value>(b"{").unwrap_err()
}

#[test]
fn decimal_of_small_and_large_numbers() {
    assert_eq!(decimal(0), "0");
    assert_eq!(decimal(7), "7");
    assert_eq!(decimal(9), "9");
    assert_eq!(decimal(10), "10");
    assert_eq!(decimal(42), "42");
    assert_eq!(decimal(100), "100");
    assert_eq!(decimal(1234567890), "1234567890");
    assert_eq!(decimal(usize::MAX), usize::MAX.to_string());
}

#[test]
fn line_of_a_new_connection() {
    let line = log_line(&entry(LogStatement::NewConnection, 3), "01/Jan2024:10:20:30 +0000");
    assert_eq!(
        line,
        "127.0.0.1 [01/Jan2024:10:20:30 +0000] Connection established. Storage size: 3.\n"
    );
}

#[test]
fn line_of_a_store_request() {
    let request = Request::Store { key: "aboba".to_string(), hash: "baboba".to_string() };
    let line = log_line(&entry(LogStatement::Request(request), 0), "T");
    assert_eq!(
        line,
        "127.0.0.1 [T] Received request to write new value baboba by key aboba. Storage size: 0.\n"
    );
}

#[test]
fn line_of_a_load_request() {
    let request = Request::Load { key: "aboba".to_string() };
    let line = log_line(&entry(LogStatement::Request(request), 15), "T");
    assert_eq!(
        line,
        "127.0.0.1 [T] Received request to get value by key aboba. Storage size: 15.\n"
    );
}

#[test]
fn lines_of_errors() {
    let line = log_line(&entry(LogStatement::Error(ErrorType::BadReading), 0), "T");
    assert_eq!(line, "127.0.0.1 [T] Can't read request from client \nStorage size: 0.\n");

    let line = log_line(&entry(LogStatement::Error(ErrorType::IoError(io_error())), 0), "T");
    assert_eq!(
        line,
        "127.0.0.1 [T] Can't read(write) request(response) to client \nStorage size: 0.\n"
    );

    let line = log_line(&entry(LogStatement::Error(ErrorType::JsonErr(json_error())), 0), "T");
    assert_eq!(line, "127.0.0.1 [T] Client sent bad json request \nStorage size: 0.\n");

    let line = log_line(&entry(LogStatement::Error(ErrorType::BadConnection), 0), "T");
    assert_eq!(
        line,
        "127.0.0.1 [T] Can't run server with given ip and port \nStorage size: 0.\n"
    );
}

#[test]
fn errors_convert_from_their_causes() {
    assert!(matches!(ErrorType::from(io_error()), ErrorType::IoError(_)));
    assert!(matches!(ErrorType::from(json_error()), ErrorType::JsonErr(_)));
}

#[test]
fn line_made_now_carries_the_time() {
    let line = print_log(entry(LogStatement::NewConnection, 2));
    let rest = line.strip_prefix("127.0.0.1 [").unwrap();
    let (time, rest) = rest.split_once("] ").unwrap();
    assert_eq!(rest, "Connection established. Storage size: 2.\n");

    // Day, month name and year, then the time of day and the offset of UTC.
    assert_eq!(TIME_PATTERN, "%d/%b%Y:%T %z");
    assert_eq!(time.len(), "01/Jan2024:10:20:30 +0000".len());
    assert!(time.ends_with(" +0000"));
    let parsed = chrono::NaiveDateTime::parse_from_str(time, "%d/%b%Y:%T %z").unwrap();
    let now = chrono::Utc::now().naive_utc();
    assert!((now - parsed).num_seconds().abs() <= 5);
}

#[test]
fn log_prints_entries_and_stops_on_shutdown() {
    let line = log_printer_handler(entry(LogStatement::NewConnection, 1)).unwrap();
    assert!(line.starts_with("127.0.0.1 ["));
    assert!(line.ends_with("] Connection established. Storage size: 1.\n"));

    let line = log_printer_handler(entry(LogStatement::Error(ErrorType::BadReading), 0)).unwrap();
    assert!(line.ends_with("] Can't read request from client \nStorage size: 0.\n"));

    assert_eq!(log_printer_handler(entry(LogStatement::Shutdown, 0)), None);
}
