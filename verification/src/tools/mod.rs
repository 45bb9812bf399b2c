//! The parts the service is assembled from: the codec of the wire protocol,
//! the key/value store, and the text of the activity log.
pub mod json;
pub mod log_printer;
pub mod request_manager;
pub mod storage;
