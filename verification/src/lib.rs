//! A verified command surface for a small desktop shell: a greeting
//! formatter, failure-message rendering for the file operations, the
//! filter that keeps decodable directory-entry names, validation of the
//! system snapshot, and the route map the host registers at startup.

pub mod dispatch;
pub mod errors;
pub mod greet;
pub mod listing;
pub mod system_info;
pub mod text;
