//! The health check's answer, and the headers of log lines.

use vstd::prelude::*;

use crate::date::utc_now;

verus! {

/// Whether the service and its database answer, and how fast.
#[derive(Debug)]
pub struct HealthCheckResponse {
    pub server_time: String,
    pub database_connection: bool,
    pub database_response_time: String,
}

impl HealthCheckResponse {
    pub fn new(database_connection: bool, database_response_time: String) -> (r: Self)
        ensures
            r.database_connection == database_connection,
            r.database_response_time == database_response_time,
    {
        HealthCheckResponse { server_time: utc_now().rfc3339, database_connection, database_response_time }
    }
}

/// The kind of a log line.
#[allow(non_camel_case_types)]
#[derive(Debug, Clone, Copy, PartialEq, Eq, Structural)]
pub enum Header {
    SUCCESS,
    INFO,
    WARNING,
    ERROR,
}

pub open spec fn header_text(h: Header) -> Seq<char> {
    match h {
        Header::SUCCESS => "SUCCESS"@,
        Header::INFO => "INFO"@,
        Header::WARNING => "WARNING"@,
        Header::ERROR => "ERROR"@,
    }
}

impl Header {
    /// The word that opens a log line of this kind.
    pub fn label(&self) -> (r: &'static str)
        ensures
            r@ == header_text(*self),
    {
        match self {
            Header::SUCCESS => "SUCCESS",
            Header::INFO => "INFO",
            Header::WARNING => "WARNING",
            Header::ERROR => "ERROR",
        }
    }
}

} // verus!
