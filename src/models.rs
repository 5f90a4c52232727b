//! The records the service stores and the envelope in which it answers.
//! Times are milliseconds since the Unix epoch.

use vstd::prelude::*;

verus! {

/// An answer of the service: either data, or an error message.
pub struct ApiResponse<T> {
    pub success: bool,
    pub data: Option<T>,
    pub error: Option<String>,
}

impl<T> ApiResponse<T> {
    /// A successful answer carrying `data`.
    pub fn success(data: T) -> (r: Self)
        ensures
            r.success,
            r.data == Some(data),
            r.error is None,
    {
        ApiResponse { success: true, data: Some(data), error: None }
    }

    /// A failed answer carrying the message `error` and no data.
    pub fn error(error: String) -> (r: ApiResponse<()>)
        ensures
            !r.success,
            r.data is None,
            r.error == Some(error),
    {
        ApiResponse { success: false, data: None, error: Some(error) }
    }
}

/// What is recorded about a run. A run without `end_time` is still going on.
pub struct RunMetadata {
    pub run_number: u32,
    pub start_time: i64,
    pub end_time: Option<i64>,
    pub configuration_name: Option<String>,
    /// When this record was written.
    pub timestamp: i64,
}

/// A request to record, or re-record, what is known about a run.
pub struct CreateRunMetadataRequest {
    pub run_number: u32,
    pub start_time: i64,
    pub end_time: Option<i64>,
    pub configuration_name: Option<String>,
}

impl RunMetadata {
    /// The record that `req` asks for, written at `recorded_at`.
    pub fn from_request(req: CreateRunMetadataRequest, recorded_at: i64) -> (m: Self)
        ensures
            m.run_number == req.run_number,
            m.start_time == req.start_time,
            m.end_time == req.end_time,
            m.configuration_name == req.configuration_name,
            m.timestamp == recorded_at,
    {
        RunMetadata {
            run_number: req.run_number,
            start_time: req.start_time,
            end_time: req.end_time,
            configuration_name: req.configuration_name,
            timestamp: recorded_at,
        }
    }
}

/// The operational status of one device.
pub struct DetectorStatus {
    pub dom_id: u32,
    pub status: String,
    pub is_bad: bool,
    /// When this status was recorded.
    pub timestamp: i64,
}

/// A request to record the status of a device.
pub struct CreateDetectorStatusRequest {
    pub dom_id: u32,
    pub status: String,
    pub is_bad: bool,
}

impl DetectorStatus {
    /// The status record that `req` asks for, recorded at `recorded_at` for
    /// device `dom_id`.
    pub fn from_request(dom_id: u32, req: CreateDetectorStatusRequest, recorded_at: i64) -> (d: Self)
        ensures
            d.dom_id == dom_id,
            d.status == req.status,
            d.is_bad == req.is_bad,
            d.timestamp == recorded_at,
    {
        DetectorStatus { dom_id, status: req.status, is_bad: req.is_bad, timestamp: recorded_at }
    }
}

} // verus!
