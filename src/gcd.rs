//! Geometry, calibration and detector status (GCD) collections: the run
//! window lookup and the assembly of one collection for a run.

use vstd::prelude::*;

use crate::calibration::{filter_calibrations_for_run, resolution, Calibration};
use crate::clock::{now_utc, UtcTime};
use crate::ids::{is_uuid_v4_text, new_v4_text};
use crate::models::RunMetadata;

verus! {

/// The start of recorded history: the Unix epoch, in milliseconds.
pub const EPOCH_ZERO_MILLIS: i64 = 0;

/// The start of the window used for a run: the recorded start, or the epoch
/// when nothing is recorded for the run.
pub open spec fn window_start(metadata: Option<&RunMetadata>) -> i64 {
    match metadata {
        Some(m) => m.start_time,
        None => EPOCH_ZERO_MILLIS,
    }
}

/// The time window `(start, end)` of a run at time `now_millis`: the recorded
/// window verbatim, or, when nothing is recorded, all of history up to now.
pub fn resolve_window_at(metadata: Option<&RunMetadata>, now_millis: i64) -> (w: (
    i64,
    Option<i64>,
))
    ensures
        match metadata {
            Some(m) => w == (m.start_time, m.end_time),
            None => w == (EPOCH_ZERO_MILLIS, Some(now_millis)),
        },
{
    match metadata {
        Some(m) => (m.start_time, m.end_time),
        None => (EPOCH_ZERO_MILLIS, Some(now_millis)),
    }
}

/// The time window of a run, reading the clock for the open end of the
/// fallback window.
pub fn resolve_window(metadata: Option<&RunMetadata>) -> (w: (i64, Option<i64>))
    ensures
        w.0 == window_start(metadata),
        match metadata {
            Some(m) => w.1 == m.end_time,
            None => w.1 is Some,
        },
{
    let now = now_utc();
    resolve_window_at(metadata, now.unix_millis)
}

/// An assembled collection for one run. `calibrations` holds the version of
/// each device in effect at the start of the run; geometry is taken whole
/// and detector status as fetched for the run.
pub struct GCDCollection<P, G, S> {
    pub run_number: u32,
    pub generated_at: String,
    pub generated_by: String,
    pub calibrations: Vec<Calibration<P>>,
    pub geometry: Vec<G>,
    pub detector_status: Vec<S>,
    pub collection_id: String,
}

/// Assembles the collection of a run from data already fetched, generated at
/// `now` by `generated_by` under the identifier `collection_id`.
pub fn assemble_gcd_collection<P, G, S>(
    run_number: u32,
    generated_by: String,
    run_metadata: Option<&RunMetadata>,
    calibrations: Vec<Calibration<P>>,
    geometry: Vec<G>,
    detector_status: Vec<S>,
    now: UtcTime,
    collection_id: String,
) -> (c: GCDCollection<P, G, S>)
    ensures
        c.run_number == run_number,
        c.generated_at == now.rfc3339,
        c.generated_by == generated_by,
        c.calibrations@ == resolution(calibrations@, window_start(run_metadata) as int),
        c.geometry@ == geometry@,
        c.detector_status@ == detector_status@,
        c.collection_id == collection_id,
{
    let (start, end) = resolve_window_at(run_metadata, now.unix_millis);
    let resolved = filter_calibrations_for_run(calibrations, start, end);
    GCDCollection {
        run_number,
        generated_at: now.rfc3339,
        generated_by,
        calibrations: resolved,
        geometry,
        detector_status,
        collection_id,
    }
}

/// Generates a fresh collection for a run from data already fetched: reads
/// the clock, draws a new random identifier, and assembles the collection.
pub fn generate_gcd_collection<P, G, S>(
    run_number: u32,
    generated_by: String,
    run_metadata: Option<&RunMetadata>,
    calibrations: Vec<Calibration<P>>,
    geometry: Vec<G>,
    detector_status: Vec<S>,
) -> (c: GCDCollection<P, G, S>)
    ensures
        c.run_number == run_number,
        c.generated_by == generated_by,
        c.calibrations@ == resolution(calibrations@, window_start(run_metadata) as int),
        c.geometry@ == geometry@,
        c.detector_status@ == detector_status@,
        is_uuid_v4_text(c.collection_id@),
{
    let now = now_utc();
    let collection_id = new_v4_text();
    assemble_gcd_collection(
        run_number,
        generated_by,
        run_metadata,
        calibrations,
        geometry,
        detector_status,
        now,
        collection_id,
    )
}

} // verus!
