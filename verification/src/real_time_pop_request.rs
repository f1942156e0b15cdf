//! Protocol types for a proof-of-play submission: one authenticated batch of
//! play events from one device. The wire format (positional or field-named
//! JSON) is parsed by the transport layer; the core receives these
//! already-validated values. Timestamps are carried as naive device-local
//! milliseconds since the Unix epoch.

use vstd::prelude::*;

verus! {

/// Largest unsigned value that fits in a signed 64-bit storage column.
pub const MAX_STORABLE_ID: u64 = 0x7fff_ffff_ffff_ffff;

/// Mathematical image of one play-event entry.
pub struct PopEntryModel {
    pub display_unit_id: u64,
    pub frame_id: u64,
    pub active_screens_count: u32,
    pub ad_copy_id: u64,
    pub campaign_id: u64,
    pub schedule_id: u64,
    pub impressions: u32,
    pub interactions: u32,
    pub end_time: i64,
    pub duration_ms: u32,
    pub service_name: Seq<char>,
    pub service_value: Seq<char>,
    pub extra_data: Seq<char>,
}

/// One proof-of-play entry of a submission. `end_time` is the device-local
/// end-of-play instant in milliseconds since the Unix epoch (naive, no time
/// zone). `extra_data` is opaque device-supplied metadata, empty when the
/// device sent none.
pub struct RealTimePopEntry {
    pub display_unit_id: u64,
    pub frame_id: u64,
    pub active_screens_count: u32,
    pub ad_copy_id: u64,
    pub campaign_id: u64,
    pub schedule_id: u64,
    pub impressions: u32,
    pub interactions: u32,
    pub end_time: i64,
    pub duration_ms: u32,
    pub service_name: String,
    pub service_value: String,
    pub extra_data: String,
}

impl View for RealTimePopEntry {
    type V = PopEntryModel;

    open spec fn view(&self) -> PopEntryModel {
        PopEntryModel {
            display_unit_id: self.display_unit_id,
            frame_id: self.frame_id,
            active_screens_count: self.active_screens_count,
            ad_copy_id: self.ad_copy_id,
            campaign_id: self.campaign_id,
            schedule_id: self.schedule_id,
            impressions: self.impressions,
            interactions: self.interactions,
            end_time: self.end_time,
            duration_ms: self.duration_ms,
            service_name: self.service_name@,
            service_value: self.service_value@,
            extra_data: self.extra_data@,
        }
    }
}

/// True iff every identifier of the entry that storage keeps fits a signed
/// 64-bit column. `campaign_id` is parsed from the wire but not persisted, so
/// it places no constraint; the 32-bit counters always fit.
pub open spec fn entry_storable(e: PopEntryModel) -> bool {
    &&& e.display_unit_id <= MAX_STORABLE_ID
    &&& e.frame_id <= MAX_STORABLE_ID
    &&& e.ad_copy_id <= MAX_STORABLE_ID
    &&& e.schedule_id <= MAX_STORABLE_ID
}

impl RealTimePopEntry {
    /// Decides whether this entry can be stored without losing or folding
    /// any identifier value.
    pub fn is_storable(&self) -> (r: bool)
        ensures
            r == entry_storable(self@),
    {
        self.display_unit_id <= MAX_STORABLE_ID && self.frame_id <= MAX_STORABLE_ID
            && self.ad_copy_id <= MAX_STORABLE_ID && self.schedule_id <= MAX_STORABLE_ID
    }
}

impl Clone for RealTimePopEntry {
    fn clone(&self) -> (r: Self)
        ensures
            r@ == self@,
    {
        RealTimePopEntry {
            display_unit_id: self.display_unit_id,
            frame_id: self.frame_id,
            active_screens_count: self.active_screens_count,
            ad_copy_id: self.ad_copy_id,
            campaign_id: self.campaign_id,
            schedule_id: self.schedule_id,
            impressions: self.impressions,
            interactions: self.interactions,
            end_time: self.end_time,
            duration_ms: self.duration_ms,
            service_name: self.service_name.clone(),
            service_value: self.service_value.clone(),
            extra_data: self.extra_data.clone(),
        }
    }
}

/// Mathematical image of a submission.
pub struct PopRequestModel {
    pub api_key: Seq<char>,
    pub player_id: u64,
    pub pops: Seq<PopEntryModel>,
}

/// A submission: the unit of authentication and atomicity. One API key, one
/// device (player) identifier, an ordered list of play events.
pub struct RealTimePopRequest {
    pub api_key: String,
    pub player_id: u64,
    pub pops: Vec<RealTimePopEntry>,
}

/// The views of a sequence of entries, element by element.
pub open spec fn views_of(pops: Seq<RealTimePopEntry>) -> Seq<PopEntryModel> {
    pops.map_values(|e: RealTimePopEntry| e@)
}

impl View for RealTimePopRequest {
    type V = PopRequestModel;

    open spec fn view(&self) -> PopRequestModel {
        PopRequestModel {
            api_key: self.api_key@,
            player_id: self.player_id,
            pops: views_of(self.pops@),
        }
    }
}

/// True iff every value the submission asks storage to keep fits a signed
/// 64-bit column: the device identifier and each entry.
pub open spec fn request_storable(r: PopRequestModel) -> bool {
    &&& r.player_id <= MAX_STORABLE_ID
    &&& forall|i: int| 0 <= i < r.pops.len() ==> entry_storable(#[trigger] r.pops[i])
}

impl RealTimePopRequest {
    /// Decides whether the whole batch can be stored without losing or
    /// folding any identifier value.
    pub fn is_storable(&self) -> (r: bool)
        ensures
            r == request_storable(self@),
    {
        if self.player_id > MAX_STORABLE_ID {
            return false;
        }
        let n = self.pops.len();
        let mut i: usize = 0;
        while i < n
            invariant
                n == self.pops.len(),
                i <= n,
                self.player_id <= MAX_STORABLE_ID,
                forall|j: int| 0 <= j < i ==> entry_storable(#[trigger] self@.pops[j]),
            decreases n - i,
        {
            if !self.pops[i].is_storable() {
                assert(!entry_storable(self@.pops[i as int]));
                return false;
            }
            i += 1;
        }
        true
    }
}

impl Clone for RealTimePopRequest {
    fn clone(&self) -> (r: Self)
        ensures
            r@ == self@,
    {
        let n = self.pops.len();
        let mut pops: Vec<RealTimePopEntry> = Vec::new();
        let mut i: usize = 0;
        while i < n
            invariant
                n == self.pops.len(),
                i <= n,
                views_of(pops@) == self@.pops.take(i as int),
            decreases n - i,
        {
            let entry = self.pops[i].clone();
            let ghost prev = pops@;
            let ghost entry_snap = entry;
            pops.push(entry);
            proof {
                assert(views_of(prev.push(entry_snap)) =~= views_of(prev).push(entry_snap@));
                assert(self@.pops.take(i as int).push(self@.pops[i as int]) =~= self@.pops.take(
                    i as int + 1,
                ));
            }
            i += 1;
        }
        proof {
            assert(self@.pops.take(n as int) =~= self@.pops);
        }
        RealTimePopRequest { api_key: self.api_key.clone(), player_id: self.player_id, pops }
    }
}

/// The externally visible outcome of one submission.
#[derive(Clone, Copy, PartialEq, Eq, Structural, Debug)]
pub enum SubmissionOutcome {
    /// The key resolved to a tenant and the whole batch was committed.
    Stored,
    /// The key is unknown, or the registry could not be consulted: access
    /// denied, storage untouched (fail closed).
    Unauthorized,
    /// The batch could not be committed; the transaction was rolled back and
    /// no event of the batch is visible.
    Failed,
}

/// Milliseconds since the Unix epoch of a civil (naive) date and time.
/// The value is fixed by the seven calendar fields alone.
pub uninterp spec fn civil_to_epoch_millis(
    year: int,
    month: int,
    day: int,
    hour: int,
    minute: int,
    second: int,
    milli: int,
) -> i64;

/// Relies on chrono's `NaiveDate::from_ymd_opt`, `NaiveDate::and_hms_milli_opt`
/// and `DateTime::timestamp_millis`: a valid civil date-time maps to its
/// milliseconds since the Unix epoch, a pure function of the fields.
#[verifier::external_body]
fn civil_to_millis(
    year: i32,
    month: u32,
    day: u32,
    hour: u32,
    minute: u32,
    second: u32,
    milli: u32,
) -> (r: Option<i64>)
    ensures
        r is Some ==> r->0 == civil_to_epoch_millis(
            year as int,
            month as int,
            day as int,
            hour as int,
            minute as int,
            second as int,
            milli as int,
        ),
{
    let date = chrono::NaiveDate::from_ymd_opt(year, month, day)?;
    let moment = date.and_hms_milli_opt(hour, minute, second, milli)?;
    Some(moment.and_utc().timestamp_millis())
}

/// End-of-play instant, in naive epoch milliseconds, of a civil date and
/// time as a device reports it. `None` when the fields name no valid civil
/// date-time.
pub fn end_time_from_civil(
    year: i32,
    month: u32,
    day: u32,
    hour: u32,
    minute: u32,
    second: u32,
    milli: u32,
) -> (r: Option<i64>)
    ensures
        r is Some ==> r->0 == civil_to_epoch_millis(
            year as int,
            month as int,
            day as int,
            hour as int,
            minute as int,
            second as int,
            milli as int,
        ),
{
    civil_to_millis(year, month, day, hour, minute, second, milli)
}

} // verus!
