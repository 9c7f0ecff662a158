//! The node's native executor marker and the decisions its service setup makes
//! before it starts the client, the import queue and the telemetry.

use vstd::prelude::*;
use vstd::string::*;

verus! {

/// The native executor instance of the node's runtime.
pub struct ExecutorDispatch;

/// An error of the service setup.
#[derive(Debug, PartialEq, Eq)]
pub enum ServiceError {
    Other(String),
}

/// The size of the buffer of the telemetry worker.
pub const TELEMETRY_BUFFER_SIZE: usize = 16;

/// What the partial service setup does beyond building its components.
#[derive(Clone, Copy, Debug, PartialEq, Eq)]
pub struct PartialPlan {
    /// The buffer size of the telemetry worker to start, if telemetry is on.
    pub telemetry_worker_buffer: Option<usize>,
}

/// Whether the configured telemetry endpoints ask for telemetry: they are
/// given and there is at least one.
pub open spec fn telemetry_wanted(telemetry_endpoints: Option<usize>) -> bool {
    telemetry_endpoints matches Some(count) && count > 0
}

/// What `new_partial_plan` returns: the refusal of a remote keystore, or the
/// plan that starts a telemetry worker exactly when telemetry is wanted.
pub open spec fn new_partial_plan_result(
    keystore_remote: Option<&str>,
    telemetry_endpoints: Option<usize>,
    r: Result<PartialPlan, ServiceError>,
) -> bool {
    &&& keystore_remote is Some ==> (r matches Err(ServiceError::Other(message))
        && message@ == "Remote Keystores are not supported."@)
    &&& keystore_remote is None ==> (r matches Ok(plan) && plan.telemetry_worker_buffer == (
        if telemetry_wanted(telemetry_endpoints) {
            Some(TELEMETRY_BUFFER_SIZE)
        } else {
            None
        }))
}

/// The decisions of the partial service setup: a remote keystore is refused;
/// otherwise a telemetry worker is started where telemetry endpoints are
/// configured and not empty. `telemetry_endpoints` is the number of configured
/// endpoints, if any are configured.
pub fn new_partial_plan(
    keystore_remote: Option<&str>,
    telemetry_endpoints: Option<usize>,
) -> (r: Result<PartialPlan, ServiceError>)
    ensures
        new_partial_plan_result(keystore_remote, telemetry_endpoints, r),
{
    if keystore_remote.is_some() {
        return Err(ServiceError::Other(String::from_str("Remote Keystores are not supported.")));
    }
    let wanted = match telemetry_endpoints {
        Some(count) => count > 0,
        None => false,
    };
    let telemetry_worker_buffer = if wanted {
        Some(TELEMETRY_BUFFER_SIZE)
    } else {
        None
    };
    Ok(PartialPlan { telemetry_worker_buffer })
}

/// What `remote_keystore` returns: the refusal of every remote keystore.
pub open spec fn remote_keystore_result(r: Result<(), &'static str>) -> bool {
    r matches Err(message) && message@ == "Remote Keystore not supported."@
}

/// A remote keystore at `url`: refused, since remote keystores are not supported.
pub fn remote_keystore(url: &str) -> (r: Result<(), &'static str>)
    ensures
        remote_keystore_result(r),
{
    Err("Remote Keystore not supported.")
}

/// Calls `sp_consensus_babe::inherents::InherentDataProvider::from_timestamp_and_slot_duration`
/// and hands out the provider's slot. Trusted: the source computes the slot as
/// `timestamp / slot_duration` in milliseconds, which divides by zero where the
/// duration is zero, so that duration is left out.
#[verifier::external_body]
fn babe_provider_slot(timestamp_ms: u64, slot_duration_ms: u64) -> (slot: u64)
    requires
        slot_duration_ms > 0,
    ensures
        slot == timestamp_ms / slot_duration_ms,
{
    let provider = sp_consensus_babe::inherents::InherentDataProvider::from_timestamp_and_slot_duration(
        timestamp_ms.into(),
        sp_consensus_babe::SlotDuration::from_millis(slot_duration_ms),
    );
    *provider.slot()
}

/// The number of whole slots of `slot_duration_ms` before `timestamp_ms`.
pub open spec fn babe_slot_at(timestamp_ms: u64, slot_duration_ms: u64) -> u64 {
    timestamp_ms / slot_duration_ms
}

/// The BABE slot that the import queue's inherent data claims for a block
/// made at `timestamp_ms`, with slots of `slot_duration_ms` milliseconds.
pub fn babe_inherent_slot(timestamp_ms: u64, slot_duration_ms: u64) -> (slot: u64)
    requires
        slot_duration_ms > 0,
    ensures
        slot == babe_slot_at(timestamp_ms, slot_duration_ms),
{
    babe_provider_slot(timestamp_ms, slot_duration_ms)
}

/// What the partial service setup decides, for every configuration: a remote
/// keystore is refused with its error; without one, a telemetry worker with a
/// buffer of 16 is started exactly when at least one telemetry endpoint is
/// configured, and none otherwise.
pub proof fn new_partial_plan_decisions(
    keystore_remote: Option<&str>,
    telemetry_endpoints: Option<usize>,
    r: Result<PartialPlan, ServiceError>,
)
    requires
        new_partial_plan_result(keystore_remote, telemetry_endpoints, r),
    ensures
        keystore_remote is Some ==> (r matches Err(ServiceError::Other(message))
            && message@ == "Remote Keystores are not supported."@),
        (keystore_remote is None && (telemetry_endpoints matches Some(count) && count >= 1))
            ==> r == Ok::<PartialPlan, ServiceError>(PartialPlan { telemetry_worker_buffer: Some(16usize) }),
        (keystore_remote is None && !(telemetry_endpoints matches Some(count) && count >= 1))
            ==> r == Ok::<PartialPlan, ServiceError>(PartialPlan { telemetry_worker_buffer: None }),
{
}

/// Telemetry is wanted exactly when at least one endpoint is configured.
pub proof fn telemetry_wanted_means_some_endpoint(telemetry_endpoints: Option<usize>)
    ensures
        telemetry_wanted(telemetry_endpoints) <==> (telemetry_endpoints matches Some(count) && count >= 1),
{
}

/// The BABE slot of a timestamp is the slot whose span holds it: the slot
/// starts at or before the timestamp and the next slot starts after it.
pub proof fn babe_slot_holds_its_timestamp(timestamp_ms: u64, slot_duration_ms: u64, slot: u64)
    requires
        slot_duration_ms > 0,
        slot == babe_slot_at(timestamp_ms, slot_duration_ms),
    ensures
        slot * slot_duration_ms <= timestamp_ms,
        timestamp_ms < slot * slot_duration_ms + slot_duration_ms,
{
    let t = timestamp_ms as int;
    let d = slot_duration_ms as int;
    assert(slot * d <= t && t < slot * d + d) by (nonlinear_arith)
        requires
            d > 0,
            slot == t / d,
    ;
}

/// Every remote keystore is refused, with the same error.
pub proof fn remote_keystore_always_refused(r: Result<(), &'static str>)
    requires
        remote_keystore_result(r),
    ensures
        r matches Err(message) && message@ == "Remote Keystore not supported."@,
{
}

} // verus!
