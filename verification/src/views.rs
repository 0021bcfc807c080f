//! The data shapes handed to the request layer: per-device summary
//! and detail views, and the generic error body.

use vstd::prelude::*;

use crate::device::{Bioreactor, DeviceDepot, DeviceStatus, SetStatusError};

verus! {

/// One line of the device list: identifier, name and current status.
#[derive(Debug)]
pub struct DeviceSummary {
    pub id: String,
    pub name: String,
    pub status: DeviceStatus,
}

/// The full view of one device.
#[derive(Debug)]
pub struct DeviceInfo {
    pub id: String,
    pub name: String,
    pub description: Option<String>,
    pub current_status: DeviceStatus,
    pub target_status: DeviceStatus,
}

impl DeviceInfo {
    /// Snapshot every capability field of `device` into a view.
    pub fn from_device<B: Bioreactor>(device: &B) -> (r: DeviceInfo)
        ensures
            r.id@ == device.spec_id(),
            r.name@ == device.spec_name(),
            r.description.deep_view() == device.spec_description(),
            r.current_status == device.spec_current_status(),
            r.target_status == device.spec_target_status(),
    {
        DeviceInfo {
            id: device.get_id(),
            name: device.get_name(),
            description: device.get_description(),
            current_status: device.get_current_status(),
            target_status: device.get_target_status(),
        }
    }
}

/// A generic error body that the request layer can serialize.
#[derive(Debug)]
pub struct ErrorMessage {
    pub message: String,
}

impl ErrorMessage {
    /// Wrap a message text.
    pub fn new(message: String) -> (r: ErrorMessage)
        ensures
            r.message == message,
    {
        ErrorMessage { message }
    }
}

/// Summarize every device of the depot, in depot order: the computing
/// part of a device-list request. Each summary carries the identifier
/// of its slot; name and status are whatever the device's lock held
/// when that slot was read.
pub fn device_summaries(depot: &DeviceDepot) -> (r: Vec<DeviceSummary>)
    requires
        depot.wf(),
    ensures
        r@.len() == depot.spec_ids().len(),
        forall|i: int| 0 <= i < r@.len() ==> (#[trigger] r@[i].id)@ == depot.spec_ids()[i],
{
    let mut r: Vec<DeviceSummary> = Vec::new();
    let n = depot.entries.len();
    let mut i: usize = 0;
    while i < n
        invariant
            i <= n,
            n == depot.entries@.len(),
            depot.wf(),
            r@.len() == i,
            forall|k: int| 0 <= k < i ==> (#[trigger] r@[k].id)@ == depot.spec_ids()[k],
        decreases n - i,
    {
        let handle = depot.entries[i].lock.acquire_read();
        let summary = {
            let device = handle.borrow();
            DeviceSummary {
                id: device.get_id(),
                name: device.get_name(),
                status: device.get_current_status(),
            }
        };
        handle.release_read();
        r.push(summary);
        i += 1;
    }
    r
}

/// Look up one device and snapshot it: the computing part of a
/// device-detail request. Returns `None` exactly when the identifier
/// is unknown; otherwise the view carries the requested identifier.
pub fn device_detail(depot: &DeviceDepot, id: &str) -> (r: Option<DeviceInfo>)
    requires
        depot.wf(),
    ensures
        r is Some <==> depot.spec_has_id(id@),
        r matches Some(v) ==> v.id@ == id@,
{
    match depot.get_device(id) {
        None => None,
        Some(handle) => {
            let view = DeviceInfo::from_device(handle.borrow());
            handle.release_read();
            Some(view)
        },
    }
}

/// Apply an update request to one device and report the refreshed
/// view: the computing part of a device-update request.
///
/// Returns `None` exactly when the identifier is unknown. `Offline`
/// as a target is rejected for every device in every state; any other
/// target either succeeds — the returned view then carries the
/// requested identifier and the new target status — or is rejected
/// because the device found under the lock was `Offline`.
pub fn device_update(depot: &DeviceDepot, id: &str, target_status: DeviceStatus) -> (r: Option<
    Result<DeviceInfo, SetStatusError>,
>)
    requires
        depot.wf(),
    ensures
        r is Some <==> depot.spec_has_id(id@),
        target_status == DeviceStatus::Offline ==> (r matches Some(res) ==> res == Err::<
            DeviceInfo,
            SetStatusError,
        >(SetStatusError::InvalidTarget)),
        r matches Some(res) ==> (res matches Ok(v) ==> target_status != DeviceStatus::Offline
            && v.id@ == id@ && v.target_status == target_status),
        target_status != DeviceStatus::Offline ==> (r matches Some(res) ==> (res matches Err(e)
            ==> e == SetStatusError::DeviceUnreachable)),
{
    match depot.get_device_mut(id) {
        None => None,
        Some((mut device, handle)) => {
            let outcome = match device.set_target_status(target_status) {
                Ok(()) => Ok(DeviceInfo::from_device(&device)),
                Err(e) => Err(e),
            };
            handle.release_write(device);
            Some(outcome)
        },
    }
}

} // verus!
