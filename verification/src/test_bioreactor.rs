//! A "virtual" bioreactor device with no external connection, used to
//! exercise the capability contract without networking.

use vstd::prelude::*;

use crate::config::DeviceMetadata;
use crate::device::{Bioreactor, DeviceStatus, SetStatusError};

verus! {

/// Configuration of a test device: only the shared metadata.
#[derive(Debug)]
pub struct TestReactorConfig {
    pub meta: DeviceMetadata,
}

/// A dummy bioreactor device. It is stateless beyond its own status
/// field: a successful status change applies immediately, so the
/// current and target status always agree, and the device can never
/// become `Offline`.
#[derive(Debug)]
pub struct TestReactor {
    pub metadata: DeviceMetadata,
    pub status: DeviceStatus,
}

impl TestReactor {
    /// Create a `TestReactor` from a `TestReactorConfig` instance. The
    /// device starts out connected with its instruments powered down.
    pub fn from_config(config: TestReactorConfig) -> (r: TestReactor)
        ensures
            r.wf(),
            r.metadata == config.meta,
            r.status == DeviceStatus::Inactive,
    {
        TestReactor { metadata: config.meta, status: DeviceStatus::Inactive }
    }
}

impl Bioreactor for TestReactor {
    /// A test device is never `Offline`: it starts `Inactive` and only
    /// accepts non-`Offline` targets.
    open spec fn wf(&self) -> bool {
        self.status != DeviceStatus::Offline
    }

    open spec fn spec_id(&self) -> Seq<char> {
        self.metadata.id@
    }

    open spec fn spec_name(&self) -> Seq<char> {
        self.metadata.name@
    }

    open spec fn spec_description(&self) -> Option<Seq<char>> {
        self.metadata.description.deep_view()
    }

    open spec fn spec_current_status(&self) -> DeviceStatus {
        self.status
    }

    open spec fn spec_target_status(&self) -> DeviceStatus {
        self.status
    }

    /// A test device has no connection machinery, so there is never a
    /// diagnostic to report.
    open spec fn spec_current_status_extra(&self) -> Option<Seq<char>> {
        None
    }

    fn get_id(&self) -> (r: String) {
        self.metadata.id.clone()
    }

    fn get_name(&self) -> (r: String) {
        self.metadata.name.clone()
    }

    fn get_description(&self) -> (r: Option<String>) {
        match &self.metadata.description {
            Some(d) => Some(d.clone()),
            None => None,
        }
    }

    fn get_current_status(&self) -> (r: DeviceStatus) {
        self.status
    }

    fn get_current_status_extra(&self) -> (r: Option<String>) {
        None
    }

    fn get_target_status(&self) -> (r: DeviceStatus) {
        self.status
    }

    /// A successful update applies synchronously: afterwards the
    /// current and the target status both equal the requested one.
    fn set_target_status(&mut self, status: DeviceStatus) -> (r: Result<(), SetStatusError>)
        ensures
            r is Ok ==> final(self).status == status,
    {
        if status == DeviceStatus::Offline {
            Err(SetStatusError::InvalidTarget)
        } else if self.status == DeviceStatus::Offline {
            Err(SetStatusError::DeviceUnreachable)
        } else {
            self.status = status;
            Ok(())
        }
    }
}

} // verus!
