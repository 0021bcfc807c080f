//! The network-backed bioreactor device: the shared state block its
//! connection supervisor maintains, and the device wrapper around it.

use vstd::prelude::*;

use crate::config::DeviceMetadata;
use crate::device::{Bioreactor, DeviceStatus, SetStatusError};
use crate::supervisor::{
    bind_failure_detail, connecting_detail, make_bind_failure_detail, make_socket_error_detail,
    socket_error_detail, spec_phase_action, spec_step_phase, waiting_detail, SupervisorAction,
    SupervisorEvent, SupervisorPhase,
};

verus! {

/// Configuration of a network device: shared metadata plus the IPv4
/// address (four octets) and TCP port its supervisor listens on.
#[derive(Debug)]
pub struct NetworkReactorConfig {
    pub meta: DeviceMetadata,
    pub address: [u8; 4],
    pub port: u16,
}

/// A device field that has been updated through the capability
/// interface but whose change has not yet been transmitted to the
/// physical device.
#[derive(Copy, Clone, Debug, PartialEq, Eq, Structural)]
pub enum DeviceDataItem {
    TargetStatus,
}

/// The set of fields still waiting to be pushed to the physical
/// device. Re-recording a field that is already pending replaces the
/// entry rather than duplicating it.
#[derive(Copy, Clone, Debug, PartialEq, Eq, Structural)]
pub struct PendingUpdates {
    pub target_status: bool,
}

impl PendingUpdates {
    /// The pending entries as a set.
    pub open spec fn pending_set(&self) -> Set<DeviceDataItem> {
        if self.target_status {
            set![DeviceDataItem::TargetStatus]
        } else {
            Set::<DeviceDataItem>::empty()
        }
    }

    /// An empty pending set.
    pub fn new() -> (r: PendingUpdates)
        ensures
            r.pending_set() == Set::<DeviceDataItem>::empty(),
    {
        let r = PendingUpdates { target_status: false };
        proof {
            assert(r.pending_set() =~= Set::<DeviceDataItem>::empty());
        }
        r
    }

    /// Record that `item` still has to be pushed to the device.
    pub fn insert(&mut self, item: DeviceDataItem)
        ensures
            final(self).pending_set() == old(self).pending_set().insert(item),
    {
        match item {
            DeviceDataItem::TargetStatus => {
                self.target_status = true;
            },
        }
        proof {
            assert(final(self).pending_set() =~= old(self).pending_set().insert(item));
        }
    }

    /// Whether `item` is still waiting to be pushed.
    pub fn contains(&self, item: DeviceDataItem) -> (r: bool)
        ensures
            r == self.pending_set().contains(item),
    {
        match item {
            DeviceDataItem::TargetStatus => self.target_status,
        }
    }
}

/// The state block a connection supervisor shares with its device:
/// the monotonic abort flag, the current and target status, the
/// optional free-text diagnostic, and the pending-update set.
#[derive(Debug)]
pub struct DeviceInfo {
    pub abort_flag: bool,
    pub status: DeviceStatus,
    pub target_status: DeviceStatus,
    pub status_extra: Option<String>,
    pub to_update: PendingUpdates,
}

impl DeviceInfo {
    /// A fresh state block: not aborted, `Offline` with no diagnostic,
    /// driven toward `Inactive`, nothing pending.
    pub fn new() -> (r: DeviceInfo)
        ensures
            !r.abort_flag,
            r.status == DeviceStatus::Offline,
            r.target_status == DeviceStatus::Inactive,
            r.status_extra is None,
            r.to_update.pending_set() == Set::<DeviceDataItem>::empty(),
    {
        DeviceInfo {
            abort_flag: false,
            status: DeviceStatus::Offline,
            target_status: DeviceStatus::Inactive,
            status_extra: None,
            to_update: PendingUpdates::new(),
        }
    }

    /// Record a newly observed device status.
    pub fn set_device_status(&mut self, status: DeviceStatus)
        ensures
            final(self).status == status,
            final(self).abort_flag == old(self).abort_flag,
            final(self).target_status == old(self).target_status,
            final(self).status_extra == old(self).status_extra,
            final(self).to_update == old(self).to_update,
    {
        self.status = status;
    }

    /// The last observed device status.
    pub fn get_device_status(&self) -> (r: DeviceStatus)
        ensures
            r == self.status,
    {
        self.status
    }

    /// The status the device is being driven toward.
    pub fn get_device_target_status(&self) -> (r: DeviceStatus)
        ensures
            r == self.target_status,
    {
        self.target_status
    }

    /// Record a new target status. If it differs from the previous
    /// target, the target-status field is marked as pending so a future
    /// protocol push can transmit it to the physical device.
    pub fn set_device_target_status(&mut self, status: DeviceStatus)
        ensures
            final(self).target_status == status,
            final(self).to_update.pending_set() == (if old(self).target_status != status {
                old(self).to_update.pending_set().insert(DeviceDataItem::TargetStatus)
            } else {
                old(self).to_update.pending_set()
            }),
            final(self).abort_flag == old(self).abort_flag,
            final(self).status == old(self).status,
            final(self).status_extra == old(self).status_extra,
    {
        let old_status = self.target_status;
        self.target_status = status;
        if old_status != status {
            self.to_update.insert(DeviceDataItem::TargetStatus);
        }
    }

    /// Set the free-text diagnostic for the current status.
    pub fn set_device_status_extra(&mut self, message: &str)
        ensures
            final(self).status_extra matches Some(m) && m@ == message@,
            final(self).abort_flag == old(self).abort_flag,
            final(self).status == old(self).status,
            final(self).target_status == old(self).target_status,
            final(self).to_update == old(self).to_update,
    {
        self.status_extra = Some(message.to_owned());
    }

    /// Remove the free-text diagnostic.
    pub fn clear_device_status_extra(&mut self)
        ensures
            final(self).status_extra is None,
            final(self).abort_flag == old(self).abort_flag,
            final(self).status == old(self).status,
            final(self).target_status == old(self).target_status,
            final(self).to_update == old(self).to_update,
    {
        self.status_extra = None;
    }

    /// The free-text diagnostic for the current status, if any.
    pub fn get_device_status_extra(&self) -> (r: Option<String>)
        ensures
            r == self.status_extra,
    {
        match &self.status_extra {
            Some(m) => Some(m.clone()),
            None => None,
        }
    }

    /// Whether the supervisor has been asked to shut down.
    pub fn is_aborted(&self) -> (r: bool)
        ensures
            r == self.abort_flag,
    {
        self.abort_flag
    }

    /// Ask the supervisor to shut down. The flag is monotonic: no
    /// operation ever clears it again.
    pub fn set_aborted(&mut self)
        ensures
            final(self).abort_flag,
            final(self).status == old(self).status,
            final(self).target_status == old(self).target_status,
            final(self).status_extra == old(self).status_extra,
            final(self).to_update == old(self).to_update,
    {
        self.abort_flag = true;
    }
}

/// A bioreactor device that is reached over a TCP socket. The device
/// holds the state block its connection supervisor maintains and the
/// phase the supervisor is in; the embedding program performs the
/// blocking socket work and reports each outcome through
/// [`NetworkReactor::supervisor_step`].
#[derive(Debug)]
pub struct NetworkReactor {
    pub metadata: DeviceMetadata,
    pub info: DeviceInfo,
    pub phase: SupervisorPhase,
}

impl NetworkReactor {
    /// Create a new reactor from the provided configuration and the
    /// outcome of binding its listening socket; `bind_error` carries
    /// the reported reason when the bind failed. A reactor whose
    /// socket could not be bound is still a valid device, but it stays
    /// `Offline` forever, with a diagnostic that explains why.
    pub fn from_config(config: NetworkReactorConfig, bind_error: Option<String>) -> (r:
        NetworkReactor)
        ensures
            r.wf(),
            r.metadata == config.meta,
            !r.info.abort_flag,
            r.info.status == DeviceStatus::Offline,
            r.info.target_status == DeviceStatus::Inactive,
            r.info.to_update.pending_set() == Set::<DeviceDataItem>::empty(),
            bind_error matches Some(e) ==> ({
                &&& r.phase == SupervisorPhase::OfflineIdle
                &&& r.info.status_extra matches Some(m) && m@ == bind_failure_detail(e@)
                    && m@.len() > 0
            }),
            bind_error is None ==> ({
                &&& r.phase == SupervisorPhase::OfflineListening
                &&& r.info.status_extra matches Some(m) && m@ == waiting_detail()
            }),
    {
        let mut info = DeviceInfo::new();
        let phase: SupervisorPhase = match bind_error {
            Some(reason) => {
                let detail = make_bind_failure_detail(reason.as_str());
                info.set_device_status_extra(detail.as_str());
                SupervisorPhase::OfflineIdle
            },
            None => {
                info.set_device_status_extra("Waiting for a connection.");
                SupervisorPhase::OfflineListening
            },
        };
        NetworkReactor { metadata: config.meta, info, phase }
    }

    /// The blocking action the embedding program has to perform next
    /// for this reactor's supervisor.
    pub fn next_action(&self) -> (r: SupervisorAction)
        ensures
            r == spec_phase_action(self.phase),
    {
        match self.phase {
            SupervisorPhase::OfflineIdle => SupervisorAction::Halt,
            SupervisorPhase::OfflineListening => SupervisorAction::Accept,
            SupervisorPhase::OfflineSocketError => SupervisorAction::Backoff,
            SupervisorPhase::Connected => SupervisorAction::Poll,
            SupervisorPhase::Stopped => SupervisorAction::Halt,
        }
    }

    /// Advance the supervisor by one observed event.
    ///
    /// If the abort flag has been set the supervisor stops at once and
    /// changes nothing else. Otherwise an accepted connection moves a
    /// listening supervisor to `Connected`, a failed accept records
    /// the socket error and schedules a backoff, and an elapsed
    /// backoff returns to listening with a fresh waiting diagnostic.
    /// The abort flag, the target status and the pending-update set
    /// are never touched, and the metadata never changes.
    pub fn supervisor_step(&mut self, event: SupervisorEvent)
        ensures
            final(self).metadata == old(self).metadata,
            final(self).info.abort_flag == old(self).info.abort_flag,
            final(self).info.target_status == old(self).info.target_status,
            final(self).info.to_update == old(self).info.to_update,
            final(self).phase == spec_step_phase(old(self).info.abort_flag, old(self).phase, event),
            old(self).info.abort_flag ==> final(self).info == old(self).info,
            !old(self).info.abort_flag ==> match (old(self).phase, event) {
                (SupervisorPhase::OfflineListening, SupervisorEvent::Accepted) => {
                    &&& final(self).info.status == old(self).info.status
                    &&& final(self).info.status_extra matches Some(m) && m@ == connecting_detail()
                },
                (SupervisorPhase::OfflineListening, SupervisorEvent::AcceptFailed(e)) => {
                    &&& final(self).info.status == old(self).info.status
                    &&& final(self).info.status_extra matches Some(m) && m@ == socket_error_detail(
                        e@,
                    )
                },
                (SupervisorPhase::OfflineSocketError, SupervisorEvent::BackoffElapsed) => {
                    &&& final(self).info.status == DeviceStatus::Offline
                    &&& final(self).info.status_extra matches Some(m) && m@ == waiting_detail()
                },
                _ => final(self).info == old(self).info,
            },
            old(self).wf() ==> final(self).wf(),
    {
        if self.info.is_aborted() {
            self.phase = SupervisorPhase::Stopped;
        } else {
            match (self.phase, event) {
                (SupervisorPhase::OfflineListening, SupervisorEvent::Accepted) => {
                    self.info.set_device_status_extra("Connecting...");
                    self.phase = SupervisorPhase::Connected;
                },
                (SupervisorPhase::OfflineListening, SupervisorEvent::AcceptFailed(reason)) => {
                    let detail = make_socket_error_detail(reason.as_str());
                    self.info.set_device_status_extra(detail.as_str());
                    self.phase = SupervisorPhase::OfflineSocketError;
                },
                (SupervisorPhase::OfflineSocketError, SupervisorEvent::BackoffElapsed) => {
                    self.info.set_device_status(DeviceStatus::Offline);
                    self.info.set_device_status_extra("Waiting for a connection.");
                    self.phase = SupervisorPhase::OfflineListening;
                },
                _ => {},
            }
        }
    }

    /// Ask this reactor's supervisor to shut down. The abort flag is
    /// monotonic, so the supervisor's next step observes it and stops;
    /// the embedding program is expected to wait for its background
    /// task after calling this.
    pub fn abort(&mut self)
        ensures
            final(self).info.abort_flag,
            final(self).metadata == old(self).metadata,
            final(self).phase == old(self).phase,
            final(self).info.status == old(self).info.status,
            final(self).info.target_status == old(self).info.target_status,
            final(self).info.status_extra == old(self).info.status_extra,
            final(self).info.to_update == old(self).info.to_update,
            old(self).wf() ==> final(self).wf(),
    {
        self.info.set_aborted();
    }
}

impl Bioreactor for NetworkReactor {
    /// A reactor whose bind failed for good is `Offline` and carries a
    /// non-empty diagnostic explaining the failure.
    open spec fn wf(&self) -> bool {
        self.phase == SupervisorPhase::OfflineIdle ==> self.info.status == DeviceStatus::Offline
            && (self.info.status_extra matches Some(m) && m@.len() > 0)
    }

    open spec fn spec_id(&self) -> Seq<char> {
        self.metadata.id@
    }

    open spec fn spec_name(&self) -> Seq<char> {
        self.metadata.name@
    }

    open spec fn spec_description(&self) -> Option<Seq<char>> {
        self.metadata.description.deep_view()
    }

    open spec fn spec_current_status(&self) -> DeviceStatus {
        self.info.status
    }

    open spec fn spec_target_status(&self) -> DeviceStatus {
        self.info.target_status
    }

    open spec fn spec_current_status_extra(&self) -> Option<Seq<char>> {
        self.info.status_extra.deep_view()
    }

    fn get_id(&self) -> (r: String) {
        self.metadata.id.clone()
    }

    fn get_name(&self) -> (r: String) {
        self.metadata.name.clone()
    }

    fn get_description(&self) -> (r: Option<String>) {
        match &self.metadata.description {
            Some(d) => Some(d.clone()),
            None => None,
        }
    }

    fn get_current_status(&self) -> (r: DeviceStatus) {
        self.info.get_device_status()
    }

    fn get_current_status_extra(&self) -> (r: Option<String>) {
        self.info.get_device_status_extra()
    }

    fn get_target_status(&self) -> (r: DeviceStatus) {
        self.info.get_device_target_status()
    }

    /// On success only the target status and the pending-update set
    /// change: the new target is recorded, and — if it differs from
    /// the previous target — marked as still to be transmitted.
    fn set_target_status(&mut self, status: DeviceStatus) -> (r: Result<(), SetStatusError>)
        ensures
            final(self).phase == old(self).phase,
            final(self).info.abort_flag == old(self).info.abort_flag,
            final(self).info.status == old(self).info.status,
            final(self).info.status_extra == old(self).info.status_extra,
            r is Ok ==> final(self).info.target_status == status
                && final(self).info.to_update.pending_set() == (if old(self).info.target_status
                != status {
                old(self).info.to_update.pending_set().insert(DeviceDataItem::TargetStatus)
            } else {
                old(self).info.to_update.pending_set()
            }),
            r is Err ==> *final(self) == *old(self),
    {
        if status == DeviceStatus::Offline {
            Err(SetStatusError::InvalidTarget)
        } else if self.info.get_device_status() == DeviceStatus::Offline {
            Err(SetStatusError::DeviceUnreachable)
        } else {
            self.info.set_device_target_status(status);
            Ok(())
        }
    }
}

} // verus!
