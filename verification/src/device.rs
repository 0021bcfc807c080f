//! The device capability: lifecycle status values, the uniform trait all
//! device variants implement, and the typed errors a status-change
//! request can produce.

use vstd::prelude::*;
use vstd::rwlock::{ReadHandle, RwLock, RwLockPredicate, WriteHandle};

use crate::network_bioreactor::NetworkReactor;
use crate::test_bioreactor::TestReactor;

verus! {

/// Relies on `<str as PartialEq>::eq`: standard string equality holds
/// exactly when the two strings are the same sequence of characters.
pub assume_specification[ <str as PartialEq<str>>::eq ](a: &str, b: &str) -> (r: bool)
    ensures
        r == (a@ == b@),
;

/// String equality, routed through `str::eq` so its specification
/// applies.
fn str_eq(a: &str, b: &str) -> (r: bool)
    ensures
        r == (a@ == b@),
{
    a.eq(b)
}

/// High-level lifecycle state of a bioreactor device.
///
/// `Offline` means the device cannot be reached; it is reserved for the
/// connection machinery and is never a valid target status. `Inactive`
/// means the device is connected with its instruments powered down, and
/// `Active` means the instruments are running.
#[derive(Copy, Clone, Debug, PartialEq, Eq, Structural)]
pub enum DeviceStatus {
    Offline,
    Inactive,
    Active,
}

/// Why a status-change request was rejected.
#[derive(Copy, Clone, Debug, PartialEq, Eq, Structural)]
pub enum SetStatusError {
    /// `Offline` was requested as a target status; it can only be
    /// produced internally when connectivity is lost.
    InvalidTarget,
    /// The device is currently `Offline`, so no target status can be
    /// applied until connectivity returns.
    DeviceUnreachable,
}

impl SetStatusError {
    /// A human-readable description of the rejection.
    pub fn message(&self) -> (r: String)
        ensures
            r@.len() > 0,
    {
        match self {
            SetStatusError::InvalidTarget => {
                let m = "Setting device status to `Offline` is not permitted.";
                proof {
                    reveal_strlit("Setting device status to `Offline` is not permitted.");
                }
                m.to_owned()
            },
            SetStatusError::DeviceUnreachable => {
                let m = "Cannot set status of a device which is `Offline`.";
                proof {
                    reveal_strlit("Cannot set status of a device which is `Offline`.");
                }
                m.to_owned()
            },
        }
    }
}

/// The capability every bioreactor device variant implements: identity,
/// status snapshots, and status-change requests.
///
/// A status-change request is rejected with [`SetStatusError::InvalidTarget`]
/// whenever `Offline` is requested, in every state, and with
/// [`SetStatusError::DeviceUnreachable`] whenever the device is currently
/// `Offline`; otherwise it records the new target status. Metadata is
/// immutable: no operation changes the identifier, name or description.
pub trait Bioreactor: Sized {
    /// Internal validity of the variant.
    spec fn wf(&self) -> bool;

    /// The unique device identifier.
    spec fn spec_id(&self) -> Seq<char>;

    /// The human-readable device name.
    spec fn spec_name(&self) -> Seq<char>;

    /// The optional human-readable description.
    spec fn spec_description(&self) -> Option<Seq<char>>;

    /// The last observed device status.
    spec fn spec_current_status(&self) -> DeviceStatus;

    /// The status the device is being driven toward.
    spec fn spec_target_status(&self) -> DeviceStatus;

    /// The optional free-text diagnostic for the current status.
    spec fn spec_current_status_extra(&self) -> Option<Seq<char>>;

    /// Get the unique device ID (usually assigned in configuration).
    fn get_id(&self) -> (r: String)
        ensures
            r@ == self.spec_id(),
    ;

    /// Get the human-readable device name.
    fn get_name(&self) -> (r: String)
        ensures
            r@ == self.spec_name(),
    ;

    /// Get the optional human-readable device description.
    fn get_description(&self) -> (r: Option<String>)
        ensures
            r.deep_view() == self.spec_description(),
    ;

    /// Get a snapshot of the current device status.
    fn get_current_status(&self) -> (r: DeviceStatus)
        ensures
            r == self.spec_current_status(),
    ;

    /// Get the free-text diagnostic describing why the device is in its
    /// current status, if the variant provides one.
    fn get_current_status_extra(&self) -> (r: Option<String>)
        ensures
            r.deep_view() == self.spec_current_status_extra(),
    ;

    /// Get a snapshot of the status the device is being driven toward.
    fn get_target_status(&self) -> (r: DeviceStatus)
        ensures
            r == self.spec_target_status(),
    ;

    /// Try to update the desired device status.
    ///
    /// `Offline` is never accepted as a target, and a device whose
    /// current status is `Offline` rejects every request; on success the
    /// new target becomes visible to subsequent target-status reads.
    fn set_target_status(&mut self, status: DeviceStatus) -> (r: Result<(), SetStatusError>)
        ensures
            old(self).wf() ==> final(self).wf(),
            final(self).spec_id() == old(self).spec_id(),
            final(self).spec_name() == old(self).spec_name(),
            final(self).spec_description() == old(self).spec_description(),
            status == DeviceStatus::Offline ==> r == Err::<(), SetStatusError>(
                SetStatusError::InvalidTarget,
            ) && *final(self) == *old(self),
            status != DeviceStatus::Offline && old(self).spec_current_status()
                == DeviceStatus::Offline ==> r == Err::<(), SetStatusError>(
                SetStatusError::DeviceUnreachable,
            ) && *final(self) == *old(self),
            status != DeviceStatus::Offline && old(self).spec_current_status()
                != DeviceStatus::Offline ==> r == Ok::<(), SetStatusError>(())
                && final(self).spec_target_status() == status,
    ;
}

/// A standalone bioreactor device: the closed set of variants the
/// control plane knows, behind the uniform capability.
#[derive(Debug)]
pub enum BioreactorDevice {
    Test(TestReactor),
    Network(NetworkReactor),
}

impl Bioreactor for BioreactorDevice {
    open spec fn wf(&self) -> bool {
        match self {
            BioreactorDevice::Test(t) => t.wf(),
            BioreactorDevice::Network(n) => n.wf(),
        }
    }

    open spec fn spec_id(&self) -> Seq<char> {
        match self {
            BioreactorDevice::Test(t) => t.spec_id(),
            BioreactorDevice::Network(n) => n.spec_id(),
        }
    }

    open spec fn spec_name(&self) -> Seq<char> {
        match self {
            BioreactorDevice::Test(t) => t.spec_name(),
            BioreactorDevice::Network(n) => n.spec_name(),
        }
    }

    open spec fn spec_description(&self) -> Option<Seq<char>> {
        match self {
            BioreactorDevice::Test(t) => t.spec_description(),
            BioreactorDevice::Network(n) => n.spec_description(),
        }
    }

    open spec fn spec_current_status(&self) -> DeviceStatus {
        match self {
            BioreactorDevice::Test(t) => t.spec_current_status(),
            BioreactorDevice::Network(n) => n.spec_current_status(),
        }
    }

    open spec fn spec_target_status(&self) -> DeviceStatus {
        match self {
            BioreactorDevice::Test(t) => t.spec_target_status(),
            BioreactorDevice::Network(n) => n.spec_target_status(),
        }
    }

    open spec fn spec_current_status_extra(&self) -> Option<Seq<char>> {
        match self {
            BioreactorDevice::Test(t) => t.spec_current_status_extra(),
            BioreactorDevice::Network(n) => n.spec_current_status_extra(),
        }
    }

    fn get_id(&self) -> (r: String) {
        match self {
            BioreactorDevice::Test(t) => t.get_id(),
            BioreactorDevice::Network(n) => n.get_id(),
        }
    }

    fn get_name(&self) -> (r: String) {
        match self {
            BioreactorDevice::Test(t) => t.get_name(),
            BioreactorDevice::Network(n) => n.get_name(),
        }
    }

    fn get_description(&self) -> (r: Option<String>) {
        match self {
            BioreactorDevice::Test(t) => t.get_description(),
            BioreactorDevice::Network(n) => n.get_description(),
        }
    }

    fn get_current_status(&self) -> (r: DeviceStatus) {
        match self {
            BioreactorDevice::Test(t) => t.get_current_status(),
            BioreactorDevice::Network(n) => n.get_current_status(),
        }
    }

    fn get_current_status_extra(&self) -> (r: Option<String>) {
        match self {
            BioreactorDevice::Test(t) => t.get_current_status_extra(),
            BioreactorDevice::Network(n) => n.get_current_status_extra(),
        }
    }

    fn get_target_status(&self) -> (r: DeviceStatus) {
        match self {
            BioreactorDevice::Test(t) => t.get_target_status(),
            BioreactorDevice::Network(n) => n.get_target_status(),
        }
    }

    fn set_target_status(&mut self, status: DeviceStatus) -> (r: Result<(), SetStatusError>) {
        match self {
            BioreactorDevice::Test(t) => t.set_target_status(status),
            BioreactorDevice::Network(n) => n.set_target_status(status),
        }
    }
}

/// The identifiers of a sequence of devices, in order.
pub open spec fn ids_of(devices: Seq<BioreactorDevice>) -> Seq<Seq<char>> {
    devices.map_values(|d: BioreactorDevice| d.spec_id())
}

/// No identifier occurs twice.
pub open spec fn all_ids_distinct(ids: Seq<Seq<char>>) -> bool {
    forall|i: int, j: int| 0 <= i < j < ids.len() ==> ids[i] != ids[j]
}

/// Why a depot could not be built.
#[derive(Copy, Clone, Debug, PartialEq, Eq, Structural)]
pub enum DepotError {
    /// Two configured devices share an identifier.
    DuplicateDeviceId,
}

impl DepotError {
    /// A human-readable description of the configuration error.
    pub fn message(&self) -> (r: String)
        ensures
            r@.len() > 0,
    {
        let m = "Device identifiers must be unique.";
        proof {
            reveal_strlit("Device identifiers must be unique.");
        }
        m.to_owned()
    }
}

/// The lock invariant of one depot slot: whatever is stored under a
/// device's lock is a well-formed device that still carries the
/// identifier the slot was created for.
pub struct DevicePred {
    pub id: Seq<char>,
}

impl RwLockPredicate<BioreactorDevice> for DevicePred {
    open spec fn inv(self, d: BioreactorDevice) -> bool {
        d.spec_id() == self.id && d.wf()
    }
}

/// One slot of the depot: a device identifier and the reader-writer
/// lock guarding the device that carries it.
pub struct DepotEntry {
    pub id: String,
    pub lock: RwLock<BioreactorDevice, DevicePred>,
}

/// Thread-safe storage for the configured bioreactor devices.
///
/// The set of devices is fixed when the depot is built and never
/// changes afterwards; every device is guarded by its own
/// reader-writer lock, so operations on distinct devices never
/// contend. Reading device state takes a read lock; changing the
/// device takes the write lock.
///
/// A single logical operation must not hold two guards for the same
/// device at once (the lock is not reentrant); guards for different
/// devices are always safe to combine.
pub struct DeviceDepot {
    pub entries: Vec<DepotEntry>,
}

impl DeviceDepot {
    /// The identifiers of the stored devices, in construction order.
    pub open spec fn spec_ids(&self) -> Seq<Seq<char>> {
        Seq::new(self.entries@.len(), |i: int| self.entries@[i].id@)
    }

    /// Whether some device with identifier `id` is stored.
    pub open spec fn spec_has_id(&self, id: Seq<char>) -> bool {
        self.spec_ids().contains(id)
    }

    /// Identifiers are unique, and every slot's lock carries the
    /// invariant tying its contents to the slot's identifier.
    pub open spec fn wf(&self) -> bool {
        &&& all_ids_distinct(self.spec_ids())
        &&& forall|i: int|
            0 <= i < self.entries@.len() ==> (#[trigger] self.entries@[i].lock).pred()
                == (DevicePred { id: self.entries@[i].id@ })
    }

    /// Wrap a collection of devices into a depot, one lock per device.
    ///
    /// The build is all-or-nothing: if two devices share an identifier
    /// the depot is not constructed and the configuration error is
    /// reported instead.
    pub fn new(devices: Vec<BioreactorDevice>) -> (r: Result<DeviceDepot, DepotError>)
        requires
            forall|i: int| 0 <= i < devices@.len() ==> (#[trigger] devices@[i]).wf(),
        ensures
            r is Ok <==> all_ids_distinct(ids_of(devices@)),
            r matches Ok(depot) ==> depot.wf() && depot.spec_ids() == ids_of(devices@),
            r matches Err(e) ==> e == DepotError::DuplicateDeviceId,
    {
        let ids = collect_ids(&devices);
        if has_duplicate_id(&ids) {
            return Err(DepotError::DuplicateDeviceId);
        }
        let ghost orig = devices@;
        let mut rest = devices;
        let mut entries: Vec<DepotEntry> = Vec::new();
        while rest.len() > 0
            invariant
                entries@.len() + rest@.len() == orig.len(),
                rest@ == orig.skip(entries@.len() as int),
                forall|i: int| 0 <= i < orig.len() ==> (#[trigger] orig[i]).wf(),
                forall|k: int|
                    0 <= k < entries@.len() ==> (#[trigger] entries@[k].id)@ == ids_of(orig)[k],
                forall|k: int|
                    0 <= k < entries@.len() ==> (#[trigger] entries@[k].lock).pred()
                        == (DevicePred { id: entries@[k].id@ }),
            decreases rest@.len(),
        {
            let ghost k = entries@.len() as int;
            let d = rest.remove(0);
            proof {
                assert(d == orig[k]);
                assert(rest@ =~= orig.skip(k + 1));
            }
            let id = d.get_id();
            let lock = RwLock::<BioreactorDevice, DevicePred>::new(
                d,
                Ghost(DevicePred { id: id@ }),
            );
            entries.push(DepotEntry { id, lock });
        }
        let depot = DeviceDepot { entries };
        proof {
            assert(depot.spec_ids() =~= ids_of(orig));
        }
        Ok(depot)
    }

    /// Get a vector of all device identifiers managed in this depot.
    pub fn device_ids(&self) -> (r: Vec<String>)
        ensures
            r.deep_view() == self.spec_ids(),
    {
        let mut r: Vec<String> = Vec::new();
        let n = self.entries.len();
        let mut i: usize = 0;
        while i < n
            invariant
                i <= n,
                n == self.entries@.len(),
                r.deep_view() == self.spec_ids().take(i as int),
            decreases n - i,
        {
            let ghost before = r.deep_view();
            r.push(self.entries[i].id.clone());
            proof {
                assert(r.deep_view() =~= before.push(self.entries@[i as int].id@));
                assert(r.deep_view() =~= self.spec_ids().take(i as int + 1));
            }
            i += 1;
        }
        proof {
            assert(self.spec_ids().take(n as int) =~= self.spec_ids());
        }
        r
    }

    /// Whether a device with identifier `id` is stored, without
    /// touching any device lock.
    pub fn has_device(&self, id: &str) -> (r: bool)
        requires
            self.wf(),
        ensures
            r == self.spec_has_id(id@),
    {
        let n = self.entries.len();
        let mut i: usize = 0;
        while i < n
            invariant
                i <= n,
                n == self.entries@.len(),
                forall|k: int| 0 <= k < i ==> self.spec_ids()[k] != id@,
            decreases n - i,
        {
            if str_eq(self.entries[i].id.as_str(), id) {
                proof {
                    assert(self.spec_ids()[i as int] == id@);
                }
                return true;
            }
            i += 1;
        }
        proof {
            assert(!self.spec_has_id(id@)) by {
                if self.spec_has_id(id@) {
                    let w = choose|w: int|
                        0 <= w < self.spec_ids().len() && self.spec_ids()[w] == id@;
                    assert(self.spec_ids()[w] != id@);
                }
            }
        }
        false
    }

    /// Acquire the read lock of the device with identifier `id`, if
    /// the depot knows it. The handle exposes a well-formed device
    /// that carries exactly this identifier; release it with
    /// `release_read` when done.
    pub fn get_device(&self, id: &str) -> (r: Option<
        ReadHandle<'_, BioreactorDevice, DevicePred>,
    >)
        requires
            self.wf(),
        ensures
            r is Some <==> self.spec_has_id(id@),
            r matches Some(h) ==> ({
                &&& h.rwlock().pred() == (DevicePred { id: id@ })
                &&& h.view().spec_id() == id@
                &&& h.view().wf()
            }),
    {
        let n = self.entries.len();
        let mut i: usize = 0;
        while i < n
            invariant
                i <= n,
                n == self.entries@.len(),
                self.wf(),
                forall|k: int| 0 <= k < i ==> self.spec_ids()[k] != id@,
            decreases n - i,
        {
            if str_eq(self.entries[i].id.as_str(), id) {
                let handle = self.entries[i].lock.acquire_read();
                proof {
                    assert(self.spec_ids()[i as int] == id@);
                }
                return Some(handle);
            }
            i += 1;
        }
        proof {
            assert(!self.spec_has_id(id@)) by {
                if self.spec_has_id(id@) {
                    let w = choose|w: int|
                        0 <= w < self.spec_ids().len() && self.spec_ids()[w] == id@;
                    assert(self.spec_ids()[w] != id@);
                }
            }
        }
        None
    }

    /// Acquire the write lock of the device with identifier `id`, if
    /// the depot knows it. The device is handed out by value together
    /// with the write handle; store a device back with
    /// `release_write`, which demands a well-formed device with the
    /// same identifier.
    pub fn get_device_mut(&self, id: &str) -> (r: Option<
        (BioreactorDevice, WriteHandle<'_, BioreactorDevice, DevicePred>),
    >)
        requires
            self.wf(),
        ensures
            r is Some <==> self.spec_has_id(id@),
            r matches Some(p) ==> ({
                &&& p.1.rwlock().pred() == (DevicePred { id: id@ })
                &&& p.0.spec_id() == id@
                &&& p.0.wf()
            }),
    {
        let n = self.entries.len();
        let mut i: usize = 0;
        while i < n
            invariant
                i <= n,
                n == self.entries@.len(),
                self.wf(),
                forall|k: int| 0 <= k < i ==> self.spec_ids()[k] != id@,
            decreases n - i,
        {
            if str_eq(self.entries[i].id.as_str(), id) {
                let (device, handle) = self.entries[i].lock.acquire_write();
                proof {
                    assert(self.spec_ids()[i as int] == id@);
                }
                return Some((device, handle));
            }
            i += 1;
        }
        proof {
            assert(!self.spec_has_id(id@)) by {
                if self.spec_has_id(id@) {
                    let w = choose|w: int|
                        0 <= w < self.spec_ids().len() && self.spec_ids()[w] == id@;
                    assert(self.spec_ids()[w] != id@);
                }
            }
        }
        None
    }

    /// Try to update the target status of the device with identifier
    /// `id`: the computing part of an update request.
    ///
    /// Returns `None` exactly when the identifier is unknown.
    /// Requesting `Offline` is rejected on every device in every
    /// state; any other request either succeeds or is rejected
    /// because the device found under the lock was `Offline`.
    pub fn update_target_status(&self, id: &str, status: DeviceStatus) -> (r: Option<
        Result<(), SetStatusError>,
    >)
        requires
            self.wf(),
        ensures
            r is Some <==> self.spec_has_id(id@),
            status == DeviceStatus::Offline ==> (r matches Some(res) ==> res == Err::<
                (),
                SetStatusError,
            >(SetStatusError::InvalidTarget)),
            status != DeviceStatus::Offline ==> (r matches Some(res) ==> res == Ok::<
                (),
                SetStatusError,
            >(()) || res == Err::<(), SetStatusError>(SetStatusError::DeviceUnreachable)),
    {
        match self.get_device_mut(id) {
            None => None,
            Some((mut device, handle)) => {
                let res = device.set_target_status(status);
                handle.release_write(device);
                Some(res)
            },
        }
    }

    /// The identifiers of a well-formed depot contain no duplicates;
    /// together with the construction contract of [`DeviceDepot::new`]
    /// they match exactly the identifiers of the devices the depot was
    /// built from.
    pub proof fn lemma_ids_have_no_duplicates(&self)
        requires
            self.wf(),
        ensures
            all_ids_distinct(self.spec_ids()),
    {
    }

    /// Two different slots of a well-formed depot hold two different
    /// locks: acquiring the device of one identifier can never contend
    /// with holders of another identifier's device.
    pub proof fn lemma_distinct_ids_use_distinct_locks(&self, i: int, j: int)
        requires
            self.wf(),
            0 <= i < self.entries@.len(),
            0 <= j < self.entries@.len(),
            i != j,
        ensures
            self.entries@[i].lock.pred() != self.entries@[j].lock.pred(),
            self.entries@[i].lock != self.entries@[j].lock,
    {
        if i < j {
            assert(self.spec_ids()[i] != self.spec_ids()[j]);
        } else {
            assert(self.spec_ids()[j] != self.spec_ids()[i]);
        }
    }
}

/// The identifiers of the given devices, in order.
fn collect_ids(devices: &Vec<BioreactorDevice>) -> (r: Vec<String>)
    ensures
        r.deep_view() == ids_of(devices@),
{
    let mut r: Vec<String> = Vec::new();
    let n = devices.len();
    let mut i: usize = 0;
    while i < n
        invariant
            i <= n,
            n == devices@.len(),
            r.deep_view() == ids_of(devices@).take(i as int),
        decreases n - i,
    {
        let ghost before = r.deep_view();
        let id = devices[i].get_id();
        r.push(id);
        proof {
            assert(r.deep_view() =~= before.push(devices@[i as int].spec_id()));
            assert(r.deep_view() =~= ids_of(devices@).take(i as int + 1));
        }
        i += 1;
    }
    proof {
        assert(ids_of(devices@).take(n as int) =~= ids_of(devices@));
    }
    r
}

/// Whether two of the given identifiers are the same.
fn has_duplicate_id(ids: &Vec<String>) -> (r: bool)
    ensures
        r == !all_ids_distinct(ids.deep_view()),
{
    let n = ids.len();
    let mut i: usize = 0;
    while i < n
        invariant
            i <= n,
            n == ids@.len(),
            forall|a: int, b: int| 0 <= a < b < n && a < i ==> ids.deep_view()[a] != ids.deep_view()[b],
        decreases n - i,
    {
        let mut j: usize = i + 1;
        while j < n
            invariant
                i < j || i + 1 == j,
                i < n,
                j <= n,
                n == ids@.len(),
                forall|b: int| i < b < j ==> ids.deep_view()[i as int] != ids.deep_view()[b],
            decreases n - j,
        {
            if str_eq(ids[i].as_str(), ids[j].as_str()) {
                assert(ids.deep_view()[i as int] == ids.deep_view()[j as int]);
                return true;
            }
            j += 1;
        }
        i += 1;
    }
    false
}

} // verus!
