//! Device-control book-keeping of the backend: the device cache, manual
//! selection versus following the system default, the rates to restore on
//! release, and exclusive (hog) mode. Hardware queries and changes are made
//! by the caller, which reports their outcome here and performs the changes
//! planned here.

use vstd::prelude::*;
use vstd::string::StringExecFns;
use crate::error::{AudioBackendError, decimal, u32_text};
use crate::rates::{find_best_supported_rate, is_best_rate, FALLBACK_RATE};
use crate::types::{DeviceInfo, ExclusiveMode};

verus! {

/// Two device descriptions that read the same.
pub open spec fn same_device(a: DeviceInfo, b: DeviceInfo) -> bool {
    &&& a.id@ == b.id@
    &&& a.name@ == b.name@
    &&& (match (a.manufacturer, b.manufacturer) {
        (Some(x), Some(y)) => x@ == y@,
        (None, None) => true,
        _ => false,
    })
    &&& a.is_default == b.is_default
    &&& a.supported_sample_rates@ == b.supported_sample_rates@
    &&& a.current_sample_rate == b.current_sample_rate
    &&& a.max_channels == b.max_channels
    &&& a.supports_exclusive == b.supports_exclusive
}

/// A copy of a list of rates.
pub fn copy_rates(v: &Vec<u32>) -> (r: Vec<u32>)
    ensures
        r@ == v@,
{
    let mut out: Vec<u32> = Vec::new();
    let mut i: usize = 0;
    while i < v.len()
        invariant
            0 <= i <= v@.len(),
            out@ == v@.subrange(0, i as int),
        decreases v@.len() - i,
    {
        out.push(v[i]);
        i = i + 1;
        proof {
            assert(v@.subrange(0, i as int) == v@.subrange(0, i - 1).push(v@[i - 1]));
        }
    }
    proof {
        assert(v@.subrange(0, v@.len() as int) == v@);
    }
    out
}

impl DeviceInfo {
    /// A copy that reads the same.
    pub fn duplicate(&self) -> (r: DeviceInfo)
        ensures
            same_device(r, *self),
    {
        DeviceInfo {
            id: self.id.clone(),
            name: self.name.clone(),
            manufacturer: match &self.manufacturer {
                Some(m) => Some(m.clone()),
                None => None,
            },
            is_default: self.is_default,
            supported_sample_rates: copy_rates(&self.supported_sample_rates),
            current_sample_rate: self.current_sample_rate,
            max_channels: self.max_channels,
            supports_exclusive: self.supports_exclusive,
        }
    }
}

/// Whether the hardware adopted the requested rate, as read back after the
/// change; if not, the error names both rates.
pub fn confirm_rate(requested: u32, actual: u32) -> (r: Result<(), AudioBackendError>)
    ensures
        r is Ok <==> actual == requested,
        r matches Err(AudioBackendError::SampleRateChangeFailed { requested: q, reason }) ==> q == requested
            && reason@ == "Device set to "@ + decimal(actual as nat) + " Hz instead of "@ + decimal(requested as nat) + " Hz"@,
        r matches Err(e) ==> e is SampleRateChangeFailed,
{
    if actual == requested {
        return Ok(());
    }
    let got = u32_text(actual);
    let wanted = u32_text(requested);
    let reason = String::from_str("Device set to ").concat(got.as_str()).concat(" Hz instead of ").concat(
        wanted.as_str(),
    ).concat(" Hz");
    Err(AudioBackendError::SampleRateChangeFailed { requested, reason })
}

/// A cache entry: the platform's device handle and what is known of it.
#[derive(Debug, Clone)]
pub struct CachedDevice {
    pub object_id: u32,
    pub info: DeviceInfo,
}

impl CachedDevice {
    /// The entry for device `object_id` from what the hardware reported;
    /// what it could not report takes a default (name "Unknown", the
    /// fallback rate, no supported rates).
    pub fn from_probe(
        object_id: u32,
        name: Option<String>,
        current_rate: Option<u32>,
        supported_rates: Option<Vec<u32>>,
        max_channels: u16,
        default_device: Option<u32>,
    ) -> (r: CachedDevice)
        ensures
            r.object_id == object_id,
            r.info.id@ == decimal(object_id as nat),
            r.info.name@ == (match name { Some(n) => n@, None => "Unknown"@ }),
            r.info.manufacturer is None,
            r.info.is_default == (default_device == Some(object_id)),
            r.info.supported_sample_rates@ == (match supported_rates { Some(v) => v@, None => Seq::empty() }),
            r.info.current_sample_rate == (match current_rate { Some(c) => c, None => FALLBACK_RATE }),
            r.info.max_channels == max_channels,
            r.info.supports_exclusive,
    {
        let is_default = match default_device {
            Some(d) => d == object_id,
            None => false,
        };
        CachedDevice {
            object_id,
            info: DeviceInfo {
                id: u32_text(object_id),
                name: match name {
                    Some(n) => n,
                    None => String::from_str("Unknown"),
                },
                manufacturer: None,
                is_default,
                supported_sample_rates: match supported_rates {
                    Some(v) => v,
                    None => Vec::new(),
                },
                current_sample_rate: match current_rate {
                    Some(c) => c,
                    None => FALLBACK_RATE,
                },
                max_channels,
                supports_exclusive: true,
            },
        }
    }
}

pub open spec fn has_device(devs: Seq<CachedDevice>, id: u32) -> bool {
    exists|i: int| 0 <= i < devs.len() && devs[i].object_id == id
}

/// Whether `d` reads the same as the last entry of `all` for its device.
pub open spec fn listed_in(all: Seq<CachedDevice>, d: CachedDevice) -> bool {
    exists|j: int|
        0 <= j < all.len() && all[j].object_id == d.object_id && same_device(all[j].info, d.info)
            && forall|k: int| j < k < all.len() ==> #[trigger] all[k].object_id != d.object_id
}

pub open spec fn has_rate_entry(rates: Seq<(u32, u32)>, id: u32) -> bool {
    exists|i: int| 0 <= i < rates.len() && rates[i].0 == id
}

/// The supported rates that the cache holds for `id` (none when absent).
pub open spec fn cached_rates(devs: Seq<CachedDevice>, id: u32) -> Seq<u32> {
    if has_device(devs, id) {
        let i = choose|i: int| 0 <= i < devs.len() && devs[i].object_id == id;
        devs[i].info.supported_sample_rates@
    } else {
        Seq::empty()
    }
}

/// A change of hog ownership to make on a device.
#[derive(Debug, Clone, Copy, PartialEq, Eq, Structural)]
pub enum HogChange {
    Engage,
    Release,
}

/// What preparing a device for a stream involves.
#[derive(Debug, Clone, Copy, PartialEq, Eq, Structural)]
pub struct StreamingPlan {
    /// The rate the device will run at.
    pub target_rate: u32,
    /// Whether the device's nominal rate must change to it.
    pub change_rate: bool,
    /// Whether hog ownership is (re)claimed.
    pub engage_hog: bool,
}

/// What releasing the backend involves.
#[derive(Debug, Clone)]
pub struct ReleasePlan {
    /// Device whose hog ownership is given up, if any.
    pub release_hog_on: Option<u32>,
    /// Devices to set back to their original rates: `(device, rate)`.
    pub restore: Vec<(u32, u32)>,
}

/// Book-keeping of the device backend.
#[derive(Debug)]
pub struct DeviceManager {
    /// Device chosen by the user; `None` follows the system default.
    pub manual_device_id: Option<u32>,
    pub devices: Vec<CachedDevice>,
    pub exclusive_mode: ExclusiveMode,
    /// Rate of each device before this backend first changed it.
    pub original_sample_rates: Vec<(u32, u32)>,
    /// Device in use at the last check.
    pub last_device_id: u32,
}

impl DeviceManager {
    /// Each device and each original rate is recorded once, and a cached
    /// device's id is its handle in decimal.
    pub open spec fn wf(&self) -> bool {
        &&& forall|i: int, j: int|
            0 <= i < self.devices@.len() && 0 <= j < self.devices@.len()
                && self.devices@[i].object_id == self.devices@[j].object_id ==> i == j
        &&& forall|i: int| 0 <= i < self.devices@.len() ==> self.devices@[i].info.id@ == decimal(
            self.devices@[i].object_id as nat,
        )
        &&& forall|i: int, j: int|
            0 <= i < self.original_sample_rates@.len() && 0 <= j < self.original_sample_rates@.len()
                && self.original_sample_rates@[i].0 == self.original_sample_rates@[j].0 ==> i == j
    }

    /// A backend that follows the system default, currently `default_device`.
    pub fn new(default_device: u32) -> (r: Self)
        ensures
            r.wf(),
            r.manual_device_id is None,
            r.devices@.len() == 0,
            r.exclusive_mode == ExclusiveMode::Shared,
            r.original_sample_rates@.len() == 0,
            r.last_device_id == default_device,
    {
        DeviceManager {
            manual_device_id: None,
            devices: Vec::new(),
            exclusive_mode: ExclusiveMode::Shared,
            original_sample_rates: Vec::new(),
            last_device_id: default_device,
        }
    }

    /// The device in use: the manual choice, else the system default.
    pub fn active_device(&self, system_default: Option<u32>) -> (r: Result<u32, AudioBackendError>)
        ensures
            match self.manual_device_id {
                Some(m) => r == Ok::<u32, AudioBackendError>(m),
                None => match system_default {
                    Some(d) => r == Ok::<u32, AudioBackendError>(d),
                    None => r matches Err(AudioBackendError::DeviceNotFound(m)) && m@ == "No default output device"@,
                },
            },
    {
        match self.manual_device_id {
            Some(m) => Ok(m),
            None => match system_default {
                Some(d) => Ok(d),
                None => Err(AudioBackendError::DeviceNotFound(String::from_str("No default output device"))),
            },
        }
    }

    /// Records a change of the device in use (`active`, when known). Returns
    /// the new device when it differs from the last one; the cache should
    /// then be refreshed.
    pub fn check_device_change(&mut self, active: Option<u32>) -> (r: Option<u32>)
        ensures
            r == (match active {
                Some(a) => if a != old(self).last_device_id { Some(a) } else { None },
                None => None,
            }),
            final(self).last_device_id == (match r { Some(a) => a, None => old(self).last_device_id }),
            final(self).manual_device_id == old(self).manual_device_id,
            final(self).devices == old(self).devices,
            final(self).exclusive_mode == old(self).exclusive_mode,
            final(self).original_sample_rates == old(self).original_sample_rates,
    {
        match active {
            Some(a) => {
                if a != self.last_device_id {
                    self.last_device_id = a;
                    Some(a)
                } else {
                    None
                }
            },
            None => None,
        }
    }

    /// Index of the cache entry of device `id`.
    pub fn device_index(&self, id: u32) -> (r: Option<usize>)
        ensures
            match r {
                Some(i) => i < self.devices@.len() && self.devices@[i as int].object_id == id,
                None => !has_device(self.devices@, id),
            },
    {
        let mut i: usize = 0;
        while i < self.devices.len()
            invariant
                0 <= i <= self.devices@.len(),
                forall|j: int| 0 <= j < i ==> self.devices@[j].object_id != id,
            decreases self.devices@.len() - i,
        {
            if self.devices[i].object_id == id {
                return Some(i);
            }
            i = i + 1;
        }
        None
    }

    /// Index of the cache entry whose textual id is `device_id`.
    pub fn index_of_text_id(&self, device_id: &str) -> (r: Option<usize>)
        ensures
            match r {
                Some(i) => i < self.devices@.len() && self.devices@[i as int].info.id@ == device_id@,
                None => forall|j: int| 0 <= j < self.devices@.len() ==> self.devices@[j].info.id@ != device_id@,
            },
    {
        let wanted = String::from_str(device_id);
        let mut i: usize = 0;
        while i < self.devices.len()
            invariant
                0 <= i <= self.devices@.len(),
                wanted@ == device_id@,
                forall|j: int| 0 <= j < i ==> self.devices@[j].info.id@ != device_id@,
            decreases self.devices@.len() - i,
        {
            if self.devices[i].info.id == wanted {
                return Some(i);
            }
            i = i + 1;
        }
        None
    }

    /// Replaces the cache with freshly probed devices; an entry for a device
    /// already listed replaces the earlier one.
    pub fn replace_devices(&mut self, probed: Vec<CachedDevice>)
        requires
            old(self).wf(),
            forall|i: int| 0 <= i < probed@.len() ==> probed@[i].info.id@ == decimal(probed@[i].object_id as nat),
        ensures
            final(self).wf(),
            forall|id: u32| has_device(final(self).devices@, id) <==> has_device(probed@, id),
            forall|i: int| 0 <= i < final(self).devices@.len() ==> listed_in(probed@, #[trigger] final(self).devices@[i]),
            final(self).manual_device_id == old(self).manual_device_id,
            final(self).exclusive_mode == old(self).exclusive_mode,
            final(self).original_sample_rates == old(self).original_sample_rates,
            final(self).last_device_id == old(self).last_device_id,
    {
        self.devices = Vec::new();
        let mut probed = probed;
        let ghost all = probed@;
        let mut k: usize = 0;
        let n = probed.len();
        // Entries are taken from the back: the last entry for a device is
        // placed first and earlier ones for it are skipped. `k` entries have
        // been taken.
        while k < n
            invariant
                n == all.len(),
                0 <= k <= n,
                probed@ == all.subrange(0, n - k),
                forall|i: int| 0 <= i < all.len() ==> all[i].info.id@ == decimal(all[i].object_id as nat),
                self.wf(),
                self.manual_device_id == old(self).manual_device_id,
                self.exclusive_mode == old(self).exclusive_mode,
                self.original_sample_rates == old(self).original_sample_rates,
                self.last_device_id == old(self).last_device_id,
                forall|id: u32| has_device(self.devices@, id) <==> (exists|j: int| n - k <= j < n && all[j].object_id == id),
                forall|i: int| 0 <= i < self.devices@.len() ==> listed_in(all, #[trigger] self.devices@[i]),
            decreases n - k,
        {
            let entry = probed.pop().unwrap();
            let ghost jj = n - k - 1;
            assert(entry == all[jj]);
            match self.device_index(entry.object_id) {
                Some(_) => {},
                None => {
                    let ghost prev = self.devices@;
                    self.devices.push(entry);
                    proof {
                        assert forall|id: u32| has_device(self.devices@, id) <==> (exists|j: int| n - (k + 1) <= j < n && all[j].object_id == id) by {
                            if has_device(self.devices@, id) {
                                let i = choose|i: int| 0 <= i < self.devices@.len() && self.devices@[i].object_id == id;
                                if i < prev.len() {
                                    assert(prev[i].object_id == id);
                                    assert(has_device(prev, id));
                                } else {
                                    assert(all[jj].object_id == id);
                                }
                            }
                            if exists|j: int| n - (k + 1) <= j < n && all[j].object_id == id {
                                let j = choose|j: int| n - (k + 1) <= j < n && all[j].object_id == id;
                                if j == jj {
                                    assert(self.devices@[prev.len() as int].object_id == id);
                                } else {
                                    assert(has_device(prev, id));
                                    let i = choose|i: int| 0 <= i < prev.len() && prev[i].object_id == id;
                                    assert(self.devices@[i].object_id == id);
                                }
                            }
                        }
                        assert forall|i: int| 0 <= i < self.devices@.len() implies listed_in(all, #[trigger] self.devices@[i]) by {
                            if i < prev.len() {
                                assert(self.devices@[i] == prev[i]);
                            } else {
                                assert(all[jj].object_id == self.devices@[i].object_id);
                                assert(same_device(all[jj].info, self.devices@[i].info));
                                assert forall|q: int| jj < q < all.len() implies #[trigger] all[q].object_id != self.devices@[i].object_id by {
                                    if all[q].object_id == self.devices@[i].object_id {
                                        assert(has_device(prev, entry.object_id));
                                    }
                                }
                            }
                        }
                    }
                },
            }
            proof {
                assert(probed@ == all.subrange(0, n - (k + 1)));
            }
            k = k + 1;
        }
        proof {
            assert forall|id: u32| has_device(self.devices@, id) <==> has_device(all, id) by {
                if has_device(all, id) {
                    let j = choose|j: int| 0 <= j < all.len() && all[j].object_id == id;
                    assert(n - k <= j < n);
                }
            }
        }
    }

    /// The cached devices, in cache order.
    pub fn list_devices(&self) -> (r: Vec<DeviceInfo>)
        ensures
            r@.len() == self.devices@.len(),
            forall|i: int| 0 <= i < r@.len() ==> same_device(#[trigger] r@[i], self.devices@[i].info),
    {
        let mut out: Vec<DeviceInfo> = Vec::new();
        let mut i: usize = 0;
        while i < self.devices.len()
            invariant
                0 <= i <= self.devices@.len(),
                out@.len() == i,
                forall|j: int| 0 <= j < i ==> same_device(#[trigger] out@[j], self.devices@[j].info),
            decreases self.devices@.len() - i,
        {
            out.push(self.devices[i].info.duplicate());
            i = i + 1;
        }
        out
    }

    /// The cache entry of the device whose textual id is `device_id`.
    pub fn get_device_info(&self, device_id: &str) -> (r: Result<DeviceInfo, AudioBackendError>)
        ensures
            match r {
                Ok(info) => exists|i: int|
                    0 <= i < self.devices@.len() && self.devices@[i].info.id@ == device_id@ && same_device(
                        info,
                        #[trigger] self.devices@[i].info,
                    ),
                Err(e) => (forall|j: int| 0 <= j < self.devices@.len() ==> self.devices@[j].info.id@ != device_id@)
                    && (e matches AudioBackendError::DeviceNotFound(m) && m@ == device_id@),
            },
    {
        match self.index_of_text_id(device_id) {
            Some(i) => Ok(self.devices[i].info.duplicate()),
            None => Err(AudioBackendError::DeviceNotFound(String::from_str(device_id))),
        }
    }

    /// The cache entry of device `id`.
    pub fn device_info(&self, id: u32) -> (r: Result<DeviceInfo, AudioBackendError>)
        ensures
            match r {
                Ok(info) => exists|i: int|
                    0 <= i < self.devices@.len() && self.devices@[i].object_id == id && same_device(
                        info,
                        #[trigger] self.devices@[i].info,
                    ),
                Err(e) => !has_device(self.devices@, id) && (e matches AudioBackendError::DeviceNotFound(m)
                    && m@ == decimal(id as nat)),
            },
    {
        match self.device_index(id) {
            Some(i) => Ok(self.devices[i].info.duplicate()),
            None => Err(AudioBackendError::DeviceNotFound(u32_text(id))),
        }
    }

    /// Selects the device whose textual id is `device_id` for output, from
    /// the cache; it is no longer the system default that is followed.
    /// Returns the previously used device when hog ownership must be given
    /// up on it (exclusive mode is on).
    pub fn select_output_device(&mut self, device_id: &str) -> (r: Result<Option<u32>, AudioBackendError>)
        requires
            old(self).wf(),
        ensures
            final(self).wf(),
            match r {
                Ok(release) => exists|i: int|
                    0 <= i < old(self).devices@.len() && old(self).devices@[i].info.id@ == device_id@
                        && final(self).manual_device_id == Some(#[trigger] old(self).devices@[i].object_id)
                        && final(self).last_device_id == old(self).devices@[i].object_id,
                Err(e) => (forall|j: int| 0 <= j < old(self).devices@.len() ==> old(self).devices@[j].info.id@ != device_id@)
                    && (e matches AudioBackendError::DeviceNotFound(m) && m@ == device_id@)
                    && final(self).manual_device_id == old(self).manual_device_id
                    && final(self).last_device_id == old(self).last_device_id,
            },
            r matches Ok(release) ==> release == (if old(self).exclusive_mode == ExclusiveMode::Exclusive {
                Some(old(self).last_device_id)
            } else {
                None
            }),
            final(self).devices == old(self).devices,
            final(self).exclusive_mode == old(self).exclusive_mode,
            final(self).original_sample_rates == old(self).original_sample_rates,
    {
        match self.index_of_text_id(device_id) {
            Some(i) => {
                let id = self.devices[i].object_id;
                let release = if self.exclusive_mode == ExclusiveMode::Exclusive {
                    Some(self.last_device_id)
                } else {
                    None
                };
                self.manual_device_id = Some(id);
                self.last_device_id = id;
                Ok(release)
            },
            None => Err(AudioBackendError::DeviceNotFound(String::from_str(device_id))),
        }
    }

    /// Before the first rate change of `device`, remembers the rate it had
    /// (`observed`, when it could be read).
    pub fn record_original_rate(&mut self, device: u32, observed: Option<u32>)
        requires
            old(self).wf(),
        ensures
            final(self).wf(),
            final(self).original_sample_rates@ == (
                if !has_rate_entry(old(self).original_sample_rates@, device) && observed is Some {
                    old(self).original_sample_rates@.push((device, observed->0))
                } else {
                    old(self).original_sample_rates@
                }),
            final(self).manual_device_id == old(self).manual_device_id,
            final(self).devices == old(self).devices,
            final(self).exclusive_mode == old(self).exclusive_mode,
            final(self).last_device_id == old(self).last_device_id,
    {
        let mut i: usize = 0;
        while i < self.original_sample_rates.len()
            invariant
                self.wf(),
                0 <= i <= self.original_sample_rates@.len(),
                forall|j: int| 0 <= j < i ==> self.original_sample_rates@[j].0 != device,
            decreases self.original_sample_rates@.len() - i,
        {
            if self.original_sample_rates[i].0 == device {
                return;
            }
            i = i + 1;
        }
        match observed {
            Some(rate) => {
                self.original_sample_rates.push((device, rate));
            },
            None => {},
        }
    }

    /// The hardware now runs `device` at `rate`: the cache says so too.
    pub fn note_rate_applied(&mut self, device: u32, rate: u32)
        requires
            old(self).wf(),
        ensures
            final(self).wf(),
            final(self).devices@.len() == old(self).devices@.len(),
            forall|i: int| 0 <= i < final(self).devices@.len() ==> {
                &&& final(self).devices@[i].object_id == old(self).devices@[i].object_id
                &&& final(self).devices@[i].info.current_sample_rate == (
                    if old(self).devices@[i].object_id == device { rate } else { old(self).devices@[i].info.current_sample_rate })
                &&& same_device(
                    DeviceInfo { current_sample_rate: old(self).devices@[i].info.current_sample_rate, ..final(self).devices@[i].info },
                    old(self).devices@[i].info,
                )
            },
            final(self).manual_device_id == old(self).manual_device_id,
            final(self).exclusive_mode == old(self).exclusive_mode,
            final(self).original_sample_rates == old(self).original_sample_rates,
            final(self).last_device_id == old(self).last_device_id,
    {
        match self.device_index(device) {
            Some(i) => {
                let ghost prev = self.devices@;
                let mut entry = self.devices.remove(i);
                entry.info.current_sample_rate = rate;
                self.devices.insert(i, entry);
                proof {
                    assert forall|j: int| 0 <= j < self.devices@.len() implies self.devices@[j].object_id == prev[j].object_id && (j != i ==> self.devices@[j] == prev[j]) by {
                        if j < i {
                            assert(self.devices@[j] == prev[j]);
                        } else if j > i {
                            assert(self.devices@[j] == prev[j]);
                        }
                    }
                }
            },
            None => {},
        }
    }

    /// Whether the device in use (`active`, when known) supports `rate`,
    /// as the cache says.
    pub fn is_sample_rate_supported(&self, active: Option<u32>, rate: u32) -> (r: bool)
        requires
            self.wf(),
        ensures
            r == (match active {
                Some(a) => has_device(self.devices@, a) && cached_rates(self.devices@, a).contains(rate),
                None => false,
            }),
    {
        match active {
            Some(a) => match self.device_index(a) {
                Some(i) => {
                    proof {
                        lemma_cached_rates_at(self, i as int);
                    }
                    self.devices[i].info.supports_sample_rate(rate)
                },
                None => false,
            },
            None => false,
        }
    }

    /// The rates the device in use supports, from the cache.
    pub fn supported_sample_rates(&self, active: u32) -> (r: Result<Vec<u32>, AudioBackendError>)
        requires
            self.wf(),
        ensures
            match r {
                Ok(v) => has_device(self.devices@, active) && v@ == cached_rates(self.devices@, active),
                Err(e) => !has_device(self.devices@, active) && (e matches AudioBackendError::DeviceNotFound(m)
                    && m@ == decimal(active as nat)),
            },
    {
        match self.device_index(active) {
            Some(i) => {
                proof {
                    lemma_cached_rates_at(self, i as int);
                }
                Ok(copy_rates(&self.devices[i].info.supported_sample_rates))
            },
            None => Err(AudioBackendError::DeviceNotFound(u32_text(active))),
        }
    }

    /// The hog change that switching to `mode` needs: none when already in it.
    pub fn exclusive_change(&self, mode: ExclusiveMode) -> (r: Option<HogChange>)
        ensures
            r == (if mode == self.exclusive_mode {
                None
            } else if mode == ExclusiveMode::Exclusive {
                Some(HogChange::Engage)
            } else {
                Some(HogChange::Release)
            }),
    {
        if mode == self.exclusive_mode {
            None
        } else {
            match mode {
                ExclusiveMode::Exclusive => Some(HogChange::Engage),
                ExclusiveMode::Shared => Some(HogChange::Release),
            }
        }
    }

    /// The hog change for `mode` was made.
    pub fn commit_exclusive_mode(&mut self, mode: ExclusiveMode)
        requires
            old(self).wf(),
        ensures
            final(self).wf(),
            final(self).exclusive_mode == mode,
            final(self).manual_device_id == old(self).manual_device_id,
            final(self).devices == old(self).devices,
            final(self).original_sample_rates == old(self).original_sample_rates,
            final(self).last_device_id == old(self).last_device_id,
    {
        self.exclusive_mode = mode;
    }

    /// How to prepare `device`, now at `current_rate`, for a stream of
    /// `requested` Hz: the best rate the cache lists for it (see
    /// `is_best_rate`), a rate change when that differs from the current
    /// one, and hog ownership when exclusive mode is on.
    pub fn plan_streaming(&self, device: u32, current_rate: u32, requested: u32) -> (r: StreamingPlan)
        requires
            self.wf(),
        ensures
            is_best_rate(requested, cached_rates(self.devices@, device), r.target_rate),
            r.change_rate == (current_rate != r.target_rate),
            r.engage_hog == (self.exclusive_mode == ExclusiveMode::Exclusive),
    {
        let target_rate = match self.device_index(device) {
            Some(i) => {
                proof {
                    lemma_cached_rates_at(self, i as int);
                }
                find_best_supported_rate(requested, self.devices[i].info.supported_sample_rates.as_slice())
            },
            None => {
                let empty: Vec<u32> = Vec::new();
                find_best_supported_rate(requested, empty.as_slice())
            },
        };
        StreamingPlan {
            target_rate,
            change_rate: current_rate != target_rate,
            engage_hog: self.exclusive_mode == ExclusiveMode::Exclusive,
        }
    }

    /// Releases the backend: hog ownership of the device in use (`active`,
    /// when known) is given up if exclusive mode was on, every recorded
    /// original rate is to be restored, and nothing is left recorded.
    pub fn release(&mut self, active: Option<u32>) -> (r: ReleasePlan)
        requires
            old(self).wf(),
        ensures
            final(self).wf(),
            r.release_hog_on == released_hog(*old(self), active),
            r.restore@ == old(self).original_sample_rates@,
            final(self).exclusive_mode == ExclusiveMode::Shared,
            final(self).original_sample_rates@.len() == 0,
            final(self).manual_device_id == old(self).manual_device_id,
            final(self).devices == old(self).devices,
            final(self).last_device_id == old(self).last_device_id,
    {
        let release_hog_on = if self.exclusive_mode == ExclusiveMode::Exclusive {
            active
        } else {
            None
        };
        self.exclusive_mode = ExclusiveMode::Shared;
        let mut restore: Vec<(u32, u32)> = Vec::new();
        core::mem::swap(&mut restore, &mut self.original_sample_rates);
        ReleasePlan { release_hog_on, restore }
    }
}

/// The rates cached for a device are those of its entry.
pub proof fn lemma_cached_rates_at(m: &DeviceManager, i: int)
    requires
        m.wf(),
        0 <= i < m.devices@.len(),
    ensures
        cached_rates(m.devices@, m.devices@[i].object_id) == m.devices@[i].info.supported_sample_rates@,
{
    let id = m.devices@[i].object_id;
    assert(has_device(m.devices@, id));
    let k = choose|k: int| 0 <= k < m.devices@.len() && m.devices@[k].object_id == id;
    assert(k == i);
}

/// The device whose hog ownership a release gives up.
pub open spec fn released_hog(m: DeviceManager, active: Option<u32>) -> Option<u32> {
    if m.exclusive_mode == ExclusiveMode::Exclusive { active } else { None }
}

/// Release is idempotent: once released, a second release gives up no hog
/// ownership and restores nothing; and a release after exclusive use on a
/// known device always gives that device up, with every recorded original
/// rate restored.
pub proof fn lemma_release_complete_and_idempotent(m: DeviceManager, active: Option<u32>, after: DeviceManager)
    requires
        m.wf(),
        after.exclusive_mode == ExclusiveMode::Shared,
        after.original_sample_rates@.len() == 0,
    ensures
        released_hog(after, active) is None,
        m.exclusive_mode == ExclusiveMode::Exclusive && active is Some ==> released_hog(m, active) == active,
{
}

} // verus!
