//! What mDNS records say of devices, and the table of devices seen.

use vstd::prelude::*;
use vstd::string::StrSliceExecFns;
use crate::bytes_util::str_eq;
use crate::channels::EventChannel;
use crate::clock::{elapsed_nanos, instant_now, utc_timestamp_secs};
use crate::keyed::{by_key, find_key, lemma_by_key_empty, lemma_by_key_remove, unique_keys, upsert, Keyed};

verus! {

broadcast use vstd::string::to_string_from_display_ensures_for_str;

/// The Unicode lower-case form of a string, as `str::to_lowercase` gives it.
pub uninterp spec fn unicode_lowercase(s: Seq<char>) -> Seq<char>;

/// `str::to_lowercase`: the Unicode lower-case form of the string, a
/// function of the string alone.
#[verifier::external_body]
fn to_lowercase(s: &str) -> (r: String)
    ensures
        r@ == unicode_lowercase(s@),
{
    s.to_lowercase()
}

/// The mDNS service type of MMC devices.
pub const SERVICE_TYPE: &'static str = "_mmc._tcp.local.";

/// Device type enumeration.
#[derive(Debug, Clone, Copy, PartialEq, Eq, Structural)]
pub enum DeviceType {
    Unknown,
    Phone,
    Tablet,
    Pc,
    Tv,
    Wearable,
}

impl Default for DeviceType {
    fn default() -> (r: DeviceType)
        ensures
            r == DeviceType::Unknown,
    {
        DeviceType::Unknown
    }
}

/// The device type a (lower-case) name stands for.
pub open spec fn device_type_named(s: Seq<char>) -> DeviceType {
    if s == "phone"@ {
        DeviceType::Phone
    } else if s == "tablet"@ {
        DeviceType::Tablet
    } else if s == "pc"@ || s == "desktop"@ {
        DeviceType::Pc
    } else if s == "tv"@ {
        DeviceType::Tv
    } else if s == "wearable"@ {
        DeviceType::Wearable
    } else {
        DeviceType::Unknown
    }
}

impl DeviceType {
    /// The name the type is announced by in TXT records: its variant name
    /// in lower case.
    pub open spec fn txt_label(self) -> Seq<char> {
        match self {
            DeviceType::Unknown => "unknown"@,
            DeviceType::Phone => "phone"@,
            DeviceType::Tablet => "tablet"@,
            DeviceType::Pc => "pc"@,
            DeviceType::Tv => "tv"@,
            DeviceType::Wearable => "wearable"@,
        }
    }

    /// The name the type is announced by in TXT records.
    pub fn txt_name(&self) -> (r: &'static str)
        ensures
            r@ == self.txt_label(),
    {
        match self {
            DeviceType::Unknown => "unknown",
            DeviceType::Phone => "phone",
            DeviceType::Tablet => "tablet",
            DeviceType::Pc => "pc",
            DeviceType::Tv => "tv",
            DeviceType::Wearable => "wearable",
        }
    }
}

/// Reading a type's own TXT name gives the type back, for every type: the
/// name a device announces itself by (`txt_name`) is parsed to the type it
/// announced; and "desktop" is read as a PC.
pub proof fn lemma_type_name_roundtrip(t: DeviceType)
    ensures
        device_type_named(t.txt_label()) == t,
        device_type_named("desktop"@) == DeviceType::Pc,
{
    reveal_strlit("unknown");
    reveal_strlit("phone");
    reveal_strlit("tablet");
    reveal_strlit("pc");
    reveal_strlit("desktop");
    reveal_strlit("tv");
    reveal_strlit("wearable");
    assert("unknown"@.len() == 7 && "phone"@.len() == 5 && "tablet"@.len() == 6 && "pc"@.len() == 2);
    assert("desktop"@.len() == 7 && "tv"@.len() == 2 && "wearable"@.len() == 8);
    assert("unknown"@[0] != "desktop"@[0]);
    assert("pc"@[0] != "tv"@[0]);
    assert("unknown"@ != "desktop"@);
    assert("pc"@ != "tv"@);
    assert("tv"@ != "pc"@);
    assert("desktop"@ != "unknown"@);
}

impl<'a> From<&'a str> for DeviceType {
    /// The type a name stands for, in any case: "phone", "tablet", "pc" or
    /// "desktop", "tv", "wearable"; anything else is Unknown.
    fn from(s: &'a str) -> (r: DeviceType)
        ensures
            r == device_type_named(unicode_lowercase(s@)),
    {
        let lower = to_lowercase(s);
        let l = lower.as_str();
        if str_eq(l, "phone") {
            DeviceType::Phone
        } else if str_eq(l, "tablet") {
            DeviceType::Tablet
        } else if str_eq(l, "pc") || str_eq(l, "desktop") {
            DeviceType::Pc
        } else if str_eq(l, "tv") {
            DeviceType::Tv
        } else if str_eq(l, "wearable") {
            DeviceType::Wearable
        } else {
            DeviceType::Unknown
        }
    }
}

impl<'a> vstd::std_specs::convert::FromSpecImpl<&'a str> for DeviceType {
    open spec fn obeys_from_spec() -> bool {
        true
    }

    open spec fn from_spec(v: &'a str) -> DeviceType {
        device_type_named(unicode_lowercase(v@))
    }
}

/// Discovered device information.
#[derive(Debug, Clone)]
pub struct DeviceInfo {
    pub id: String,
    pub name: String,
    pub device_type: DeviceType,
    pub os_version: String,
    pub app_version: String,
    pub ip: String,
    pub port: u16,
    pub last_seen: i64,
}

impl DeviceInfo {
    /// A copy of the information.
    pub fn duplicate(&self) -> (r: DeviceInfo)
        ensures
            r == *self,
    {
        DeviceInfo {
            id: self.id.clone(),
            name: self.name.clone(),
            device_type: self.device_type,
            os_version: self.os_version.clone(),
            app_version: self.app_version.clone(),
            ip: self.ip.clone(),
            port: self.port,
            last_seen: self.last_seen,
        }
    }
}

/// `pat` occurs in `s` at `i`.
pub open spec fn occurs_at(s: Seq<char>, pat: Seq<char>, i: int) -> bool {
    0 <= i && i + pat.len() <= s.len() && s.subrange(i, i + pat.len()) == pat
}

/// What `s` holds before the first occurrence of `pat`, or all of `s` when
/// `pat` does not occur: the first piece `str::split` gives.
pub open spec fn first_piece(s: Seq<char>, pat: Seq<char>) -> Seq<char> {
    if exists|i: int| occurs_at(s, pat, i) {
        s.subrange(0, choose|i: int| occurs_at(s, pat, i) && forall|j: int| 0 <= j < i ==> !occurs_at(s, pat, j))
    } else {
        s
    }
}

/// The value of the first record for `key`, if any.
pub open spec fn txt_lookup(records: Seq<(String, String)>, key: Seq<char>) -> Option<Seq<char>>
    decreases records.len(),
{
    if records.len() == 0 {
        None
    } else if records[0].0@ == key {
        Some(records[0].1@)
    } else {
        txt_lookup(records.drop_first(), key)
    }
}

/// Whether `pat` occurs in `s` at char position `i`.
fn occurs_at_exec(s: &str, pat: &str, i: usize, s_len: usize, pat_len: usize) -> (r: bool)
    requires
        s_len == s@.len(),
        pat_len == pat@.len(),
        i <= s_len,
    ensures
        r == occurs_at(s@, pat@, i as int),
{
    if pat_len > s_len - i {
        return false;
    }
    let mut j: usize = 0;
    while j < pat_len
        invariant
            i + pat_len <= s_len,
            s_len == s@.len(),
            pat_len == pat@.len(),
            j <= pat_len,
            forall|k: int| 0 <= k < j ==> s@[i + k] == pat@[k],
        decreases pat_len - j,
    {
        if s.get_char(i + j) != pat.get_char(j) {
            assert(s@.subrange(i as int, i + pat_len)[j as int] != pat@[j as int]);
            return false;
        }
        j = j + 1;
    }
    assert(s@.subrange(i as int, i + pat@.len()) =~= pat@);
    true
}

/// An occurrence with none before it is the one `first_piece` cuts at.
proof fn lemma_first_occurrence(s: Seq<char>, pat: Seq<char>, i: int)
    requires
        occurs_at(s, pat, i),
        forall|j: int| 0 <= j < i ==> !occurs_at(s, pat, j),
    ensures
        first_piece(s, pat) == s.subrange(0, i),
{
    let w = choose|k: int| occurs_at(s, pat, k) && forall|j: int| 0 <= j < k ==> !occurs_at(s, pat, j);
    assert(occurs_at(s, pat, i) && forall|j: int| 0 <= j < i ==> !occurs_at(s, pat, j));
    if w < i {
        assert(!occurs_at(s, pat, w));
    } else if w > i {
        assert(!occurs_at(s, pat, i));
    }
}

/// The first piece of `s` split at `pat`.
fn split_first(s: &str, pat: &str) -> (r: String)
    ensures
        r@ == first_piece(s@, pat@),
{
    let s_len = s.unicode_len();
    let pat_len = pat.unicode_len();
    let mut i: usize = 0;
    while i < s_len
        invariant
            i <= s_len,
            s_len == s@.len(),
            pat_len == pat@.len(),
            forall|j: int| 0 <= j < i ==> !occurs_at(s@, pat@, j),
        decreases s_len - i,
    {
        if occurs_at_exec(s, pat, i, s_len, pat_len) {
            proof {
                lemma_first_occurrence(s@, pat@, i as int);
            }
            return s.substring_char(0, i).to_string();
        }
        i = i + 1;
    }
    if occurs_at_exec(s, pat, s_len, s_len, pat_len) {
        proof {
            lemma_first_occurrence(s@, pat@, s_len as int);
        }
        return s.substring_char(0, s_len).to_string();
    }
    assert forall|k: int| !occurs_at(s@, pat@, k) by {
        if 0 <= k && k < s_len {
            assert(!occurs_at(s@, pat@, k));
        }
    }
    s.to_string()
}

/// The value of the first record for `key`, or an empty string.
fn txt_value(records: &[(String, String)], key: &str) -> (r: String)
    ensures
        r@ == match txt_lookup(records@, key@) {
            Some(v) => v,
            None => Seq::<char>::empty(),
        },
{
    let mut i: usize = 0;
    assert(records@.skip(0) =~= records@);
    while i < records.len()
        invariant
            i <= records@.len(),
            txt_lookup(records@, key@) == txt_lookup(records@.skip(i as int), key@),
        decreases records@.len() - i,
    {
        assert(records@.skip(i as int).drop_first() =~= records@.skip(i + 1));
        assert(records@.skip(i as int)[0] == records@[i as int]);
        if str_eq(records[i].0.as_str(), key) {
            return records[i].1.clone();
        }
        i = i + 1;
    }
    String::new()
}

/// What the mDNS record of a service says of its device: the service's
/// full name is its ID and, up to the service type, its name; the TXT
/// records "type", "os" and "ver" give its type (by name, in any case),
/// OS and app version (Unknown and empty when missing); its address and
/// port are the host and port resolved.
pub open spec fn resolved_info(
    info: DeviceInfo,
    service_name: Seq<char>,
    host: Seq<char>,
    port: u16,
    txt_records: Seq<(String, String)>,
) -> bool {
    &&& info.id@ == service_name
    &&& info.name@ == first_piece(service_name, "._mmc._tcp.local."@)
    &&& info.device_type == match txt_lookup(txt_records, "type"@) {
        Some(t) => device_type_named(unicode_lowercase(t)),
        None => DeviceType::Unknown,
    }
    &&& info.os_version@ == match txt_lookup(txt_records, "os"@) {
        Some(v) => v,
        None => Seq::<char>::empty(),
    }
    &&& info.app_version@ == match txt_lookup(txt_records, "ver"@) {
        Some(v) => v,
        None => Seq::<char>::empty(),
    }
    &&& info.ip@ == host
    &&& info.port == port
}

impl DeviceInfo {
    /// What the mDNS record of a service says of its device: the service's
    /// full name is its ID and, up to the service type, its name; the TXT
    /// records "type", "os" and "ver" give its type, OS and app version
    /// (Unknown and empty when missing); it was seen now.
    pub fn new(service_name: &str, host: &str, port: u16, txt_records: &[(String, String)]) -> (r: DeviceInfo)
        ensures
            r.id@ == service_name@,
            r.name@ == first_piece(service_name@, "._mmc._tcp.local."@),
            r.device_type == match txt_lookup(txt_records@, "type"@) {
                Some(t) => device_type_named(unicode_lowercase(t)),
                None => DeviceType::Unknown,
            },
            r.os_version@ == match txt_lookup(txt_records@, "os"@) {
                Some(v) => v,
                None => Seq::<char>::empty(),
            },
            r.app_version@ == match txt_lookup(txt_records@, "ver"@) {
                Some(v) => v,
                None => Seq::<char>::empty(),
            },
            r.ip@ == host@,
            r.port == port,
            resolved_info(r, service_name@, host@, port, txt_records@),
    {
        let name = split_first(service_name, "._mmc._tcp.local.");
        let device_type = if txt_has(txt_records, "type") {
            let t = txt_value(txt_records, "type");
            DeviceType::from(t.as_str())
        } else {
            DeviceType::default()
        };
        let os_version = txt_value(txt_records, "os");
        let app_version = txt_value(txt_records, "ver");
        DeviceInfo {
            id: service_name.to_string(),
            name,
            device_type,
            os_version,
            app_version,
            ip: host.to_string(),
            port,
            last_seen: utc_timestamp_secs(),
        }
    }
}

/// Whether some record is for `key`.
fn txt_has(records: &[(String, String)], key: &str) -> (r: bool)
    ensures
        r == (txt_lookup(records@, key@) is Some),
{
    let mut i: usize = 0;
    assert(records@.skip(0) =~= records@);
    while i < records.len()
        invariant
            i <= records@.len(),
            txt_lookup(records@, key@) == txt_lookup(records@.skip(i as int), key@),
        decreases records@.len() - i,
    {
        assert(records@.skip(i as int).drop_first() =~= records@.skip(i + 1));
        assert(records@.skip(i as int)[0] == records@[i as int]);
        if str_eq(records[i].0.as_str(), key) {
            return true;
        }
        i = i + 1;
    }
    false
}

/// A discovered device with the moment it was last seen.
#[derive(Debug, Clone)]
pub struct Device {
    pub info: DeviceInfo,
    pub last_seen_instant: std::time::Instant,
}

impl Keyed for Device {
    open spec fn key(&self) -> Seq<char> {
        self.info.id@
    }

    fn key_str(&self) -> (r: &str) {
        self.info.id.as_str()
    }
}

/// Whether a device seen `elapsed` nanoseconds ago has expired: more than
/// two TTLs have passed.
pub open spec fn expired_by(elapsed: u128, ttl_secs: u32) -> bool {
    elapsed > ttl_secs * 2 * 1_000_000_000
}

impl Device {
    /// Whether a device seen `elapsed_nanos` ago has expired: it has when
    /// more than two TTLs have passed.
    pub fn expired_after(elapsed_nanos: u128, ttl_secs: u32) -> (r: bool)
        ensures
            r == (elapsed_nanos > ttl_secs * 2 * 1_000_000_000),
            r == expired_by(elapsed_nanos, ttl_secs),
    {
        elapsed_nanos > (ttl_secs as u128) * 2 * 1_000_000_000
    }

    /// Whether more than two TTLs have passed since the device was seen, by
    /// the clock read now: `expired_by` of the time elapsed, a clock
    /// reading of which nothing more is known.
    pub fn is_expired(&self, ttl_secs: u32) -> (r: bool)
        ensures
            exists|elapsed: u128| #[trigger] expired_by(elapsed, ttl_secs) == r,
    {
        let e = elapsed_nanos(&self.last_seen_instant);
        let r = Self::expired_after(e, ttl_secs);
        assert(expired_by(e, ttl_secs) == r);
        r
    }
}

/// Discovery service events.
#[derive(Debug, Clone)]
pub enum DiscoveryEvent {
    DeviceFound(DeviceInfo),
    DeviceUpdated(DeviceInfo),
    DeviceLost(String),
}

/// The devices discovered so far and the channel discovery events are
/// published on.
pub struct DiscoveryService {
    discovered: Vec<Device>,
    events: EventChannel<DiscoveryEvent>,
}

/// `events` reports the devices lost between `before` and `after`: each is
/// a `DeviceLost` for a device that was known before and is gone after,
/// and every device gone is reported.
pub open spec fn reports_lost(
    events: Seq<DiscoveryEvent>,
    before: Map<Seq<char>, Device>,
    after: Map<Seq<char>, Device>,
) -> bool {
    &&& forall|i: int| #![trigger events[i]] 0 <= i < events.len() ==> (events[i] matches DiscoveryEvent::DeviceLost(id)
        && before.contains_key(id@) && !after.contains_key(id@))
    &&& forall|k: Seq<char>| #![trigger after.contains_key(k)] before.contains_key(k) && !after.contains_key(k) ==> exists|i: int|
        #![trigger events[i]] 0 <= i < events.len() && (events[i] matches DiscoveryEvent::DeviceLost(id) && id@ == k)
}

impl DiscoveryService {
    /// The devices by ID.
    pub closed spec fn devices(&self) -> Map<Seq<char>, Device> {
        by_key(self.discovered@)
    }

    /// At most one device per ID.
    pub closed spec fn wf(&self) -> bool {
        unique_keys(self.discovered@)
    }

    /// The events published so far, oldest first.
    pub closed spec fn published(&self) -> Seq<DiscoveryEvent> {
        self.events.sent()
    }

    /// No device discovered yet; events go on a channel of 100 places.
    pub fn new() -> (r: DiscoveryService)
        ensures
            r.wf(),
            r.devices() == Map::<Seq<char>, Device>::empty(),
            r.published() == Seq::<DiscoveryEvent>::empty(),
    {
        let r = DiscoveryService {
            discovered: Vec::new(),
            events: EventChannel::new(100),
        };
        proof {
            lemma_by_key_empty(r.discovered@);
        }
        r
    }

    /// The mDNS service type.
    pub fn service_type() -> (r: &'static str)
        ensures
            r@ == SERVICE_TYPE@,
    {
        SERVICE_TYPE
    }

    /// The TXT records a device announces itself with: its type, OS and app
    /// version under "type", "os" and "ver".
    pub fn txt_properties(device_type: DeviceType, os_version: &str, app_version: &str) -> (r: Vec<(String, String)>)
        ensures
            r@.len() == 3,
            r@[0].0@ == "type"@ && r@[0].1@ == device_type.txt_label(),
            r@[1].0@ == "os"@ && r@[1].1@ == os_version@,
            r@[2].0@ == "ver"@ && r@[2].1@ == app_version@,
    {
        let mut r: Vec<(String, String)> = Vec::new();
        r.push(("type".to_string(), device_type.txt_name().to_string()));
        r.push(("os".to_string(), os_version.to_string()));
        r.push(("ver".to_string(), app_version.to_string()));
        r
    }

    /// Records a resolved service: the device is entered (or refreshed)
    /// as seen now, and published as found when it is new, as updated when
    /// it was known. Returns whether it was new.
    pub fn record_resolved(&mut self, service_name: &str, host: &str, port: u16, txt_records: &[(String, String)]) -> (r: bool)
        requires
            old(self).wf(),
        ensures
            final(self).wf(),
            r == !old(self).devices().contains_key(service_name@),
            final(self).devices().dom() == old(self).devices().dom().insert(service_name@),
            forall|k: Seq<char>| k != service_name@ && old(self).devices().contains_key(k)
                ==> final(self).devices()[k] == old(self).devices()[k],
            resolved_info(final(self).devices()[service_name@].info, service_name@, host@, port, txt_records@),
            final(self).published() == old(self).published().push(
                if r {
                    DiscoveryEvent::DeviceFound(final(self).devices()[service_name@].info)
                } else {
                    DiscoveryEvent::DeviceUpdated(final(self).devices()[service_name@].info)
                },
            ),
    {
        let info = DeviceInfo::new(service_name, host, port, txt_records);
        let is_new = find_key(&self.discovered, info.id.as_str()).is_none();
        let event_info = info.duplicate();
        let device = Device { info, last_seen_instant: instant_now() };
        upsert(&mut self.discovered, device);
        let event = if is_new {
            DiscoveryEvent::DeviceFound(event_info)
        } else {
            DiscoveryEvent::DeviceUpdated(event_info)
        };
        self.events.send(event);
        is_new
    }

    /// Copies of the information of every discovered device.
    pub fn get_discovered(&self) -> (r: Vec<DeviceInfo>)
        requires
            self.wf(),
        ensures
            forall|k: Seq<char>| self.devices().contains_key(k) ==> exists|i: int| 0 <= i < r@.len() && #[trigger] r@[i].id@ == k,
            forall|i: int| 0 <= i < r@.len() ==> self.devices().contains_key(#[trigger] r@[i].id@)
                && self.devices()[r@[i].id@].info == r@[i],
    {
        let mut r: Vec<DeviceInfo> = Vec::new();
        let mut i: usize = 0;
        while i < self.discovered.len()
            invariant
                self.wf(),
                i <= self.discovered@.len(),
                r@.len() == i,
                forall|j: int| 0 <= j < i ==> #[trigger] r@[j] == self.discovered@[j].info,
            decreases self.discovered@.len() - i,
        {
            r.push(self.discovered[i].info.duplicate());
            i = i + 1;
        }
        proof {
            assert forall|j: int| 0 <= j < r@.len() implies self.devices().contains_key(#[trigger] r@[j].id@)
                && self.devices()[r@[j].id@].info == r@[j] by {
                crate::keyed::lemma_by_key_at(self.discovered@, j);
            }
            assert forall|k: Seq<char>| self.devices().contains_key(k) implies exists|j: int| 0 <= j < r@.len() && #[trigger] r@[j].id@ == k by {
                let j = choose|j: int| 0 <= j < self.discovered@.len() && self.discovered@[j].key() == k;
                assert(r@[j].id@ == k);
            }
        }
        r
    }

    /// Forgets every device seen more than two TTLs ago, by the clock read
    /// now, and publishes each as lost. The devices kept are unchanged.
    pub fn cleanup_expired(&mut self, ttl_secs: u32)
        requires
            old(self).wf(),
        ensures
            final(self).wf(),
            forall|k: Seq<char>| final(self).devices().contains_key(k) ==> old(self).devices().contains_key(k)
                && final(self).devices()[k] == old(self).devices()[k],
            old(self).published().len() <= final(self).published().len(),
            final(self).published().take(old(self).published().len() as int) == old(self).published(),
            reports_lost(
                final(self).published().skip(old(self).published().len() as int),
                old(self).devices(),
                final(self).devices(),
            ),
    {
        let ghost orig = self.devices();
        let ghost orig_pub = self.events.sent();
        let mut i: usize = 0;
        while i < self.discovered.len()
            invariant
                unique_keys(self.discovered@),
                i <= self.discovered@.len(),
                forall|k: Seq<char>| #[trigger] by_key(self.discovered@).contains_key(k) ==> orig.contains_key(k)
                    && by_key(self.discovered@)[k] == orig[k],
                orig_pub.len() <= self.events.sent().len(),
                self.events.sent().take(orig_pub.len() as int) == orig_pub,
                reports_lost(self.events.sent().skip(orig_pub.len() as int), orig, by_key(self.discovered@)),
            decreases self.discovered@.len() - i,
        {
            if self.discovered[i].is_expired(ttl_secs) {
                let ghost s0 = self.discovered@;
                let ghost p0 = self.events.sent();
                let ghost k0 = s0[i as int].key();
                let device = self.discovered.remove(i);
                proof {
                    lemma_by_key_remove(s0, i as int);
                    crate::keyed::lemma_by_key_at(s0, i as int);
                }
                let event = DiscoveryEvent::DeviceLost(device.info.id);
                let ghost ev = event;
                self.events.send(event);
                proof {
                    let before = by_key(s0);
                    let after = by_key(self.discovered@);
                    let old_lost = p0.skip(orig_pub.len() as int);
                    let lost = self.events.sent().skip(orig_pub.len() as int);
                    assert(lost =~= old_lost.push(ev));
                    assert(self.events.sent().take(orig_pub.len() as int) =~= p0.take(orig_pub.len() as int));
                    assert(!after.contains_key(k0));
                    assert forall|j: int| #![trigger lost[j]] 0 <= j < lost.len() implies (lost[j] matches DiscoveryEvent::DeviceLost(id)
                        && orig.contains_key(id@) && !after.contains_key(id@)) by {
                        if j < old_lost.len() {
                            assert(lost[j] == old_lost[j]);
                        }
                    }
                    assert forall|k: Seq<char>| #![trigger after.contains_key(k)] orig.contains_key(k) && !after.contains_key(k) implies exists|j: int|
                        #![trigger lost[j]] 0 <= j < lost.len() && (lost[j] matches DiscoveryEvent::DeviceLost(id) && id@ == k) by {
                        if k == k0 {
                            assert(lost[old_lost.len() as int] == ev);
                        } else {
                            assert(!before.contains_key(k));
                            let j = choose|j: int| #![trigger old_lost[j]] 0 <= j < old_lost.len() && (old_lost[j] matches DiscoveryEvent::DeviceLost(id) && id@ == k);
                            assert(lost[j] == old_lost[j]);
                        }
                    }
                }
            } else {
                i = i + 1;
            }
        }
    }

    /// A receiver of the events published from now on.
    pub fn events(&self) -> tokio::sync::broadcast::Receiver<DiscoveryEvent> {
        self.events.subscribe()
    }
}

} // verus!
