//! The desktop application's state: the device's identity, the paired
//! devices, the transfers, the clipboard and the mirroring session.

use vstd::prelude::*;
use crate::clipboard::manager::{stored, ClipboardManager, ClipboardSource};
use crate::clock::{utc_timestamp_millis, utc_timestamp_secs};
use crate::desktop::error::DesktopError;
use crate::file_transfer::transfer::{is_uuid_v4_text, new_uuid_v4};
use crate::keyed::{by_key, lemma_by_key_empty, remove_key, unique_keys, upsert, Keyed};
use crate::media::platform::PlatformType;
use crate::media::session::MirroringSession;
use crate::protocol::{clipboard_bytes, ClipboardContent, ClipboardContentView, ClipboardData, ClipboardDataView};

verus! {

/// Paired device information for the desktop application.
#[derive(Debug, Clone)]
pub struct PairedDevice {
    pub id: String,
    pub name: String,
    pub ip: String,
    pub port: u16,
    pub paired_at: i64,
}

impl PairedDevice {
    /// A copy of the record.
    pub fn duplicate(&self) -> (r: PairedDevice)
        ensures
            r == *self,
    {
        PairedDevice {
            id: self.id.clone(),
            name: self.name.clone(),
            ip: self.ip.clone(),
            port: self.port,
            paired_at: self.paired_at,
        }
    }
}

impl Keyed for PairedDevice {
    open spec fn key(&self) -> Seq<char> {
        self.id@
    }

    fn key_str(&self) -> (r: &str) {
        self.id.as_str()
    }
}

/// Transfer task for the desktop application.
#[derive(Debug, Clone)]
pub struct DesktopTransferTask {
    pub task_id: String,
    pub file_name: String,
    pub state: String,
    pub progress: DesktopTransferProgress,
}

impl DesktopTransferTask {
    /// A copy of the task.
    pub fn duplicate(&self) -> (r: DesktopTransferTask)
        ensures
            r == *self,
    {
        DesktopTransferTask {
            task_id: self.task_id.clone(),
            file_name: self.file_name.clone(),
            state: self.state.clone(),
            progress: self.progress,
        }
    }
}

impl Keyed for DesktopTransferTask {
    open spec fn key(&self) -> Seq<char> {
        self.task_id@
    }

    fn key_str(&self) -> (r: &str) {
        self.task_id.as_str()
    }
}

/// Transfer progress for the desktop application.
#[derive(Debug, Clone, Copy)]
pub struct DesktopTransferProgress {
    pub bytes_transferred: u64,
    pub total_bytes: u64,
    pub percent: u32,
}

/// The name a device takes when the host's name cannot be read.
pub const FALLBACK_DEVICE_NAME: &'static str = "Desktop Device";

/// The address and port that the application records for devices it finds
/// or pairs with (discovery does not reach the network yet).
pub const SIMULATED_IP: &'static str = "192.168.1.100";

/// The port recorded for simulated devices.
pub const SIMULATED_PORT: u16 = 8080;

/// The text shown for an image on the clipboard.
pub const IMAGE_MARKER: &'static str = "[Image data]";

/// The text a clipboard entry shows: its text or URL, or a marker for
/// an image.
pub open spec fn shown_text(data: ClipboardDataView) -> Seq<char> {
    match data {
        ClipboardDataView::Text(t) => t,
        ClipboardDataView::Url(u) => u,
        ClipboardDataView::Image(_) => IMAGE_MARKER@,
    }
}

/// Application state container.
pub struct AppState {
    device_id: String,
    device_name: String,
    platform_type: PlatformType,
    clipboard_manager: ClipboardManager,
    mirror_session: Option<MirroringSession>,
    paired_devices: Vec<PairedDevice>,
    transfer_tasks: Vec<DesktopTransferTask>,
    initialized: bool,
}

impl AppState {
    pub closed spec fn spec_device_id(&self) -> Seq<char> {
        self.device_id@
    }

    pub closed spec fn spec_device_name(&self) -> Seq<char> {
        self.device_name@
    }

    pub closed spec fn spec_platform_type(&self) -> PlatformType {
        self.platform_type
    }

    pub closed spec fn spec_initialized(&self) -> bool {
        self.initialized
    }

    /// The paired devices by ID.
    pub closed spec fn paired(&self) -> Map<Seq<char>, PairedDevice> {
        by_key(self.paired_devices@)
    }

    /// The transfer tasks by ID.
    pub closed spec fn transfers(&self) -> Map<Seq<char>, DesktopTransferTask> {
        by_key(self.transfer_tasks@)
    }

    pub closed spec fn clipboard(&self) -> ClipboardManager {
        self.clipboard_manager
    }

    pub closed spec fn mirror(&self) -> Option<MirroringSession> {
        self.mirror_session
    }

    /// Its invariant: one record per device and per task, and a well-formed
    /// clipboard.
    pub closed spec fn wf(&self) -> bool {
        &&& unique_keys(self.paired_devices@)
        &&& unique_keys(self.transfer_tasks@)
        &&& self.clipboard_manager.wf()
    }

    /// A fresh state for the platform it runs on, named after the host
    /// (`host_name`, when it could be read) and identified by a fresh
    /// random ID; nothing paired, no transfer, an empty clipboard.
    pub fn new(host_name: Option<String>, platform_type: PlatformType) -> (r: AppState)
        ensures
            r.wf(),
            r.spec_device_name() == match host_name {
                Some(h) => h@,
                None => FALLBACK_DEVICE_NAME@,
            },
            r.spec_platform_type() == platform_type,
            !r.spec_initialized(),
            r.paired().is_empty(),
            r.transfers().is_empty(),
            r.clipboard().current_view() is None,
            r.clipboard().history_view().len() == 0,
            r.mirror() is None,
    {
        let device_name = match host_name {
            Some(h) => h,
            None => FALLBACK_DEVICE_NAME.to_string(),
        };
        let r = AppState {
            device_id: new_uuid_v4(),
            device_name,
            platform_type,
            clipboard_manager: ClipboardManager::new(),
            mirror_session: None,
            paired_devices: Vec::new(),
            transfer_tasks: Vec::new(),
            initialized: false,
        };
        proof {
            lemma_by_key_empty(r.paired_devices@);
            lemma_by_key_empty(r.transfer_tasks@);
        }
        r
    }

    /// Marks the state initialized; initializing again changes nothing.
    pub fn init(&mut self) -> (r: Result<(), DesktopError>)
        ensures
            r is Ok,
            final(self).spec_initialized(),
            final(self).paired() == old(self).paired(),
            final(self).transfers() == old(self).transfers(),
            final(self).clipboard() == old(self).clipboard(),
            final(self).mirror() == old(self).mirror(),
            old(self).wf() ==> final(self).wf(),
    {
        self.initialized = true;
        Ok(())
    }

    pub fn is_initialized(&self) -> (r: bool)
        ensures
            r == self.spec_initialized(),
    {
        self.initialized
    }

    pub fn device_id(&self) -> (r: &str)
        ensures
            r@ == self.spec_device_id(),
    {
        self.device_id.as_str()
    }

    pub fn device_name(&self) -> (r: &str)
        ensures
            r@ == self.spec_device_name(),
    {
        self.device_name.as_str()
    }

    pub fn platform_type(&self) -> (r: PlatformType)
        ensures
            r == self.spec_platform_type(),
    {
        self.platform_type
    }

    /// The devices found nearby. Discovery does not reach the network yet:
    /// it reports two simulated Android devices, stamped with the time now.
    pub fn discover_devices(&self) -> (r: Result<Vec<PairedDevice>, DesktopError>)
        ensures
            r matches Ok(v) && v@.len() == 2
                && v@[0].id@ == "android-phone-001"@ && v@[0].name@ == "Android Phone"@
                && v@[0].ip@ == "192.168.1.100"@ && v@[0].port == SIMULATED_PORT
                && v@[1].id@ == "android-tablet-002"@ && v@[1].name@ == "Android Tablet"@
                && v@[1].ip@ == "192.168.1.101"@ && v@[1].port == SIMULATED_PORT,
    {
        let phone = PairedDevice {
            id: "android-phone-001".to_string(),
            name: "Android Phone".to_string(),
            ip: "192.168.1.100".to_string(),
            port: SIMULATED_PORT,
            paired_at: utc_timestamp_secs(),
        };
        let tablet = PairedDevice {
            id: "android-tablet-002".to_string(),
            name: "Android Tablet".to_string(),
            ip: "192.168.1.101".to_string(),
            port: SIMULATED_PORT,
            paired_at: utc_timestamp_secs(),
        };
        let mut v: Vec<PairedDevice> = Vec::new();
        v.push(phone);
        v.push(tablet);
        Ok(v)
    }

    /// Records a device as paired, named by its ID, at the simulated
    /// address, stamped with the time now; it replaces any record of the
    /// same device.
    pub fn pair_device(&mut self, device_id: &str) -> (r: Result<bool, DesktopError>)
        requires
            old(self).wf(),
        ensures
            final(self).wf(),
            r matches Ok(b) && b,
            final(self).paired().dom() == old(self).paired().dom().insert(device_id@),
            forall|k: Seq<char>| k != device_id@ && #[trigger] old(self).paired().contains_key(k)
                ==> final(self).paired()[k] == old(self).paired()[k],
            final(self).paired()[device_id@].id@ == device_id@,
            final(self).paired()[device_id@].name@ == device_id@,
            final(self).paired()[device_id@].ip@ == SIMULATED_IP@,
            final(self).paired()[device_id@].port == SIMULATED_PORT,
            final(self).transfers() == old(self).transfers(),
            final(self).clipboard() == old(self).clipboard(),
            final(self).mirror() == old(self).mirror(),
            final(self).spec_initialized() == old(self).spec_initialized(),
    {
        let paired = PairedDevice {
            id: device_id.to_string(),
            name: device_id.to_string(),
            ip: SIMULATED_IP.to_string(),
            port: SIMULATED_PORT,
            paired_at: utc_timestamp_secs(),
        };
        upsert(&mut self.paired_devices, paired);
        Ok(true)
    }

    /// Copies of the paired devices, one per device.
    pub fn get_paired_devices(&self) -> (r: Vec<PairedDevice>)
        requires
            self.wf(),
        ensures
            unique_keys(r@),
            by_key(r@) == self.paired(),
    {
        let mut r: Vec<PairedDevice> = Vec::new();
        let mut i: usize = 0;
        while i < self.paired_devices.len()
            invariant
                i <= self.paired_devices@.len(),
                r@ == self.paired_devices@.subrange(0, i as int),
            decreases self.paired_devices@.len() - i,
        {
            r.push(self.paired_devices[i].duplicate());
            i = i + 1;
        }
        assert(r@ =~= self.paired_devices@);
        r
    }

    /// Forgets a paired device; forgetting an unknown device changes nothing.
    pub fn unpair_device(&mut self, device_id: &str) -> (r: Result<(), DesktopError>)
        requires
            old(self).wf(),
        ensures
            final(self).wf(),
            r is Ok,
            final(self).paired() == old(self).paired().remove(device_id@),
            final(self).transfers() == old(self).transfers(),
            final(self).clipboard() == old(self).clipboard(),
            final(self).mirror() == old(self).mirror(),
            final(self).spec_initialized() == old(self).spec_initialized(),
    {
        remove_key(&mut self.paired_devices, device_id);
        Ok(())
    }

    /// Starts sending a file: the transfer gets a fresh random ID, a
    /// version-4 UUID in hyphenated form (nothing is sent yet).
    pub fn send_file(&self, device_id: &str, file_path: &str) -> (r: Result<String, DesktopError>)
        ensures
            r matches Ok(id) && is_uuid_v4_text(id@),
    {
        Ok(new_uuid_v4())
    }

    /// Copies of the transfer tasks, one per task.
    pub fn get_transfer_tasks(&self) -> (r: Vec<DesktopTransferTask>)
        requires
            self.wf(),
        ensures
            unique_keys(r@),
            by_key(r@) == self.transfers(),
    {
        let mut r: Vec<DesktopTransferTask> = Vec::new();
        let mut i: usize = 0;
        while i < self.transfer_tasks.len()
            invariant
                i <= self.transfer_tasks@.len(),
                r@ == self.transfer_tasks@.subrange(0, i as int),
            decreases self.transfer_tasks@.len() - i,
        {
            r.push(self.transfer_tasks[i].duplicate());
            i = i + 1;
        }
        assert(r@ =~= self.transfer_tasks@);
        r
    }

    /// Forgets a transfer; forgetting an unknown transfer changes nothing.
    pub fn cancel_transfer(&mut self, task_id: &str) -> (r: Result<(), DesktopError>)
        requires
            old(self).wf(),
        ensures
            final(self).wf(),
            r is Ok,
            final(self).transfers() == old(self).transfers().remove(task_id@),
            final(self).paired() == old(self).paired(),
            final(self).clipboard() == old(self).clipboard(),
            final(self).mirror() == old(self).mirror(),
            final(self).spec_initialized() == old(self).spec_initialized(),
    {
        remove_key(&mut self.transfer_tasks, task_id);
        Ok(())
    }

    /// The clipboard's current content as text: its text or URL, or a
    /// marker text for an image; `None` when it is empty.
    pub fn get_clipboard_content(&self) -> (r: Result<Option<String>, DesktopError>)
        ensures
            r matches Ok(o) && match self.clipboard().current_view() {
                Some(e) => o matches Some(t) && t@ == shown_text(e.content.data),
                None => o is None,
            },
    {
        match self.clipboard_manager.get_current() {
            Some(entry) => match &entry.content.content {
                ClipboardData::Text { text } => Ok(Some(text.clone())),
                ClipboardData::Url { url } => Ok(Some(url.clone())),
                ClipboardData::Image { .. } => Ok(Some(IMAGE_MARKER.to_string())),
            },
            None => Ok(None),
        }
    }

    /// Puts text on the clipboard, stamped with the time now; refused, with
    /// nothing changed, when it is larger than the clipboard accepts.
    pub fn set_clipboard_content(&mut self, text: &str) -> (r: Result<(), DesktopError>)
        requires
            old(self).wf(),
        ensures
            final(self).wf(),
            r is Err <==> clipboard_bytes(ClipboardDataView::Text(text@)).len()
                > old(self).clipboard().max_content_size(),
            r is Err ==> r matches Err(DesktopError::Clipboard(_)),
            r is Err ==> final(self).clipboard() == old(self).clipboard(),
            r is Ok ==> exists|ts: u64| stored(
                old(self).clipboard(),
                final(self).clipboard(),
                ClipboardContentView { timestamp_ms: ts, data: ClipboardDataView::Text(text@) },
                ClipboardSource::Local,
            ),
            final(self).paired() == old(self).paired(),
            final(self).transfers() == old(self).transfers(),
            final(self).mirror() == old(self).mirror(),
            final(self).spec_initialized() == old(self).spec_initialized(),
    {
        let now = utc_timestamp_millis();
        let content = ClipboardContent {
            timestamp_ms: now as u64,
            content: ClipboardData::Text { text: text.to_string() },
        };
        match self.clipboard_manager.set_local(content) {
            Ok(()) => Ok(()),
            Err(e) => Err(DesktopError::from(e)),
        }
    }

    /// Syncing the clipboard with a device is accepted and does nothing yet.
    pub fn sync_clipboard(&self, device_id: &str) -> (r: Result<(), DesktopError>)
        ensures
            r is Ok,
    {
        Ok(())
    }

    /// Starts mirroring with a device. A fresh session has no
    /// configuration, so starting it is refused: the call fails with the
    /// session's error, and the state keeps its session.
    pub fn start_mirror(&mut self, device_id: &str) -> (r: Result<(), DesktopError>)
        ensures
            r matches Err(DesktopError::Mirror(_)),
            final(self).mirror() == old(self).mirror(),
            final(self).paired() == old(self).paired(),
            final(self).transfers() == old(self).transfers(),
            final(self).clipboard() == old(self).clipboard(),
            final(self).spec_initialized() == old(self).spec_initialized(),
            old(self).wf() ==> final(self).wf(),
    {
        let mut session = MirroringSession::new();
        match session.start() {
            Ok(()) => {
                self.mirror_session = Some(session);
                Ok(())
            },
            Err(e) => Err(DesktopError::from(e)),
        }
    }

    /// Stops and drops the mirroring session, if there is one.
    pub fn stop_mirror(&mut self) -> (r: Result<(), DesktopError>)
        ensures
            r is Ok,
            final(self).mirror() is None,
            final(self).paired() == old(self).paired(),
            final(self).transfers() == old(self).transfers(),
            final(self).clipboard() == old(self).clipboard(),
            final(self).spec_initialized() == old(self).spec_initialized(),
            old(self).wf() ==> final(self).wf(),
    {
        if let Some(session) = &mut self.mirror_session {
            let _ = session.stop();
        }
        self.mirror_session = None;
        Ok(())
    }

    /// The mirroring session, if one runs.
    pub fn mirror_session(&self) -> (r: Option<&MirroringSession>)
        ensures
            r matches Some(s) ==> self.mirror() == Some(*s),
            r is None <==> self.mirror() is None,
    {
        self.mirror_session.as_ref()
    }

    /// The clipboard manager.
    pub fn clipboard_manager(&self) -> (r: &ClipboardManager)
        ensures
            *r == self.clipboard(),
    {
        &self.clipboard_manager
    }
}

} // verus!
