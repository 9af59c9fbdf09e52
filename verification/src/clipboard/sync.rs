//! Clipboard synchronisation between devices: its configuration, its
//! events and the synchroniser's decisions.

use vstd::prelude::*;
use crate::clipboard::error::ClipboardError;
use crate::clipboard::manager::{
    clipboard_data_size, entry_of, ClipboardEntry, ClipboardEntryView, ClipboardManager, ClipboardSource,
};
use crate::clock::unix_time_ms;
use crate::keyed::{by_key, find_key, lemma_by_key_at, lemma_by_key_empty, lemma_by_key_remove, unique_keys, upsert, Keyed};
use crate::protocol::{clipboard_bytes, ClipboardContent, ClipboardData, ClipboardDataView};

verus! {

/// Sync direction.
#[derive(Debug, Clone, Copy, PartialEq, Eq, Structural)]
pub enum SyncDirection {
    /// Push only (local to remote).
    Push,
    /// Pull only (remote to local).
    Pull,
    /// Bidirectional sync.
    Bidirectional,
}

/// Sync event emitted by the syncer.
#[derive(Debug, Clone)]
pub enum SyncEvent {
    /// Content pushed to remote.
    Pushed(ClipboardEntry),
    /// Content pulled from remote.
    Pulled(ClipboardEntry),
    /// Sync error.
    Error(String),
    /// Connected to remote.
    Connected(String),
    /// Disconnected.
    Disconnected(String),
}

/// Clipboard sync configuration.
#[derive(Debug, Clone, Copy)]
pub struct ClipboardConfig {
    /// Sync direction.
    pub direction: SyncDirection,
    /// Sync interval in milliseconds.
    pub sync_interval_ms: u64,
    /// Whether to sync images.
    pub sync_images: bool,
    /// Whether to sync URLs.
    pub sync_urls: bool,
    /// Max content size in bytes.
    pub max_content_size: usize,
    /// Whether to auto-sync.
    pub auto_sync: bool,
}

impl Default for ClipboardConfig {
    fn default() -> (r: ClipboardConfig)
        ensures
            r.direction == SyncDirection::Bidirectional,
            r.sync_interval_ms == 1000,
            r.sync_images,
            r.sync_urls,
            r.max_content_size == 10 * 1024 * 1024,
            r.auto_sync,
    {
        ClipboardConfig {
            direction: SyncDirection::Bidirectional,
            sync_interval_ms: 1000,
            sync_images: true,
            sync_urls: true,
            max_content_size: 10 * 1024 * 1024,
            auto_sync: true,
        }
    }
}


/// A sync event with its entry taken by view.
pub enum SyncEventView {
    Pushed(ClipboardEntryView),
    Pulled(ClipboardEntryView),
    Error(Seq<char>),
    Connected(Seq<char>),
    Disconnected(Seq<char>),
}

impl View for SyncEvent {
    type V = SyncEventView;

    open spec fn view(&self) -> SyncEventView {
        match self {
            SyncEvent::Pushed(e) => SyncEventView::Pushed(e@),
            SyncEvent::Pulled(e) => SyncEventView::Pulled(e@),
            SyncEvent::Error(m) => SyncEventView::Error(m@),
            SyncEvent::Connected(d) => SyncEventView::Connected(d@),
            SyncEvent::Disconnected(d) => SyncEventView::Disconnected(d@),
        }
    }
}

/// A remote device clipboard content is synchronised with.
struct RemoteConnection {
    device_id: String,
    last_pushed_hash: u64,
    last_pulled_hash: u64,
}

impl Keyed for RemoteConnection {
    closed spec fn key(&self) -> Seq<char> {
        self.device_id@
    }

    fn key_str(&self) -> (r: &str) {
        self.device_id.as_str()
    }
}

/// The hash of the content last pushed to a device.
struct SentHash {
    device_id: String,
    hash: u64,
}

impl Keyed for SentHash {
    closed spec fn key(&self) -> Seq<char> {
        self.device_id@
    }

    fn key_str(&self) -> (r: &str) {
        self.device_id.as_str()
    }
}

/// The number of devices of `ids` whose last pushed hash is not `hash`.
pub open spec fn count_unsent(ids: Seq<Seq<char>>, sent: spec_fn(Seq<char>) -> u64, hash: u64) -> nat
    decreases ids.len(),
{
    if ids.len() == 0 {
        0
    } else {
        count_unsent(ids.drop_last(), sent, hash) + if sent(ids.last()) != hash { 1nat } else { 0nat }
    }
}

/// `n` copies of the same event.
pub open spec fn repeated(e: SyncEventView, n: nat) -> Seq<SyncEventView> {
    Seq::new(n, |i: int| e)
}

/// Whether content of this kind is accepted from remote devices.
pub open spec fn kind_synced(config: ClipboardConfig, d: ClipboardDataView) -> bool {
    match d {
        ClipboardDataView::Image(_) => config.sync_images,
        ClipboardDataView::Url(_) => config.sync_urls,
        ClipboardDataView::Text(_) => true,
    }
}

/// Whether content of this kind received from a remote device is taken in:
/// the direction pulls (it is not `Push`, local to remote only) and its
/// kind is synced.
pub open spec fn pulls(config: ClipboardConfig, d: ClipboardDataView) -> bool {
    config.direction != SyncDirection::Push && kind_synced(config, d)
}

/// Which received content is taken in follows the configuration: nothing
/// is taken in when the direction is `Push`; otherwise text always is, a
/// URL exactly when URLs are synced, and an image exactly when images are.
pub proof fn lemma_pulls_follows_config(config: ClipboardConfig, d: ClipboardDataView)
    ensures
        config.direction == SyncDirection::Push ==> !pulls(config, d),
        d is Url && !config.sync_urls ==> !pulls(config, d),
        d is Image && !config.sync_images ==> !pulls(config, d),
        config.direction != SyncDirection::Push ==> (d is Text ==> pulls(config, d)),
        config.direction != SyncDirection::Push && config.sync_urls ==> (d is Url ==> pulls(config, d)),
        config.direction != SyncDirection::Push && config.sync_images ==> (d is Image ==> pulls(config, d)),
{
}

/// Synchronises the local clipboard with remote devices: pushes the current
/// content to each connected device that has not got it yet, and takes in
/// content received from them. The sending itself, and the timer that runs
/// `tick`, are outside this type.
pub struct ClipboardSyncer {
    manager: ClipboardManager,
    config: ClipboardConfig,
    connected_remotes: Vec<RemoteConnection>,
    last_sent_hashes: Vec<SentHash>,
    events: Vec<SyncEvent>,
    running: bool,
    last_sync_ms: u64,
}

impl ClipboardSyncer {
    /// The local clipboard.
    pub closed spec fn manager_view(&self) -> ClipboardManager {
        self.manager
    }

    /// The configuration.
    pub closed spec fn config_view(&self) -> ClipboardConfig {
        self.config
    }

    /// The connected devices, in the order they connected.
    pub closed spec fn remotes(&self) -> Seq<Seq<char>> {
        self.connected_remotes@.map_values(|r: RemoteConnection| r.device_id@)
    }

    /// The hash of the content last pushed to a device (0 when none was).
    pub closed spec fn sent_hash(&self, d: Seq<char>) -> u64 {
        if by_key(self.last_sent_hashes@).contains_key(d) { by_key(self.last_sent_hashes@)[d].hash } else { 0 }
    }

    /// The hashes last pushed, as a function of the device.
    pub open spec fn sent_hashes(&self) -> spec_fn(Seq<char>) -> u64 {
        |d: Seq<char>| self.sent_hash(d)
    }

    /// The events not yet received, oldest first.
    pub closed spec fn events_view(&self) -> Seq<SyncEventView> {
        self.events@.map_values(|e: SyncEvent| e@)
    }

    /// Whether the sync loop runs.
    pub closed spec fn running_view(&self) -> bool {
        self.running
    }

    /// When the last sync happened (milliseconds since the epoch; 0 before any).
    pub closed spec fn last_sync_view(&self) -> u64 {
        self.last_sync_ms
    }

    /// One record per connected device and per device pushed to; the local
    /// clipboard is well formed.
    pub closed spec fn wf(&self) -> bool {
        &&& unique_keys(self.connected_remotes@)
        &&& unique_keys(self.last_sent_hashes@)
        &&& self.manager.wf()
    }

    /// A stopped syncer of the local clipboard with no device connected.
    pub fn new(manager: ClipboardManager, config: ClipboardConfig) -> (r: ClipboardSyncer)
        requires
            manager.wf(),
        ensures
            r.wf(),
            r.manager_view() == manager,
            r.config_view() == config,
            r.remotes().len() == 0,
            r.events_view().len() == 0,
            !r.running_view(),
            r.last_sync_view() == 0,
            forall|d: Seq<char>| #[trigger] r.sent_hash(d) == 0,
    {
        let r = ClipboardSyncer {
            manager,
            config,
            connected_remotes: Vec::new(),
            last_sent_hashes: Vec::new(),
            events: Vec::new(),
            running: false,
            last_sync_ms: 0,
        };
        proof {
            lemma_by_key_empty(r.connected_remotes@);
            lemma_by_key_empty(r.last_sent_hashes@);
        }
        r
    }

    /// A syncer with the default configuration.
    pub fn with_defaults(manager: ClipboardManager) -> (r: ClipboardSyncer)
        requires
            manager.wf(),
        ensures
            r.wf(),
            r.manager_view() == manager,
            r.config_view().direction == SyncDirection::Bidirectional,
            r.config_view().sync_images && r.config_view().sync_urls && r.config_view().auto_sync,
            r.remotes().len() == 0,
            !r.running_view(),
    {
        Self::new(manager, ClipboardConfig::default())
    }

    /// The local clipboard.
    pub fn manager(&self) -> (r: &ClipboardManager)
        ensures
            *r == self.manager_view(),
    {
        &self.manager
    }

    /// The local clipboard, to change it.
    pub fn manager_mut(&mut self) -> (r: &mut ClipboardManager)
        ensures
            *r == old(self).manager_view(),
            final(self).manager_view() == *final(r),
            final(self).config_view() == old(self).config_view(),
            final(self).remotes() == old(self).remotes(),
            final(self).events_view() == old(self).events_view(),
            final(self).running_view() == old(self).running_view(),
            final(self).last_sync_view() == old(self).last_sync_view(),
    {
        &mut self.manager
    }

    /// The configuration.
    pub fn config(&self) -> (r: &ClipboardConfig)
        ensures
            *r == self.config_view(),
    {
        &self.config
    }

    /// Connects a device (again, if it was), and reports it connected.
    pub fn add_remote(&mut self, device_id: String)
        requires
            old(self).wf(),
        ensures
            final(self).wf(),
            final(self).remotes().to_set() == old(self).remotes().to_set().insert(device_id@),
            final(self).events_view() == old(self).events_view().push(SyncEventView::Connected(device_id@)),
            final(self).manager_view() == old(self).manager_view(),
            forall|d: Seq<char>| #[trigger] final(self).sent_hash(d) == old(self).sent_hash(d),
            final(self).running_view() == old(self).running_view(),
    {
        let remote = RemoteConnection { device_id: device_id.clone(), last_pushed_hash: 0, last_pulled_hash: 0 };
        let ghost s0 = self.connected_remotes@;
        upsert(&mut self.connected_remotes, remote);
        proof {
            Self::lemma_remote_set(s0);
            Self::lemma_remote_set(self.connected_remotes@);
        }
        self.events.push(SyncEvent::Connected(device_id));
        assert(self.events_view() =~= old(self).events_view().push(SyncEventView::Connected(device_id@)));
    }

    /// The connected devices, as a set, are the keys of the remote table.
    proof fn lemma_remote_set(s: Seq<RemoteConnection>)
        ensures
            s.map_values(|r: RemoteConnection| r.device_id@).to_set() == by_key(s).dom(),
    {
        let m = s.map_values(|r: RemoteConnection| r.device_id@);
        assert forall|x: Seq<char>| m.to_set().contains(x) <==> by_key(s).dom().contains(x) by {
            if m.contains(x) {
                let i = choose|i: int| 0 <= i < m.len() && m[i] == x;
                assert(s[i].key() == x);
            }
            if by_key(s).dom().contains(x) {
                let i = choose|i: int| 0 <= i < s.len() && s[i].key() == x;
                assert(m[i] == x);
            }
        }
        assert(m.to_set() =~= by_key(s).dom());
    }

    /// Disconnects a device, reporting it disconnected if it was connected.
    pub fn remove_remote(&mut self, device_id: &str)
        requires
            old(self).wf(),
        ensures
            final(self).wf(),
            final(self).remotes().to_set() == old(self).remotes().to_set().remove(device_id@),
            old(self).remotes().contains(device_id@) ==> final(self).events_view()
                == old(self).events_view().push(SyncEventView::Disconnected(device_id@)),
            !old(self).remotes().contains(device_id@) ==> final(self).events_view() == old(self).events_view(),
            final(self).manager_view() == old(self).manager_view(),
            forall|d: Seq<char>| #[trigger] final(self).sent_hash(d) == old(self).sent_hash(d),
            final(self).running_view() == old(self).running_view(),
    {
        proof {
            Self::lemma_remote_set(self.connected_remotes@);
            assert(self.remotes().contains(device_id@) <==> self.remotes().to_set().contains(device_id@));
        }
        match find_key(&self.connected_remotes, device_id) {
            Some(i) => {
                let ghost s0 = self.connected_remotes@;
                self.connected_remotes.remove(i);
                proof {
                    lemma_by_key_remove(s0, i as int);
                    Self::lemma_remote_set(self.connected_remotes@);
                }
                self.events.push(SyncEvent::Disconnected(device_id.to_string()));
                assert(self.events_view() =~= old(self).events_view().push(SyncEventView::Disconnected(device_id@)));
            },
            None => {
                assert(self.remotes().to_set().remove(device_id@) =~= self.remotes().to_set());
            },
        }
    }

    /// The connected devices.
    pub fn connected_remotes(&self) -> (r: Vec<String>)
        ensures
            r@.map_values(|s: String| s@) == self.remotes(),
    {
        let mut r: Vec<String> = Vec::new();
        let mut i: usize = 0;
        while i < self.connected_remotes.len()
            invariant
                i <= self.connected_remotes@.len(),
                r@.map_values(|s: String| s@) == self.remotes().subrange(0, i as int),
            decreases self.connected_remotes@.len() - i,
        {
            let ghost old_r = r@;
            r.push(self.connected_remotes[i].device_id.clone());
            assert(r@.map_values(|s: String| s@) =~= old_r.map_values(|s: String| s@).push(self.connected_remotes@[i as int].device_id@));
            i = i + 1;
            assert(r@.map_values(|s: String| s@) =~= self.remotes().subrange(0, i as int));
        }
        assert(self.remotes().subrange(0, i as int) =~= self.remotes());
        r
    }

    /// Whether the sync loop runs.
    pub fn is_running(&self) -> (r: bool)
        ensures
            r == self.running_view(),
    {
        self.running
    }

    /// Starts the sync loop (nothing changes if it runs already).
    pub fn start(&mut self) -> (r: Result<(), ClipboardError>)
        ensures
            r is Ok,
            final(self).running_view(),
            same_state(*old(self), *final(self)),
            final(self).last_sync_view() == old(self).last_sync_view(),
    {
        self.running = true;
        Ok(())
    }

    /// Stops the sync loop.
    pub fn stop(&mut self) -> (r: Result<(), ClipboardError>)
        ensures
            r is Ok,
            !final(self).running_view(),
            same_state(*old(self), *final(self)),
            final(self).last_sync_view() == old(self).last_sync_view(),
    {
        self.running = false;
        Ok(())
    }

    /// Synchronises now (see `do_sync`).
    pub fn sync_now(&mut self) -> (r: Result<(), ClipboardError>)
        requires
            old(self).wf(),
        ensures
            final(self).wf(),
            synced(*old(self), *final(self)),
            r is Ok,
    {
        self.do_sync()
    }

    /// One turn of the sync loop: synchronises when auto-sync is on (an
    /// error would be reported as an event).
    pub fn tick(&mut self)
        requires
            old(self).wf(),
        ensures
            final(self).wf(),
            old(self).config_view().auto_sync ==> synced(*old(self), *final(self)),
            !old(self).config_view().auto_sync ==> *final(self) == *old(self),
    {
        if self.config.auto_sync {
            match self.do_sync() {
                Ok(()) => {},
                Err(e) => {
                    self.events.push(SyncEvent::Error(e.to_string()));
                },
            }
        }
    }

    /// Takes in content received from a remote device: content over the
    /// configured size is refused with `ContentTooLarge`; all content is
    /// skipped when the direction is `Push` (local to remote only), and
    /// images or URLs when their sync is off; any other content becomes the
    /// local clipboard's remote content (which may refuse it in turn) and
    /// is reported as pulled.
    pub fn receive_content(&mut self, content: ClipboardContent) -> (r: Result<(), ClipboardError>)
        requires
            old(self).wf(),
        ensures
            final(self).wf(),
            final(self).remotes() == old(self).remotes(),
            final(self).config_view() == old(self).config_view(),
            clipboard_bytes(content@.data).len() > old(self).config_view().max_content_size ==> (r matches Err(e)
                && e matches ClipboardError::ContentTooLarge(size, max)
                && size == clipboard_bytes(content@.data).len() && max == old(self).config_view().max_content_size
                && *final(self) == *old(self)),
            clipboard_bytes(content@.data).len() <= old(self).config_view().max_content_size
                && !pulls(old(self).config_view(), content@.data) ==> (r is Ok && *final(self) == *old(self)),
            clipboard_bytes(content@.data).len() <= old(self).config_view().max_content_size && ((content@.data is Url
                && !old(self).config_view().sync_urls) || (content@.data is Image && !old(self).config_view().sync_images)
                || old(self).config_view().direction == SyncDirection::Push) ==> (r is Ok && *final(self) == *old(self)),
            clipboard_bytes(content@.data).len() <= old(self).config_view().max_content_size
                && pulls(old(self).config_view(), content@.data) ==> {
                &&& clipboard_bytes(content@.data).len() > old(self).manager_view().max_content_size() ==> (r is Err
                    && final(self).manager_view() == old(self).manager_view() && final(self).events_view() == old(self).events_view())
                &&& clipboard_bytes(content@.data).len() <= old(self).manager_view().max_content_size() ==> (r is Ok
                    && crate::clipboard::manager::stored(old(self).manager_view(), final(self).manager_view(), content@, ClipboardSource::Remote)
                    && final(self).events_view().len() == old(self).events_view().len() + 1
                    && final(self).events_view().subrange(0, old(self).events_view().len() as int) == old(self).events_view()
                    && (final(self).events_view().last() matches SyncEventView::Pulled(e) && entry_of(e, content@, ClipboardSource::Remote)))
            },
    {
        proof {
            lemma_pulls_follows_config(self.config_view(), content@.data);
        }
        let size = clipboard_data_size(&content.content);
        if size > self.config.max_content_size {
            return Err(ClipboardError::ContentTooLarge(size, self.config.max_content_size));
        }
        if self.config.direction == SyncDirection::Push {
            return Ok(());
        }
        match &content.content {
            ClipboardData::Image { .. } => {
                if !self.config.sync_images {
                    return Ok(());
                }
            },
            ClipboardData::Url { .. } => {
                if !self.config.sync_urls {
                    return Ok(());
                }
            },
            ClipboardData::Text { .. } => {},
        }
        let entry = ClipboardEntry::new(content.duplicate(), ClipboardSource::Remote);
        match self.manager.set_remote(content) {
            Ok(()) => {},
            Err(e) => return Err(e),
        }
        let ghost ev0 = self.events_view();
        self.events.push(SyncEvent::Pulled(entry));
        assert(self.events_view() =~= ev0.push(SyncEventView::Pulled(entry@)));
        assert(self.events_view().subrange(0, ev0.len() as int) =~= ev0);
        Ok(())
    }

    /// Takes the oldest pending event, if any.
    pub fn try_recv_event(&mut self) -> (r: Option<SyncEvent>)
        ensures
            old(self).events_view().len() == 0 ==> r is None && *final(self) == *old(self),
            old(self).events_view().len() > 0 ==> (r matches Some(e) && e@ == old(self).events_view()[0]
                && final(self).events_view() == old(self).events_view().drop_first()),
            same_state(*old(self), *final(self)),
            final(self).running_view() == old(self).running_view(),
            final(self).last_sync_view() == old(self).last_sync_view(),
    {
        if self.events.len() == 0 {
            None
        } else {
            let e = self.events.remove(0);
            assert(self.events_view() =~= old(self).events_view().drop_first());
            Some(e)
        }
    }

    /// When the last sync happened.
    pub fn last_sync(&self) -> (r: u64)
        ensures
            r == self.last_sync_view(),
    {
        self.last_sync_ms
    }

    /// Synchronises: with no device connected nothing happens; else, when
    /// the direction pushes and the clipboard has a current entry, it is
    /// pushed to the devices that have not got it, and the time of the
    /// sync is recorded.
    fn do_sync(&mut self) -> (r: Result<(), ClipboardError>)
        requires
            old(self).wf(),
        ensures
            final(self).wf(),
            synced(*old(self), *final(self)),
            r is Ok,
    {
        if self.connected_remotes.len() == 0 {
            return Ok(());
        }
        let current = self.manager.get_current();
        match current {
            Some(entry) => {
                if self.config.direction == SyncDirection::Push || self.config.direction == SyncDirection::Bidirectional {
                    self.push_to_remotes(&entry);
                    assert(pushed(*old(self), *self, old(self).manager_view().current_view()->0));
                } else {
                    assert(same_state(*old(self), *self));
                }
            },
            None => {},
        }
        let ghost before_time = *self;
        self.last_sync_ms = unix_time_ms();
        assert(self.remotes() == before_time.remotes());
        assert(self.events_view() == before_time.events_view());
        assert(forall|d: Seq<char>| #[trigger] self.sent_hash(d) == before_time.sent_hash(d));
        Ok(())
    }

    /// The hash last pushed to a device.
    fn last_hash(&self, device_id: &str) -> (r: u64)
        requires
            self.wf(),
        ensures
            r == self.sent_hash(device_id@),
    {
        match find_key(&self.last_sent_hashes, device_id) {
            Some(i) => self.last_sent_hashes[i].hash,
            None => 0,
        }
    }

    /// Pushes an entry to every connected device whose last pushed hash is
    /// not the entry's, recording the hash and reporting each push.
    fn push_to_remotes(&mut self, entry: &ClipboardEntry)
        requires
            old(self).wf(),
        ensures
            final(self).wf(),
            pushed(*old(self), *final(self), entry@),
            final(self).last_sync_view() == old(self).last_sync_view(),
    {
        let ghost ev0 = self.events_view();
        let ghost sent0 = self.sent_hashes();
        let ghost ids = self.remotes();
        let mut i: usize = 0;
        while i < self.connected_remotes.len()
            invariant
                unique_keys(self.connected_remotes@),
                unique_keys(self.last_sent_hashes@),
                self.manager.wf(),
                ids == self.remotes(),
                i <= ids.len(),
                forall|k: Seq<char>| #[trigger] self.sent_hash(k) == if ids.subrange(0, i as int).contains(k) { entry.hash } else { sent0(k) },
                self.events_view() == ev0 + repeated(SyncEventView::Pushed(entry@), count_unsent(ids.subrange(0, i as int), sent0, entry.hash)),
                self.manager_view() == old(self).manager_view(),
                self.config_view() == old(self).config_view(),
                self.running_view() == old(self).running_view(),
                self.last_sync_view() == old(self).last_sync_view(),
            decreases ids.len() - i,
        {
            let ghost id = ids[i as int];
            let ghost pre = ids.subrange(0, i as int);
            assert(ids.subrange(0, i + 1) =~= pre.push(id));
            assert(!pre.contains(id)) by {
                if pre.contains(id) {
                    let j = choose|j: int| 0 <= j < pre.len() && pre[j] == id;
                    assert(self.connected_remotes@[j].key() == self.connected_remotes@[i as int].key());
                }
            }
            let device_id = self.connected_remotes[i].device_id.clone();
            let last = self.last_hash(device_id.as_str());
            assert(last == sent0(id));
            if last != entry.hash {
                let ghost snap = self.sent_hashes();
                upsert(&mut self.last_sent_hashes, SentHash { device_id, hash: entry.hash });
                let ghost ev1 = self.events_view();
                self.events.push(SyncEvent::Pushed(entry.duplicate()));
                proof {
                    assert(self.events_view() =~= ev1.push(SyncEventView::Pushed(entry@)));
                    let n = count_unsent(pre, sent0, entry.hash);
                    assert(count_unsent(pre.push(id), sent0, entry.hash) == n + 1) by {
                        assert(pre.push(id).drop_last() =~= pre);
                    }
                    assert(repeated(SyncEventView::Pushed(entry@), n).push(SyncEventView::Pushed(entry@))
                        =~= repeated(SyncEventView::Pushed(entry@), n + 1));
                    assert(self.events_view() =~= ev0 + repeated(SyncEventView::Pushed(entry@), n + 1));
                    assert forall|k: Seq<char>| #[trigger] self.sent_hash(k) == if pre.push(id).contains(k) { entry.hash } else { sent0(k) } by {
                        if k == id {
                            assert(pre.push(id)[pre.len() as int] == id);
                            assert(self.sent_hash(id) == entry.hash);
                        } else {
                            assert(self.sent_hash(k) == snap(k));
                            if pre.push(id).contains(k) {
                                let j = choose|j: int| 0 <= j < pre.push(id).len() && pre.push(id)[j] == k;
                                assert(pre[j] == k);
                            }
                            if pre.contains(k) {
                                let j = choose|j: int| 0 <= j < pre.len() && pre[j] == k;
                                assert(pre.push(id)[j] == k);
                            }
                        }
                    }
                }
            } else {
                proof {
                    assert(count_unsent(pre.push(id), sent0, entry.hash) == count_unsent(pre, sent0, entry.hash)) by {
                        assert(pre.push(id).drop_last() =~= pre);
                    }
                    assert forall|k: Seq<char>| #[trigger] self.sent_hash(k) == if pre.push(id).contains(k) { entry.hash } else { sent0(k) } by {
                        if k == id {
                            assert(pre.push(id)[pre.len() as int] == id);
                            assert(self.sent_hash(id) == sent0(id));
                        } else {
                            if pre.push(id).contains(k) {
                                let j = choose|j: int| 0 <= j < pre.push(id).len() && pre.push(id)[j] == k;
                                assert(pre[j] == k);
                            }
                            if pre.contains(k) {
                                let j = choose|j: int| 0 <= j < pre.len() && pre[j] == k;
                                assert(pre.push(id)[j] == k);
                            }
                        }
                    }
                }
            }
            i = i + 1;
        }
        assert(ids.subrange(0, ids.len() as int) =~= ids);
    }
}

/// `s2` has the same local clipboard, configuration, connected devices
/// and pushed hashes as `s1`.
pub open spec fn same_state(s1: ClipboardSyncer, s2: ClipboardSyncer) -> bool {
    &&& s2.manager_view() == s1.manager_view()
    &&& s2.config_view() == s1.config_view()
    &&& s2.remotes() == s1.remotes()
    &&& forall|d: Seq<char>| #[trigger] s2.sent_hash(d) == s1.sent_hash(d)
}

/// `s2` is `s1` after pushing `entry`: every connected device has the
/// entry's hash as last pushed, other devices keep theirs, and one push is
/// reported for each connected device that did not have it.
pub open spec fn pushed(s1: ClipboardSyncer, s2: ClipboardSyncer, entry: ClipboardEntryView) -> bool {
    &&& s2.remotes() == s1.remotes()
    &&& forall|k: Seq<char>| #[trigger] s2.sent_hash(k) == if s1.remotes().contains(k) { entry.hash } else { s1.sent_hash(k) }
    &&& s2.events_view() == s1.events_view() + repeated(
        SyncEventView::Pushed(entry),
        count_unsent(s1.remotes(), s1.sent_hashes(), entry.hash),
    )
    &&& s2.manager_view() == s1.manager_view()
    &&& s2.config_view() == s1.config_view()
    &&& s2.running_view() == s1.running_view()
}

/// Once every device of `ids` has `hash` as last pushed, none is counted.
proof fn lemma_count_all_sent(ids: Seq<Seq<char>>, sent: spec_fn(Seq<char>) -> u64, hash: u64)
    requires
        forall|j: int| 0 <= j < ids.len() ==> sent(#[trigger] ids[j]) == hash,
    ensures
        count_unsent(ids, sent, hash) == 0,
    decreases ids.len(),
{
    if ids.len() > 0 {
        assert forall|j: int| 0 <= j < ids.drop_last().len() implies sent(#[trigger] ids.drop_last()[j]) == hash by {
            assert(ids.drop_last()[j] == ids[j]);
        }
        lemma_count_all_sent(ids.drop_last(), sent, hash);
        assert(sent(ids[ids.len() - 1]) == hash);
    }
}

/// Content is not pushed twice: pushing the same entry again right after a
/// push reports no new push and leaves the pushed hashes as they are.
pub proof fn lemma_push_not_repeated(s1: ClipboardSyncer, s2: ClipboardSyncer, s3: ClipboardSyncer, entry: ClipboardEntryView)
    requires
        pushed(s1, s2, entry),
        pushed(s2, s3, entry),
    ensures
        s3.events_view() == s2.events_view(),
        forall|d: Seq<char>| #[trigger] s3.sent_hash(d) == s2.sent_hash(d),
{
    let ids = s2.remotes();
    assert forall|j: int| 0 <= j < ids.len() implies (s2.sent_hashes())(#[trigger] ids[j]) == entry.hash by {
        assert(s1.remotes().contains(ids[j]));
        assert(s2.sent_hash(ids[j]) == entry.hash);
    }
    lemma_count_all_sent(ids, s2.sent_hashes(), entry.hash);
    assert(repeated(SyncEventView::Pushed(entry), 0) =~= Seq::<SyncEventView>::empty());
    assert(s3.events_view() =~= s2.events_view());
    assert forall|d: Seq<char>| #[trigger] s3.sent_hash(d) == s2.sent_hash(d) by {
        if s2.remotes().contains(d) {
            assert(s1.remotes().contains(d));
        }
    }
}

/// `s2` is `s1` after a sync: with no device connected it is unchanged;
/// else the current entry, if any, was pushed when the direction pushes,
/// and the sync time was taken from the clock.
pub open spec fn synced(s1: ClipboardSyncer, s2: ClipboardSyncer) -> bool {
    if s1.remotes().len() == 0 {
        s2 == s1
    } else if s1.manager_view().current_view() is Some && (s1.config_view().direction == SyncDirection::Push
        || s1.config_view().direction == SyncDirection::Bidirectional) {
        pushed(s1, s2, s1.manager_view().current_view()->0)
    } else {
        &&& same_state(s1, s2)
        &&& s2.events_view() == s1.events_view()
        &&& s2.running_view() == s1.running_view()
    }
}

} // verus!
