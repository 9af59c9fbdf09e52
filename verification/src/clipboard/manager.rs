//! The local clipboard: the current entry, a bounded history of entries and
//! the queue of events that changes produce.

use vstd::prelude::*;
use crate::clipboard::error::ClipboardError;
use crate::clock::unix_time_ms;
use crate::protocol::{clipboard_bytes, ClipboardContent, ClipboardContentView, ClipboardData};

verus! {

/// One step of the 64-bit FNV-1a hash: xor in the byte, then multiply by
/// the FNV prime modulo 2^64.
pub open spec fn fnv1a_step(h: u64, b: u8) -> u64 {
    vstd::wrapping::u64_specs::wrapping_mul(h ^ (b as u64), 1099511628211u64)
}

/// The 64-bit FNV-1a hash of a byte sequence.
pub open spec fn fnv1a(bytes: Seq<u8>) -> u64
    decreases bytes.len(),
{
    if bytes.len() == 0 {
        14695981039346656037u64
    } else {
        fnv1a_step(fnv1a(bytes.drop_last()), bytes.last())
    }
}

/// The size of clipboard data in bytes: the UTF-8 length of text and URLs,
/// the length of an image.
pub fn clipboard_data_size(data: &ClipboardData) -> (r: usize)
    ensures
        r == clipboard_bytes(data@).len(),
{
    data.as_bytes().len()
}

/// Source of clipboard content.
#[derive(Debug, Clone, Copy, PartialEq, Eq, Structural)]
pub enum ClipboardSource {
    /// Set by local user action.
    Local,
    /// Received from a remote device.
    Remote,
    /// Set by the system.
    System,
}

/// A clipboard entry with its metadata.
#[derive(Debug, Clone)]
pub struct ClipboardEntry {
    pub content: ClipboardContent,
    pub source: ClipboardSource,
    pub timestamp_ms: u64,
    pub content_size: usize,
    pub hash: u64,
}

/// What an entry holds, with its content taken by view.
pub struct ClipboardEntryView {
    pub content: ClipboardContentView,
    pub source: ClipboardSource,
    pub timestamp_ms: u64,
    pub content_size: usize,
    pub hash: u64,
}

impl View for ClipboardEntry {
    type V = ClipboardEntryView;

    open spec fn view(&self) -> ClipboardEntryView {
        ClipboardEntryView {
            content: self.content@,
            source: self.source,
            timestamp_ms: self.timestamp_ms,
            content_size: self.content_size,
            hash: self.hash,
        }
    }
}

/// `e` is an entry made of `content` from `source`: its size and hash are
/// those of the content's data. Its own timestamp is the moment it was
/// made, which no clause fixes.
pub open spec fn entry_of(e: ClipboardEntryView, content: ClipboardContentView, source: ClipboardSource) -> bool {
    &&& e.content == content
    &&& e.source == source
    &&& e.content_size == clipboard_bytes(content.data).len()
    &&& e.hash == fnv1a(clipboard_bytes(content.data))
}

impl ClipboardEntry {
    /// An entry of `content` from `source`, stamped with the current time.
    pub fn new(content: ClipboardContent, source: ClipboardSource) -> (r: ClipboardEntry)
        ensures
            entry_of(r@, content@, source),
    {
        let timestamp_ms = unix_time_ms();
        let content_size = clipboard_data_size(&content.content);
        let hash = Self::compute_hash(&content);
        ClipboardEntry { content, source, timestamp_ms, content_size, hash }
    }

    /// The FNV-1a hash of the content's data (its timestamp does not count).
    pub fn compute_hash(content: &ClipboardContent) -> (r: u64)
        ensures
            r == fnv1a(clipboard_bytes(content.content@)),
    {
        let bytes = content.content.as_bytes();
        let mut hasher: u64 = 14695981039346656037;
        let prime: u64 = 1099511628211;
        let mut i: usize = 0;
        while i < bytes.len()
            invariant
                i <= bytes@.len(),
                prime == 1099511628211u64,
                hasher == fnv1a(bytes@.subrange(0, i as int)),
            decreases bytes@.len() - i,
        {
            assert(bytes@.subrange(0, i + 1 as int).drop_last() == bytes@.subrange(0, i as int));
            hasher = (hasher ^ (bytes[i] as u64)).wrapping_mul(prime);
            i = i + 1;
        }
        assert(bytes@.subrange(0, bytes@.len() as int) == bytes@);
        hasher
    }

    /// A copy with the same contents.
    pub fn duplicate(&self) -> (r: ClipboardEntry)
        ensures
            r@ == self@,
    {
        ClipboardEntry {
            content: self.content.duplicate(),
            source: self.source,
            timestamp_ms: self.timestamp_ms,
            content_size: self.content_size,
            hash: self.hash,
        }
    }
}

/// Event emitted by the clipboard manager.
#[derive(Debug, Clone)]
pub enum ClipboardManagerEvent {
    /// New local content set.
    LocalSet(ClipboardEntry),
    /// Content received from remote.
    RemoteReceived(ClipboardEntry),
    /// Content cleared.
    Cleared,
}

/// An event with its entry taken by view.
pub enum ClipboardManagerEventView {
    LocalSet(ClipboardEntryView),
    RemoteReceived(ClipboardEntryView),
    Cleared,
}

impl View for ClipboardManagerEvent {
    type V = ClipboardManagerEventView;

    open spec fn view(&self) -> ClipboardManagerEventView {
        match self {
            ClipboardManagerEvent::LocalSet(e) => ClipboardManagerEventView::LocalSet(e@),
            ClipboardManagerEvent::RemoteReceived(e) => ClipboardManagerEventView::RemoteReceived(e@),
            ClipboardManagerEvent::Cleared => ClipboardManagerEventView::Cleared,
        }
    }
}

/// The last `n` elements of `s` (all of them when it holds no more).
pub open spec fn keep_last<A>(s: Seq<A>, n: nat) -> Seq<A> {
    if s.len() <= n {
        s
    } else {
        s.subrange(s.len() - n, s.len() as int)
    }
}

/// The entries of a sequence, taken by view.
pub open spec fn entry_views(s: Seq<ClipboardEntry>) -> Seq<ClipboardEntryView> {
    s.map_values(|e: ClipboardEntry| e@)
}

/// The local clipboard state.
pub struct ClipboardManager {
    current: Option<ClipboardEntry>,
    history: Vec<ClipboardEntry>,
    events: Vec<ClipboardManagerEvent>,
    max_history: usize,
    max_content_size: usize,
}

impl ClipboardManager {
    /// The current entry.
    pub closed spec fn current_view(&self) -> Option<ClipboardEntryView> {
        match self.current {
            Some(e) => Some(e@),
            None => None,
        }
    }

    /// The history, oldest entry first.
    pub closed spec fn history_view(&self) -> Seq<ClipboardEntryView> {
        entry_views(self.history@)
    }

    /// The events not yet received, oldest first.
    pub closed spec fn events_view(&self) -> Seq<ClipboardManagerEventView> {
        self.events@.map_values(|e: ClipboardManagerEvent| e@)
    }

    /// How many entries the history keeps.
    pub closed spec fn max_history(&self) -> usize {
        self.max_history
    }

    /// The largest content accepted, in bytes.
    pub closed spec fn max_content_size(&self) -> usize {
        self.max_content_size
    }

    /// The history never holds more entries than it keeps.
    pub closed spec fn wf(&self) -> bool {
        self.history@.len() <= self.max_history
    }

    /// A manager with a history of 50 entries and a 10 MiB content limit.
    pub fn new() -> (r: ClipboardManager)
        ensures
            r.wf(),
            r.current_view() is None,
            r.history_view().len() == 0,
            r.events_view().len() == 0,
            r.max_history() == 50,
            r.max_content_size() == 10 * 1024 * 1024,
    {
        Self::with_limits(50, 10 * 1024 * 1024)
    }

    /// An empty manager with the given limits.
    pub fn with_limits(max_history: usize, max_content_size: usize) -> (r: ClipboardManager)
        ensures
            r.wf(),
            r.current_view() is None,
            r.history_view().len() == 0,
            r.events_view().len() == 0,
            r.max_history() == max_history,
            r.max_content_size() == max_content_size,
    {
        let r = ClipboardManager {
            current: None,
            history: Vec::new(),
            events: Vec::new(),
            max_history,
            max_content_size,
        };
        assert(r.history_view() =~= Seq::<ClipboardEntryView>::empty());
        r
    }

    /// Makes `entry` current and appends it to the history, dropping the
    /// oldest entry when the history is full.
    fn record(&mut self, entry: &ClipboardEntry)
        requires
            old(self).wf(),
        ensures
            final(self).wf(),
            final(self).current_view() == Some(entry@),
            final(self).history_view() == keep_last(old(self).history_view().push(entry@), old(self).max_history() as nat),
            final(self).events == old(self).events,
            final(self).max_history == old(self).max_history,
            final(self).max_content_size == old(self).max_content_size,
    {
        self.current = Some(entry.duplicate());
        self.history.push(entry.duplicate());
        assert(entry_views(self.history@) =~= old(self).history_view().push(entry@));
        if self.history.len() > self.max_history {
            let ghost before = self.history@;
            self.history.remove(0);
            assert(entry_views(self.history@) =~= entry_views(before).subrange(1, before.len() as int));
        }
    }

    /// Stores content set by the local user. Content over the size limit is
    /// refused with `ContentTooLarge` and changes nothing.
    pub fn set_local(&mut self, content: ClipboardContent) -> (r: Result<(), ClipboardError>)
        requires
            old(self).wf(),
        ensures
            final(self).wf(),
            r is Err <==> clipboard_bytes(content@.data).len() > old(self).max_content_size(),
            r matches Err(e) ==> (e matches ClipboardError::ContentTooLarge(size, max)
                && size == clipboard_bytes(content@.data).len() && max == old(self).max_content_size()),
            r is Err ==> *final(self) == *old(self),
            r is Ok ==> stored(*old(self), *final(self), content@, ClipboardSource::Local),
            r is Ok ==> final(self).events_view() == old(self).events_view().push(
                ClipboardManagerEventView::LocalSet(final(self).current_view()->0)),
    {
        let size = clipboard_data_size(&content.content);
        if size > self.max_content_size {
            return Err(ClipboardError::ContentTooLarge(size, self.max_content_size));
        }
        let entry = ClipboardEntry::new(content, ClipboardSource::Local);
        self.record(&entry);
        self.events.push(ClipboardManagerEvent::LocalSet(entry));
        assert(self.events_view() =~= old(self).events_view().push(ClipboardManagerEventView::LocalSet(self.current_view()->0)));
        Ok(())
    }

    /// Stores content received from a remote device. Content over the size
    /// limit is refused with `ContentTooLarge` and changes nothing.
    pub fn set_remote(&mut self, content: ClipboardContent) -> (r: Result<(), ClipboardError>)
        requires
            old(self).wf(),
        ensures
            final(self).wf(),
            r is Err <==> clipboard_bytes(content@.data).len() > old(self).max_content_size(),
            r matches Err(e) ==> (e matches ClipboardError::ContentTooLarge(size, max)
                && size == clipboard_bytes(content@.data).len() && max == old(self).max_content_size()),
            r is Err ==> *final(self) == *old(self),
            r is Ok ==> stored(*old(self), *final(self), content@, ClipboardSource::Remote),
            r is Ok ==> final(self).events_view() == old(self).events_view().push(
                ClipboardManagerEventView::RemoteReceived(final(self).current_view()->0)),
    {
        let size = clipboard_data_size(&content.content);
        if size > self.max_content_size {
            return Err(ClipboardError::ContentTooLarge(size, self.max_content_size));
        }
        let entry = ClipboardEntry::new(content, ClipboardSource::Remote);
        self.record(&entry);
        self.events.push(ClipboardManagerEvent::RemoteReceived(entry));
        assert(self.events_view() =~= old(self).events_view().push(ClipboardManagerEventView::RemoteReceived(self.current_view()->0)));
        Ok(())
    }

    /// A copy of the current entry.
    pub fn get_current(&self) -> (r: Option<ClipboardEntry>)
        ensures
            r is Some <==> self.current_view() is Some,
            r matches Some(e) ==> self.current_view() == Some(e@),
    {
        match &self.current {
            Some(e) => Some(e.duplicate()),
            None => None,
        }
    }

    /// A copy of the history, oldest entry first.
    pub fn get_history(&self) -> (r: Vec<ClipboardEntry>)
        ensures
            entry_views(r@) == self.history_view(),
    {
        let mut r: Vec<ClipboardEntry> = Vec::new();
        let mut i: usize = 0;
        while i < self.history.len()
            invariant
                i <= self.history@.len(),
                entry_views(r@) == entry_views(self.history@).subrange(0, i as int),
            decreases self.history@.len() - i,
        {
            let d = self.history[i].duplicate();
            let ghost old_r = r@;
            r.push(d);
            assert(entry_views(r@) =~= entry_views(old_r).push(d@));
            i = i + 1;
            assert(entry_views(r@) =~= entry_views(self.history@).subrange(0, i as int));
        }
        assert(entry_views(self.history@).subrange(0, i as int) =~= entry_views(self.history@));
        r
    }

    /// Empties the clipboard; the history is kept.
    pub fn clear(&mut self) -> (r: Result<(), ClipboardError>)
        requires
            old(self).wf(),
        ensures
            final(self).wf(),
            r is Ok,
            final(self).current_view() is None,
            final(self).history_view() == old(self).history_view(),
            final(self).events_view() == old(self).events_view().push(ClipboardManagerEventView::Cleared),
            final(self).max_history() == old(self).max_history(),
            final(self).max_content_size() == old(self).max_content_size(),
    {
        self.current = None;
        self.events.push(ClipboardManagerEvent::Cleared);
        assert(self.events_view() =~= old(self).events_view().push(ClipboardManagerEventView::Cleared));
        Ok(())
    }

    /// Whether no entry is current.
    pub fn is_empty(&self) -> (r: bool)
        ensures
            r == self.current_view() is None,
    {
        self.current.is_none()
    }

    /// How many entries the history holds.
    pub fn history_size(&self) -> (r: usize)
        ensures
            r == self.history_view().len(),
    {
        self.history.len()
    }

    /// Takes the oldest pending event, if any.
    pub fn try_recv_event(&mut self) -> (r: Option<ClipboardManagerEvent>)
        requires
            old(self).wf(),
        ensures
            final(self).wf(),
            old(self).events_view().len() == 0 ==> r is None && *final(self) == *old(self),
            old(self).events_view().len() > 0 ==> (r matches Some(e) && e@ == old(self).events_view()[0]
                && final(self).events_view() == old(self).events_view().drop_first()),
            final(self).current_view() == old(self).current_view(),
            final(self).history_view() == old(self).history_view(),
            final(self).max_history() == old(self).max_history(),
            final(self).max_content_size() == old(self).max_content_size(),
    {
        if self.events.len() == 0 {
            None
        } else {
            let e = self.events.remove(0);
            assert(self.events_view() =~= old(self).events_view().drop_first());
            Some(e)
        }
    }
}

/// `m2` is `m1` after storing an entry made of `content` from `source`: the
/// entry is current and the newest in the history, which keeps at most its
/// limit of the latest entries; the limits are unchanged.
pub open spec fn stored(m1: ClipboardManager, m2: ClipboardManager, content: ClipboardContentView, source: ClipboardSource) -> bool {
    &&& m2.current_view() is Some
    &&& entry_of(m2.current_view()->0, content, source)
    &&& m2.history_view() == keep_last(m1.history_view().push(m2.current_view()->0), m1.max_history() as nat)
    &&& m2.max_history() == m1.max_history()
    &&& m2.max_content_size() == m1.max_content_size()
}

/// The history of a clipboard never holds more entries than it keeps: every
/// operation keeps the manager well formed, and a well-formed manager's
/// history is within its limit.
pub proof fn lemma_history_bounded(m: ClipboardManager)
    requires
        m.wf(),
    ensures
        m.history_view().len() <= m.max_history(),
{
    assert(m.history_view().len() == m.history@.len());
}

impl Default for ClipboardManager {
    fn default() -> (r: ClipboardManager)
        ensures
            r.wf(),
            r.current_view() is None,
            r.history_view().len() == 0,
            r.max_history() == 50,
            r.max_content_size() == 10 * 1024 * 1024,
    {
        Self::new()
    }
}

} // verus!
