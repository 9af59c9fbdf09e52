//! Keeping the desktop's system clipboard and the clipboard manager in
//! step. The system clipboard itself is read and written by the caller; the
//! monitor decides what moves where.

use vstd::prelude::*;
use crate::bytes_util::str_eq;
use crate::clipboard::manager::{stored, ClipboardManager, ClipboardSource};
use crate::clock::utc_timestamp_millis;
use crate::desktop::error::DesktopError;
use crate::protocol::{clipboard_bytes, ClipboardContent, ClipboardContentView, ClipboardData, ClipboardDataView};

verus! {

/// The text last seen on or written to the system clipboard (empty when
/// there was none).
pub open spec fn last_text(last: Option<Seq<char>>) -> Seq<char> {
    match last {
        Some(t) => t,
        None => Seq::empty(),
    }
}

/// The text to write to the system clipboard for the manager's current
/// data: text that differs from the last text, and any URL; nothing for an
/// image or an empty clipboard.
pub open spec fn text_for_system(current: Option<ClipboardDataView>, last: Option<Seq<char>>) -> Option<Seq<char>> {
    match current {
        Some(ClipboardDataView::Text(t)) => if t != last_text(last) {
            Some(t)
        } else {
            None
        },
        Some(ClipboardDataView::Url(u)) => Some(u),
        _ => None,
    }
}

/// Optional text, taken as characters.
pub open spec fn opt_view(s: Option<String>) -> Option<Seq<char>> {
    match s {
        Some(t) => Some(t@),
        None => None,
    }
}

/// The new text a read of the system clipboard brings: while running, text
/// other than the last text.
pub open spec fn new_text(running: bool, read: Option<Seq<char>>, last: Option<Seq<char>>) -> Option<Seq<char>> {
    match read {
        Some(t) => if running && t != last_text(last) {
            Some(t)
        } else {
            None
        },
        None => None,
    }
}

/// Watches the system clipboard for new text and hands it to the manager.
pub struct PcClipboardMonitor {
    manager: ClipboardManager,
    last_content: Option<String>,
    running: bool,
}

impl PcClipboardMonitor {
    pub closed spec fn manager_view(&self) -> ClipboardManager {
        self.manager
    }

    /// The text last seen on or written to the system clipboard.
    pub closed spec fn last_view(&self) -> Option<Seq<char>> {
        match self.last_content {
            Some(t) => Some(t@),
            None => None,
        }
    }

    pub closed spec fn spec_running(&self) -> bool {
        self.running
    }

    pub closed spec fn wf(&self) -> bool {
        self.manager.wf()
    }

    /// A stopped monitor over a manager, with no text seen yet.
    pub fn new(manager: ClipboardManager) -> (r: Result<PcClipboardMonitor, DesktopError>)
        requires
            manager.wf(),
        ensures
            r matches Ok(m) && m.wf() && m.manager_view() == manager && m.last_view() is None
                && !m.spec_running(),
    {
        Ok(PcClipboardMonitor { manager, last_content: None, running: false })
    }

    pub fn start(&mut self) -> (r: Result<(), DesktopError>)
        ensures
            r is Ok,
            final(self).spec_running(),
            final(self).manager_view() == old(self).manager_view(),
            final(self).last_view() == old(self).last_view(),
            old(self).wf() ==> final(self).wf(),
    {
        self.running = true;
        Ok(())
    }

    pub fn stop(&mut self) -> (r: Result<(), DesktopError>)
        ensures
            r is Ok,
            !final(self).spec_running(),
            final(self).manager_view() == old(self).manager_view(),
            final(self).last_view() == old(self).last_view(),
            old(self).wf() ==> final(self).wf(),
    {
        self.running = false;
        Ok(())
    }

    pub fn is_running(&self) -> (r: bool)
        ensures
            r == self.spec_running(),
    {
        self.running
    }

    /// The text last seen on or written to the system clipboard.
    pub fn last_content(&self) -> (r: Option<&String>)
        ensures
            r matches Some(t) ==> self.last_view() == Some(t@),
            r is None <==> self.last_view() is None,
    {
        self.last_content.as_ref()
    }

    /// The clipboard manager.
    pub fn manager(&self) -> (r: &ClipboardManager)
        ensures
            *r == self.manager_view(),
    {
        &self.manager
    }

    /// Records text just written to the system clipboard.
    pub fn set_system_clipboard(&mut self, text: &str) -> (r: Result<(), DesktopError>)
        ensures
            r is Ok,
            final(self).last_view() == Some(text@),
            final(self).manager_view() == old(self).manager_view(),
            final(self).spec_running() == old(self).spec_running(),
            old(self).wf() ==> final(self).wf(),
    {
        self.last_content = Some(text.to_string());
        Ok(())
    }

    /// Takes in the text read from the system clipboard. While running, new
    /// text (text other than the last) becomes the last text and is set on
    /// the manager as local content stamped with the time now, and returned;
    /// otherwise nothing changes. Text over the manager's size limit is
    /// refused by the manager (it still counts as seen).
    pub fn check_and_sync(&mut self, system_text: Option<String>) -> (r: Result<Option<ClipboardContent>, DesktopError>)
        requires
            old(self).wf(),
        ensures
            final(self).wf(),
            final(self).spec_running() == old(self).spec_running(),
            match new_text(old(self).spec_running(), opt_view(system_text), old(self).last_view()) {
                None => r matches Ok(None) && *final(self) == *old(self),
                Some(t) => {
                    &&& final(self).last_view() == Some(t)
                    &&& (r is Err <==> clipboard_bytes(ClipboardDataView::Text(t)).len()
                        > old(self).manager_view().max_content_size())
                    &&& (r is Err ==> (r matches Err(DesktopError::Clipboard(_))) && final(self).manager_view()
                        == old(self).manager_view())
                    &&& (r matches Ok(Some(c)) ==> c@.data == ClipboardDataView::Text(t) && stored(
                        old(self).manager_view(),
                        final(self).manager_view(),
                        c@,
                        ClipboardSource::Local,
                    ))
                    &&& !(r matches Ok(None))
                },
            },
    {
        if !self.running {
            return Ok(None);
        }
        match system_text {
            Some(text) => {
                let same = match &self.last_content {
                    Some(last) => str_eq(text.as_str(), last.as_str()),
                    None => {
                        assert(text@.len() == 0 ==> text@ =~= Seq::<char>::empty());
                        text.as_str().unicode_len() == 0
                    },
                };
                if same {
                    return Ok(None);
                }
                self.last_content = Some(text.as_str().to_string());
                let now = utc_timestamp_millis();
                let content = ClipboardContent { timestamp_ms: now as u64, content: ClipboardData::Text { text } };
                match self.manager.set_local(content.duplicate()) {
                    Ok(()) => Ok(Some(content)),
                    Err(e) => Err(DesktopError::from(e)),
                }
            },
            None => Ok(None),
        }
    }

    /// The text to write to the system clipboard for the manager's current
    /// content (see `text_for_system`); the caller writes it and then
    /// records it with `set_system_clipboard`.
    pub fn sync_to_system(&self) -> (r: Result<Option<String>, DesktopError>)
        ensures
            r matches Ok(o) && match text_for_system(
                match self.manager_view().current_view() {
                    Some(e) => Some(e.content.data),
                    None => None,
                },
                self.last_view(),
            ) {
                Some(t) => o matches Some(s) && s@ == t,
                None => o is None,
            },
    {
        match self.manager.get_current() {
            Some(entry) => match &entry.content.content {
                ClipboardData::Text { text } => {
                    let differs = match &self.last_content {
                        Some(last) => !str_eq(text.as_str(), last.as_str()),
                        None => {
                            assert(text@.len() == 0 ==> text@ =~= Seq::<char>::empty());
                            text.as_str().unicode_len() != 0
                        },
                    };
                    if differs {
                        Ok(Some(text.as_str().to_string()))
                    } else {
                        Ok(None)
                    }
                },
                ClipboardData::Url { url } => Ok(Some(url.as_str().to_string())),
                ClipboardData::Image { .. } => Ok(None),
            },
            None => Ok(None),
        }
    }
}

} // verus!
