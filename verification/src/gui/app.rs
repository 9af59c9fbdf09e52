//! Devices as the GUI shows them, and its tabs.

use vstd::prelude::*;
use crate::discovery::discovery::DeviceInfo;
use crate::text::{decimal, decimal_string};

verus! {

broadcast use vstd::string::to_string_from_display_ensures_for_str;

/// A device as the GUI lists it.
#[derive(Debug, Clone)]
pub struct GuiDevice {
    pub id: String,
    pub name: String,
    pub device_type: String,
    pub ip: String,
    pub port: u16,
    pub online: bool,
    pub os_version: String,
    pub app_version: String,
}

impl vstd::std_specs::convert::FromSpecImpl<DeviceInfo> for GuiDevice {
    /// The conversion is described by the `ensures` of `from`.
    open spec fn obeys_from_spec() -> bool {
        false
    }

    /// A device as `from` makes it: the fields carried over, online, and
    /// its type by name (a `String` of that text).
    open spec fn from_spec(v: DeviceInfo) -> GuiDevice {
        choose|g: GuiDevice| {
            &&& g.id == v.id
            &&& g.name == v.name
            &&& g.device_type@ == v.device_type.txt_label()
            &&& g.ip == v.ip
            &&& g.port == v.port
            &&& g.online
            &&& g.os_version == v.os_version
            &&& g.app_version == v.app_version
        }
    }
}

impl From<DeviceInfo> for GuiDevice {
    /// A discovered device, online, its type by name.
    fn from(info: DeviceInfo) -> (r: GuiDevice)
        ensures
            r.id == info.id,
            r.name == info.name,
            r.device_type@ == info.device_type.txt_label(),
            r.ip == info.ip,
            r.port == info.port,
            r.online,
            r.os_version == info.os_version,
            r.app_version == info.app_version,
    {
        GuiDevice {
            id: info.id,
            name: info.name,
            device_type: info.device_type.txt_name().to_string(),
            ip: info.ip,
            port: info.port,
            online: true,
            os_version: info.os_version,
            app_version: info.app_version,
        }
    }
}

/// The GUI's tabs.
#[derive(Debug, Clone, Copy, PartialEq, Eq, Structural)]
pub enum Tab {
    Dashboard,
    Devices,
    Transfer,
    Clipboard,
    Mirror,
    Logs,
}

/// The Unicode upper-case form of a string, as `str::to_uppercase` gives it.
pub uninterp spec fn unicode_uppercase(s: Seq<char>) -> Seq<char>;

/// `str::to_uppercase`: the Unicode upper-case form of the string, a
/// function of the string alone.
#[verifier::external_body]
fn to_uppercase(s: &str) -> (r: String)
    ensures
        r@ == unicode_uppercase(s@),
{
    s.to_uppercase()
}

/// The text of a log line: the level in upper case in brackets, then the
/// message.
pub open spec fn log_text(level: Seq<char>, message: Seq<char>) -> Seq<char> {
    "["@ + unicode_uppercase(level) + "] "@ + message
}

/// How many of `n` lines a log of `limit` lines keeps.
pub open spec fn kept(n: int, limit: usize) -> int {
    if n <= limit {
        n
    } else {
        limit as int
    }
}

/// The GUI's log: lines of (time, text), newest first, at most a fixed
/// number of them.
pub struct GuiLog {
    entries: Vec<(String, String)>,
    max_logs: usize,
}

impl GuiLog {
    /// The lines, newest first, as characters.
    pub closed spec fn lines(&self) -> Seq<(Seq<char>, Seq<char>)> {
        self.entries@.map_values(|e: (String, String)| (e.0@, e.1@))
    }

    pub closed spec fn limit(&self) -> usize {
        self.max_logs
    }

    /// The log never holds more lines than it keeps.
    pub closed spec fn wf(&self) -> bool {
        self.entries@.len() <= self.max_logs
    }

    /// An empty log keeping at most `max_logs` lines.
    pub fn new(max_logs: usize) -> (r: GuiLog)
        ensures
            r.wf(),
            r.lines().len() == 0,
            r.limit() == max_logs,
    {
        GuiLog { entries: Vec::new(), max_logs }
    }

    /// Puts a line first; the oldest lines beyond the limit are dropped.
    pub fn push_front(&mut self, time: String, text: String)
        requires
            old(self).wf(),
        ensures
            final(self).wf(),
            final(self).limit() == old(self).limit(),
            final(self).lines() == seq![(time@, text@)].add(old(self).lines()).take(
                kept(old(self).lines().len() + 1int, old(self).limit()),
            ),
    {
        let ghost before = self.lines();
        let ghost line = (time@, text@);
        self.entries.insert(0, (time, text));
        assert(self.lines() =~= seq![line].add(before));
        assert(seq![line].add(before).take(self.entries@.len() as int) =~= seq![line].add(before));
        while self.entries.len() > self.max_logs
            invariant
                self.max_logs == old(self).max_logs,
                before == old(self).lines(),
                old(self).entries@.len() <= old(self).max_logs,
                self.entries@.len() <= before.len() + 1,
                self.entries@.len() == before.len() + 1 || self.entries@.len() >= self.max_logs,
                self.lines() =~= seq![line].add(before).take(self.entries@.len() as int),
            decreases self.entries@.len(),
        {
            let ghost n = self.entries@.len();
            self.entries.pop();
            assert(self.lines() =~= seq![line].add(before).take(n - 1));
        }
    }

    /// Logs a message: the level in upper case in brackets, then the
    /// message, at the given time.
    pub fn add_log(&mut self, time: String, level: &str, message: &str)
        requires
            old(self).wf(),
        ensures
            final(self).wf(),
            final(self).limit() == old(self).limit(),
            final(self).lines() == seq![(time@, log_text(level@, message@))].add(old(self).lines()).take(
                kept(old(self).lines().len() + 1int, old(self).limit()),
            ),
    {
        let mut text = "[".to_string();
        let upper = to_uppercase(level);
        text.append(upper.as_str());
        text.append("] ");
        text.append(message);
        self.push_front(time, text);
    }

    /// Copies of the lines, newest first.
    pub fn entries(&self) -> (r: Vec<(String, String)>)
        ensures
            r@.map_values(|e: (String, String)| (e.0@, e.1@)) == self.lines(),
    {
        let mut r: Vec<(String, String)> = Vec::new();
        let mut i: usize = 0;
        while i < self.entries.len()
            invariant
                i <= self.entries@.len(),
                r@.map_values(|e: (String, String)| (e.0@, e.1@)) =~= self.lines().take(i as int),
            decreases self.entries@.len() - i,
        {
            let (t, m) = &self.entries[i];
            let ghost before = r@;
            let t2 = t.clone();
            let m2 = m.clone();
            r.push((t2, m2));
            assert(r@ =~= before.push((t2, m2)));
            assert(r@.map_values(|e: (String, String)| (e.0@, e.1@)) =~= before.map_values(
                |e: (String, String)| (e.0@, e.1@),
            ).push((t@, m@)));
            assert(self.lines().take(i + 1) =~= self.lines().take(i as int).push(self.lines()[i as int]));
            i = i + 1;
        }
        assert(self.lines().take(self.entries@.len() as int) =~= self.lines());
        r
    }
}

/// The name the GUI shows itself by.
pub const APP_NAME: &'static str = "MMC Control Center";

/// How many log lines the GUI keeps.
pub const GUI_MAX_LOGS: usize = 100;

/// The messages the GUI logs when it starts, oldest first: its name and
/// version, the platform, the address of its HTTP server, whether mDNS
/// discovery is ready, and that the transfer and clipboard services are
/// initialized.
pub open spec fn startup_messages(
    version: Seq<char>,
    os: Seq<char>,
    arch: Seq<char>,
    server_port: u16,
    discovery_available: bool,
) -> Seq<Seq<char>> {
    seq![
        APP_NAME@ + " v"@ + version + " initialized"@,
        "Platform: "@ + os + " ("@ + arch + ")"@,
        "GUI server running on http://localhost:"@ + decimal(server_port as nat),
        if discovery_available {
            "Discovery service ready (mDNS)"@
        } else {
            "Discovery service unavailable"@
        },
        "Transfer service initialized"@,
        "Clipboard service initialized"@,
    ]
}

/// Pressing "Start Mirroring": with no paired device a warning asks to
/// pair first and mirroring stays off; otherwise mirroring starts. Gives
/// whether mirroring is on, and the level and message logged.
pub open spec fn start_mirroring_outcome(paired_count: int) -> (bool, Seq<char>, Seq<char>) {
    if paired_count == 0 {
        (false, "warn"@, "Please pair with a device first in Devices tab"@)
    } else {
        (true, "info"@, "Starting screen mirror session..."@)
    }
}

impl GuiLog {
    /// The log the GUI starts with, keeping `GUI_MAX_LOGS` lines: the
    /// startup messages, newest first, each at `time`.
    pub fn startup(
        time: String,
        version: &str,
        os: &str,
        arch: &str,
        server_port: u16,
        discovery_available: bool,
    ) -> (r: GuiLog)
        ensures
            r.wf(),
            r.limit() == GUI_MAX_LOGS,
            r.lines() == startup_messages(version@, os@, arch@, server_port, discovery_available).reverse().map_values(
                |m: Seq<char>| (time@, m),
            ),
    {
        let mut log = GuiLog::new(GUI_MAX_LOGS);
        let mut m0 = APP_NAME.to_string();
        m0.append(" v");
        m0.append(version);
        m0.append(" initialized");
        let mut m1 = "Platform: ".to_string();
        m1.append(os);
        m1.append(" (");
        m1.append(arch);
        m1.append(")");
        let mut m2 = "GUI server running on http://localhost:".to_string();
        let port_text = decimal_string(server_port as u64);
        m2.append(port_text.as_str());
        let m3 = if discovery_available {
            "Discovery service ready (mDNS)".to_string()
        } else {
            "Discovery service unavailable".to_string()
        };
        let m4 = "Transfer service initialized".to_string();
        let m5 = "Clipboard service initialized".to_string();
        let ghost msgs = startup_messages(version@, os@, arch@, server_port, discovery_available);
        assert(msgs[0] == m0@ && msgs[1] == m1@ && msgs[2] == m2@ && msgs[3] == m3@);
        assert(msgs[4] == m4@ && msgs[5] == m5@);
        log.push_front(time.clone(), m0);
        log.push_front(time.clone(), m1);
        log.push_front(time.clone(), m2);
        log.push_front(time.clone(), m3);
        log.push_front(time.clone(), m4);
        log.push_front(time.clone(), m5);
        assert(log.lines() =~= msgs.reverse().map_values(|m: Seq<char>| (time@, m)));
        log
    }

    /// Pressing "Clear": the log is emptied, then notes that it was cleared.
    pub fn clear_logs(&mut self, time: String)
        requires
            old(self).wf(),
        ensures
            final(self).wf(),
            final(self).limit() == old(self).limit(),
            final(self).lines() == seq![(time@, log_text("info"@, "Logs cleared"@))].take(kept(1, old(self).limit())),
    {
        self.entries.clear();
        assert(self.lines() =~= Seq::<(Seq<char>, Seq<char>)>::empty());
        self.add_log(time, "info", "Logs cleared");
        assert(seq![(time@, log_text("info"@, "Logs cleared"@))].add(Seq::<(Seq<char>, Seq<char>)>::empty()) =~= seq![
            (time@, log_text("info"@, "Logs cleared"@)),
        ]);
    }

    /// Pressing "Start Mirroring" with `paired_count` paired devices: see
    /// `start_mirroring_outcome`; the message is logged at `time` and
    /// whether mirroring is now on is returned.
    pub fn start_mirroring(&mut self, time: String, paired_count: usize) -> (r: bool)
        requires
            old(self).wf(),
        ensures
            final(self).wf(),
            final(self).limit() == old(self).limit(),
            r == start_mirroring_outcome(paired_count as int).0,
            final(self).lines() == seq![(
                time@,
                log_text(start_mirroring_outcome(paired_count as int).1, start_mirroring_outcome(paired_count as int).2),
            )].add(old(self).lines()).take(kept(old(self).lines().len() + 1int, old(self).limit())),
    {
        if paired_count == 0 {
            self.add_log(time, "warn", "Please pair with a device first in Devices tab");
            false
        } else {
            self.add_log(time, "info", "Starting screen mirror session...");
            true
        }
    }

    /// Pressing "Stop Mirroring": mirroring stops (`false` is returned) and
    /// that is logged at `time`.
    pub fn stop_mirroring(&mut self, time: String) -> (r: bool)
        requires
            old(self).wf(),
        ensures
            final(self).wf(),
            final(self).limit() == old(self).limit(),
            !r,
            final(self).lines() == seq![(time@, log_text("info"@, "Stopping screen mirror session..."@))].add(
                old(self).lines(),
            ).take(kept(old(self).lines().len() + 1int, old(self).limit())),
    {
        self.add_log(time, "info", "Stopping screen mirror session...");
        false
    }
}

/// The GUI's log keeps at most its limit of lines, whatever is logged.
pub proof fn lemma_log_bounded(log: GuiLog)
    requires
        log.wf(),
    ensures
        log.lines().len() <= log.limit(),
{
}

} // verus!
