//! The state of a connection to a device and its heartbeat timing. The
//! socket itself is held by the caller, which reports to the connection
//! what happened on it.

use vstd::prelude::*;
use crate::clock::{elapsed_nanos, instant_now};
use crate::protocol::{Frame, FrameType};

verus! {

broadcast use vstd::string::to_string_from_display_ensures_for_str;

/// Connection state.
#[derive(Debug, Clone, Copy, PartialEq, Eq, Structural)]
pub enum ConnectionState {
    Disconnected,
    Connecting,
    Connected,
    Handshaking,
    Ready,
    Failed,
}

/// Network events.
#[derive(Debug, Clone)]
pub enum NetworkEvent {
    ConnectionEstablished(String),
    ConnectionLost(String),
    HeartbeatTimeout(String),
    MessageReceived(String, Frame),
}

/// Seconds between heartbeats.
pub const HEARTBEAT_INTERVAL_SECS: u64 = 5;

/// Seconds without a heartbeat after which a peer is taken as gone.
pub const HEARTBEAT_TIMEOUT_SECS: u64 = 15;

/// A connection to a device: its state and heartbeat times.
pub struct NetworkConnection {
    device_id: String,
    state: ConnectionState,
    last_heartbeat_sent: std::time::Instant,
    last_heartbeat_received: std::time::Instant,
    heartbeat_interval_secs: u64,
    heartbeat_timeout_secs: u64,
}

/// Whether a heartbeat last received `elapsed` nanoseconds ago is overdue
/// under a timeout of `timeout_secs` seconds.
pub open spec fn timed_out_by(elapsed: u128, timeout_secs: u64) -> bool {
    elapsed > timeout_secs * 1_000_000_000
}

impl NetworkConnection {
    /// The device connected to.
    pub closed spec fn device(&self) -> Seq<char> {
        self.device_id@
    }

    /// The connection state.
    pub closed spec fn state_view(&self) -> ConnectionState {
        self.state
    }

    /// The heartbeat timeout, in seconds.
    pub closed spec fn timeout_secs(&self) -> u64 {
        self.heartbeat_timeout_secs
    }

    /// The time between heartbeats, in seconds.
    pub closed spec fn interval_secs(&self) -> u64 {
        self.heartbeat_interval_secs
    }

    /// When the last heartbeat was sent and received.
    pub closed spec fn heartbeat_times(&self) -> (std::time::Instant, std::time::Instant) {
        (self.last_heartbeat_sent, self.last_heartbeat_received)
    }

    /// A disconnected connection to a device, with heartbeats every 5 s and
    /// a 15 s timeout, its heartbeat times set to now.
    pub fn new(device_id: &str) -> (r: NetworkConnection)
        ensures
            r.device() == device_id@,
            r.state_view() == ConnectionState::Disconnected,
            r.timeout_secs() == HEARTBEAT_TIMEOUT_SECS,
            r.interval_secs() == HEARTBEAT_INTERVAL_SECS,
    {
        NetworkConnection {
            device_id: device_id.to_string(),
            state: ConnectionState::Disconnected,
            last_heartbeat_sent: instant_now(),
            last_heartbeat_received: instant_now(),
            heartbeat_interval_secs: HEARTBEAT_INTERVAL_SECS,
            heartbeat_timeout_secs: HEARTBEAT_TIMEOUT_SECS,
        }
    }

    /// The device connected to.
    pub fn device_id(&self) -> (r: &str)
        ensures
            r@ == self.device(),
    {
        self.device_id.as_str()
    }

    /// The time between heartbeats, in seconds.
    pub fn heartbeat_interval_secs(&self) -> (r: u64)
        ensures
            r == self.interval_secs(),
    {
        self.heartbeat_interval_secs
    }

    /// The heartbeat timeout, in seconds.
    pub fn heartbeat_timeout_secs(&self) -> (r: u64)
        ensures
            r == self.timeout_secs(),
    {
        self.heartbeat_timeout_secs
    }

    /// The connection state.
    pub fn state(&self) -> (r: ConnectionState)
        ensures
            r == self.state_view(),
    {
        self.state
    }

    /// Whether a heartbeat last received `elapsed_nanos` ago is overdue: it
    /// is when more than the timeout has passed.
    pub fn timed_out(elapsed_nanos: u128, timeout_secs: u64) -> (r: bool)
        ensures
            r == (elapsed_nanos > timeout_secs * 1_000_000_000),
            r == timed_out_by(elapsed_nanos, timeout_secs),
    {
        elapsed_nanos > (timeout_secs as u128) * 1_000_000_000
    }

    /// Whether the last heartbeat was received more than the timeout ago,
    /// by the clock read now: `timed_out_by` of the time elapsed, a clock
    /// reading of which nothing more is known, against this connection's
    /// timeout.
    pub fn is_heartbeat_timeout(&self) -> (r: bool)
        ensures
            exists|elapsed: u128| #[trigger] timed_out_by(elapsed, self.timeout_secs()) == r,
    {
        let e = elapsed_nanos(&self.last_heartbeat_received);
        let r = Self::timed_out(e, self.heartbeat_timeout_secs);
        assert(timed_out_by(e, self.timeout_secs()) == r);
        r
    }

    /// A connection attempt starts.
    pub fn begin_connect(&mut self)
        ensures
            final(self).state_view() == ConnectionState::Connecting,
            final(self).device() == old(self).device(),
            final(self).timeout_secs() == old(self).timeout_secs(),
            final(self).interval_secs() == old(self).interval_secs(),
            final(self).heartbeat_times() == old(self).heartbeat_times(),
    {
        self.state = ConnectionState::Connecting;
    }

    /// The connection is up: both heartbeat times restart now.
    pub fn connected(&mut self)
        ensures
            final(self).state_view() == ConnectionState::Connected,
            final(self).device() == old(self).device(),
            final(self).timeout_secs() == old(self).timeout_secs(),
            final(self).interval_secs() == old(self).interval_secs(),
    {
        self.state = ConnectionState::Connected;
        self.last_heartbeat_sent = instant_now();
        self.last_heartbeat_received = instant_now();
    }

    /// A heartbeat was sent at the instant `now`: that becomes the time of
    /// the last heartbeat sent.
    pub fn heartbeat_sent_at(&mut self, now: std::time::Instant)
        ensures
            final(self).state_view() == old(self).state_view(),
            final(self).device() == old(self).device(),
            final(self).timeout_secs() == old(self).timeout_secs(),
            final(self).interval_secs() == old(self).interval_secs(),
            final(self).heartbeat_times() == (now, old(self).heartbeat_times().1),
    {
        self.last_heartbeat_sent = now;
    }

    /// A heartbeat was sent now (`heartbeat_sent_at` of the clock read now,
    /// a reading of which nothing is known).
    pub fn heartbeat_sent(&mut self)
        ensures
            final(self).state_view() == old(self).state_view(),
            final(self).device() == old(self).device(),
            final(self).timeout_secs() == old(self).timeout_secs(),
            final(self).interval_secs() == old(self).interval_secs(),
            final(self).heartbeat_times().1 == old(self).heartbeat_times().1,
    {
        let now = instant_now();
        self.heartbeat_sent_at(now);
    }

    /// A frame was received at the instant `now`: a heartbeat makes `now`
    /// the time of the last heartbeat received; other frames change nothing.
    pub fn frame_received_at(&mut self, frame_type: FrameType, now: std::time::Instant)
        ensures
            final(self).state_view() == old(self).state_view(),
            final(self).device() == old(self).device(),
            final(self).timeout_secs() == old(self).timeout_secs(),
            final(self).interval_secs() == old(self).interval_secs(),
            final(self).heartbeat_times() == if frame_type == FrameType::Heartbeat {
                (old(self).heartbeat_times().0, now)
            } else {
                old(self).heartbeat_times()
            },
    {
        if frame_type == FrameType::Heartbeat {
            self.last_heartbeat_received = now;
        }
    }

    /// A frame was received now (`frame_received_at` of the clock read now,
    /// a reading of which nothing is known): a heartbeat restarts the
    /// timeout; other frames change nothing.
    pub fn frame_received(&mut self, frame_type: FrameType)
        ensures
            final(self).state_view() == old(self).state_view(),
            final(self).device() == old(self).device(),
            final(self).timeout_secs() == old(self).timeout_secs(),
            final(self).interval_secs() == old(self).interval_secs(),
            final(self).heartbeat_times().0 == old(self).heartbeat_times().0,
            frame_type != FrameType::Heartbeat ==> final(self).heartbeat_times() == old(self).heartbeat_times(),
    {
        let now = instant_now();
        self.frame_received_at(frame_type, now);
    }

    /// The connection is closed.
    pub fn close(&mut self)
        ensures
            final(self).state_view() == ConnectionState::Disconnected,
            final(self).device() == old(self).device(),
            final(self).timeout_secs() == old(self).timeout_secs(),
            final(self).interval_secs() == old(self).interval_secs(),
            final(self).heartbeat_times() == old(self).heartbeat_times(),
    {
        self.state = ConnectionState::Disconnected;
    }
}

} // verus!
