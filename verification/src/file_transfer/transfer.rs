//! Transfer state and progress, chunk manifests, the task table, and the
//! decisions of the sending and receiving sides.

use vstd::prelude::*;
use crate::bytes_util::copy_range;
use crate::keyed::{by_key, find_key, lemma_by_key_empty, lemma_by_key_replace, unique_keys, upsert, Keyed};
use crate::file_transfer::error::Error;
use crate::protocol::{Frame, FrameType};
use crate::channels::EventChannel;
use crate::clock::{instant_now, utc_timestamp_secs};
use crate::security::crypto::{blake3_hash, hasher_finalize, hasher_input, hasher_new, hasher_update, Crypto};

verus! {

broadcast use vstd::string::to_string_from_display_ensures_for_str;

/// Whether a character is a lower-case hexadecimal digit.
pub open spec fn is_lower_hex(c: char) -> bool {
    ('0' <= c && c <= '9') || ('a' <= c && c <= 'f')
}

/// Whether a text is a version-4 UUID in hyphenated lower-case form: 36
/// characters, hyphens at 8, 13, 18 and 23, the version digit `4` at 14,
/// and lower-case hexadecimal digits everywhere else.
pub open spec fn is_uuid_v4_text(s: Seq<char>) -> bool {
    &&& s.len() == 36
    &&& s[8] == '-' && s[13] == '-' && s[18] == '-' && s[23] == '-'
    &&& s[14] == '4'
    &&& forall|i: int| 0 <= i < 36 && i != 8 && i != 13 && i != 18 && i != 23 ==> is_lower_hex(#[trigger] s[i])
}

/// `uuid::Uuid::new_v4`, as text: a random identifier of version 4
/// (`get_version` is `Version::Random`), written as `Uuid`'s `Display` does,
/// in the hyphenated lower-case form of 36 ASCII characters. Which random
/// digits it holds is not promised.
#[verifier::external_body]
pub(crate) fn new_uuid_v4() -> (r: String)
    ensures
        is_uuid_v4_text(r@),
        vstd::utf8::is_ascii_chars(r@),
{
    uuid::Uuid::new_v4().to_string()
}

/// `std::time::Instant::elapsed`, in whole milliseconds (truncated to 64
/// bits): the time since the instant. Nothing is promised of it.
#[verifier::external_body]
fn elapsed_ms(start: &std::time::Instant) -> u64 {
    start.elapsed().as_millis() as u64
}

/// Transfer state.
#[derive(Debug, Clone, Copy, PartialEq, Eq, Structural)]
pub enum TransferState {
    Idle,
    Preparing,
    Transferring,
    Paused,
    Completed,
    Failed,
    Canceled,
}

impl Default for TransferState {
    fn default() -> (r: TransferState)
        ensures
            r == TransferState::Idle,
    {
        TransferState::Idle
    }
}

/// Transfer progress.
#[derive(Debug, Clone)]
pub struct TransferProgress {
    pub task_id: String,
    pub bytes_transferred: u64,
    pub total_bytes: u64,
    pub speed_bps: u64,
    pub remaining_ms: u64,
    pub state: TransferState,
}

/// `update` of a progress with these numbers stays within 64 bits.
pub open spec fn update_fits(total_bytes: u64, bytes: u64, elapsed_ms: u64) -> bool {
    elapsed_ms > 0 ==> {
        &&& bytes * 1000 <= u64::MAX
        &&& (bytes * 1000 / (elapsed_ms as int) > 0 && total_bytes > bytes) ==> (total_bytes - bytes) * 1000 <= u64::MAX
    }
}

/// `p2` is `p1` after `update(bytes, elapsed_ms)`: the bytes are recorded
/// and the state is Transferring; with time elapsed, the speed is bytes per
/// second, and with a speed, the remaining time is what is left (none when
/// all is done) at that speed.
pub open spec fn updated(p1: TransferProgress, p2: TransferProgress, bytes: u64, elapsed_ms: u64) -> bool {
    let speed = bytes * 1000 / (elapsed_ms as int);
    let left = if p1.total_bytes > bytes { p1.total_bytes - bytes } else { 0 };
    &&& p2.task_id == p1.task_id
    &&& p2.total_bytes == p1.total_bytes
    &&& p2.bytes_transferred == bytes
    &&& p2.state == TransferState::Transferring
    &&& p2.speed_bps == if elapsed_ms > 0 { speed } else { p1.speed_bps as int }
    &&& p2.remaining_ms == if elapsed_ms > 0 && speed > 0 { left * 1000 / speed } else { p1.remaining_ms as int }
}

impl TransferProgress {
    pub fn new(task_id: String, total_bytes: u64) -> (r: TransferProgress)
        ensures
            r.task_id == task_id,
            r.bytes_transferred == 0,
            r.total_bytes == total_bytes,
            r.speed_bps == 0,
            r.remaining_ms == 0,
            r.state == TransferState::Idle,
    {
        TransferProgress {
            task_id,
            bytes_transferred: 0,
            total_bytes,
            speed_bps: 0,
            remaining_ms: 0,
            state: TransferState::Idle,
        }
    }

    /// Records that `bytes` have been transferred in `elapsed_ms`.
    pub fn update(&mut self, bytes: u64, elapsed_ms: u64)
        requires
            update_fits(old(self).total_bytes, bytes, elapsed_ms),
        ensures
            updated(*old(self), *final(self), bytes, elapsed_ms),
    {
        self.bytes_transferred = bytes;
        self.state = TransferState::Transferring;
        if elapsed_ms > 0 {
            self.speed_bps = (bytes * 1000) / elapsed_ms;
            let remaining = self.total_bytes.saturating_sub(bytes);
            if self.speed_bps > 0 {
                assert(remaining * 1000 <= u64::MAX);
                self.remaining_ms = (remaining * 1000) / self.speed_bps;
            }
        }
    }

    /// Marks the transfer done: everything transferred, nothing left.
    pub fn complete(&mut self)
        ensures
            final(self).task_id == old(self).task_id,
            final(self).total_bytes == old(self).total_bytes,
            final(self).bytes_transferred == old(self).total_bytes,
            final(self).state == TransferState::Completed,
            final(self).speed_bps == 0,
            final(self).remaining_ms == 0,
    {
        self.bytes_transferred = self.total_bytes;
        self.state = TransferState::Completed;
        self.speed_bps = 0;
        self.remaining_ms = 0;
    }

    /// Marks the transfer failed; the figures are kept.
    pub fn fail(&mut self)
        ensures
            *final(self) == (TransferProgress { state: TransferState::Failed, ..*old(self) }),
    {
        self.state = TransferState::Failed;
    }

    /// A copy of the progress.
    pub fn duplicate(&self) -> (r: TransferProgress)
        ensures
            r == *self,
    {
        TransferProgress {
            task_id: self.task_id.clone(),
            bytes_transferred: self.bytes_transferred,
            total_bytes: self.total_bytes,
            speed_bps: self.speed_bps,
            remaining_ms: self.remaining_ms,
            state: self.state,
        }
    }
}

/// A file transfer task.
#[derive(Debug, Clone)]
pub struct TransferTask {
    pub task_id: String,
    pub file_id: String,
    pub file_name: String,
    pub total_size: u64,
    pub chunk_size: u32,
    pub total_chunks: u32,
    pub state: TransferState,
    pub progress: TransferProgress,
    pub created_at: i64,
}

impl TransferTask {
    /// A copy of the task.
    pub fn duplicate(&self) -> (r: TransferTask)
        ensures
            r == *self,
    {
        TransferTask {
            task_id: self.task_id.clone(),
            file_id: self.file_id.clone(),
            file_name: self.file_name.clone(),
            total_size: self.total_size,
            chunk_size: self.chunk_size,
            total_chunks: self.total_chunks,
            state: self.state,
            progress: self.progress.duplicate(),
            created_at: self.created_at,
        }
    }
}

/// Manifest of a file's chunks with their BLAKE3 hashes.
#[derive(Debug, Clone)]
pub struct ChunkManifest {
    pub file_id: String,
    pub file_name: String,
    pub total_size: u64,
    pub chunk_size: u32,
    pub total_chunks: u32,
    pub chunks: Vec<ChunkInfo>,
}

/// Info about a single chunk.
#[derive(Debug, Clone)]
pub struct ChunkInfo {
    pub index: u32,
    pub hash: [u8; 32],
    pub size: u32,
}

/// How many chunks of `chunk_size` bytes hold `len` bytes.
pub open spec fn chunk_count(len: nat, chunk_size: nat) -> nat
    recommends
        chunk_size > 0,
{
    ((len + chunk_size - 1) / chunk_size as int) as nat
}

/// The bytes of chunk `i`: `chunk_size` bytes from `i * chunk_size`, or
/// what is left of the data.
pub open spec fn chunk_bytes(data: Seq<u8>, chunk_size: nat, i: nat) -> Seq<u8> {
    let start = i * chunk_size;
    let end: int = if data.len() < start + chunk_size { data.len() as int } else { (start + chunk_size) as int };
    data.subrange(start as int, end)
}

/// `m` is the manifest of `data` cut in chunks of `chunk_size` bytes: one
/// entry per chunk, in order, with its index, size and hash.
pub open spec fn manifest_of(m: ChunkManifest, data: Seq<u8>, chunk_size: u32) -> bool {
    &&& m.total_size == data.len()
    &&& m.chunk_size == chunk_size
    &&& m.total_chunks == chunk_count(data.len(), chunk_size as nat)
    &&& m.chunks@.len() == chunk_count(data.len(), chunk_size as nat)
    &&& forall|i: int| 0 <= i < m.chunks@.len() ==> {
        &&& #[trigger] m.chunks@[i].index == i
        &&& m.chunks@[i].size == chunk_bytes(data, chunk_size as nat, i as nat).len()
        &&& m.chunks@[i].hash@ == blake3_hash(chunk_bytes(data, chunk_size as nat, i as nat))
    }
}

/// `k` chunks of `cs` bytes cover exactly `len` bytes: the count is the
/// rounded-up quotient.
proof fn lemma_chunk_count(len: int, cs: int, k: int)
    requires
        cs > 0,
        k >= 0,
        len >= 0,
        k * cs >= len,
        k > 0 ==> (k - 1) * cs < len,
    ensures
        (len + cs - 1) / cs == k,
{
    if k == 0 {
        assert(len == 0);
        assert((cs - 1) / cs == 0) by (nonlinear_arith)
            requires
                cs > 0,
        ;
    } else {
        assert((len + cs - 1) / cs == k) by (nonlinear_arith)
            requires
                cs > 0,
                k > 0,
                k * cs >= len,
                (k - 1) * cs < len,
        ;
    }
}

/// A chunk that starts within the data is counted.
proof fn lemma_chunk_index_bound(len: int, cs: int, k: int)
    requires
        cs > 0,
        k >= 0,
        k * cs < len,
    ensures
        (len + cs - 1) / cs >= k + 1,
{
    assert((len + cs - 1) / cs >= k + 1) by (nonlinear_arith)
        requires
            cs > 0,
            k >= 0,
            k * cs < len,
    ;
}

/// The first `n` chunks of `data`, one after another.
pub open spec fn joined_chunks(data: Seq<u8>, chunk_size: nat, n: nat) -> Seq<u8>
    decreases n,
{
    if n == 0 {
        Seq::empty()
    } else {
        joined_chunks(data, chunk_size, (n - 1) as nat) + chunk_bytes(data, chunk_size, (n - 1) as nat)
    }
}

/// The first `n` chunks, while the last of them starts within the data,
/// are the data up to the end of that chunk.
proof fn lemma_joined_prefix(data: Seq<u8>, cs: nat, n: nat)
    requires
        cs > 0,
        n == 0 || (n - 1) * cs < data.len(),
    ensures
        joined_chunks(data, cs, n) == data.subrange(0, if n * cs < data.len() { (n * cs) as int } else { data.len() as int }),
    decreases n,
{
    if n == 0 {
        assert(data.subrange(0, 0) =~= Seq::<u8>::empty());
    } else {
        let m = (n - 1) as nat;
        assert(m * cs + cs == n * cs) by (nonlinear_arith)
            requires
                m == n - 1,
        ;
        if m > 0 {
            assert((m - 1) * cs < m * cs) by (nonlinear_arith)
                requires
                    m > 0,
                    cs > 0,
            ;
        }
        lemma_joined_prefix(data, cs, m);
        let end: int = if n * cs < data.len() { (n * cs) as int } else { data.len() as int };
        assert(data.subrange(0, (m * cs) as int) + data.subrange((m * cs) as int, end) =~= data.subrange(0, end));
    }
}

/// A file cut into chunks comes back whole when its chunks are joined in
/// order: the manifest's chunks, one after another, are the data.
pub proof fn lemma_chunks_rejoin(data: Seq<u8>, chunk_size: nat)
    requires
        chunk_size > 0,
    ensures
        joined_chunks(data, chunk_size, chunk_count(data.len(), chunk_size)) == data,
{
    let len = data.len();
    let k = chunk_count(len, chunk_size);
    if len == 0 {
        assert(k == 0) by (nonlinear_arith)
            requires
                k == ((len + chunk_size - 1) / chunk_size as int) as nat,
                len == 0,
                chunk_size > 0,
        ;
    } else {
        assert(k >= 1 && (k - 1) * chunk_size < len && k * chunk_size >= len) by (nonlinear_arith)
            requires
                k == ((len + chunk_size - 1) / chunk_size as int) as nat,
                len > 0,
                chunk_size > 0,
        ;
        lemma_joined_prefix(data, chunk_size, k);
        assert(data.subrange(0, len as int) =~= data);
    }
}

/// The outcome of a frame received during a transfer: `true` when it ends
/// the transfer, `false` for a chunk of data, an error for anything else.
pub open spec fn incoming_outcome(t: FrameType) -> Option<bool> {
    if t == FrameType::TransferComplete {
        Some(true)
    } else if t == FrameType::ChunkData {
        Some(false)
    } else {
        None
    }
}

impl Keyed for TransferTask {
    open spec fn key(&self) -> Seq<char> {
        self.task_id@
    }

    fn key_str(&self) -> (r: &str) {
        self.task_id.as_str()
    }
}

/// The transfer service: the table of tasks and the channel their progress
/// is published on.
pub struct TransferService {
    tasks: Vec<TransferTask>,
    events: EventChannel<TransferProgress>,
}

/// The step from `before` to `after` published the task's new progress
/// when the task is known, and nothing otherwise.
pub open spec fn publishes(before: TransferService, after: TransferService, task_id: Seq<char>) -> bool {
    if before.tasks().contains_key(task_id) {
        after.published() == before.published().push(after.tasks()[task_id].progress)
    } else {
        after.published() == before.published()
    }
}

impl TransferService {
    /// The tasks by ID.
    pub closed spec fn tasks(&self) -> Map<Seq<char>, TransferTask> {
        by_key(self.tasks@)
    }

    /// At most one task per ID.
    pub closed spec fn wf(&self) -> bool {
        unique_keys(self.tasks@)
    }

    /// The progress published so far, oldest first.
    pub closed spec fn published(&self) -> Seq<TransferProgress> {
        self.events.sent()
    }

    /// A service with no tasks, publishing on a channel of 100 places.
    pub fn new() -> (r: TransferService)
        ensures
            r.wf(),
            r.tasks() == Map::<Seq<char>, TransferTask>::empty(),
            r.published() == Seq::<TransferProgress>::empty(),
    {
        let r = TransferService { tasks: Vec::new(), events: EventChannel::new(100) };
        proof {
            lemma_by_key_empty(r.tasks@);
        }
        r
    }

    /// The manifest of a file's content: chunks of `chunk_size` bytes, each
    /// with its index, size and BLAKE3 hash, under a fresh random file ID.
    pub fn compute_manifest(&self, data: &[u8], file_name: String, chunk_size: u32) -> (r: Result<ChunkManifest, Error>)
        requires
            chunk_size > 0,
            data@.len() + chunk_size <= u64::MAX,
            chunk_count(data@.len(), chunk_size as nat) <= u32::MAX,
        ensures
            r matches Ok(m) && manifest_of(m, data@, chunk_size) && m.file_name == file_name,
    {
        let total_size = data.len() as u64;
        let cs = chunk_size as usize;
        let total_chunks = ((total_size + chunk_size as u64 - 1) / chunk_size as u64) as u32;
        let mut chunks: Vec<ChunkInfo> = Vec::new();
        let mut offset: usize = 0;
        let mut chunk_index: u32 = 0;
        while offset < data.len()
            invariant
                cs == chunk_size as usize,
                chunk_size > 0,
                offset <= data@.len(),
                offset == chunk_index * chunk_size || (offset == data@.len() && chunk_index * chunk_size >= data@.len()),
                chunks@.len() == chunk_index,
                chunk_index > 0 ==> (chunk_index - 1) * chunk_size < data@.len(),
                chunk_count(data@.len(), chunk_size as nat) <= u32::MAX,
                data@.len() + chunk_size <= u64::MAX,
                forall|i: int| 0 <= i < chunks@.len() ==> {
                    &&& #[trigger] chunks@[i].index == i
                    &&& chunks@[i].size == chunk_bytes(data@, chunk_size as nat, i as nat).len()
                    &&& chunks@[i].hash@ == blake3_hash(chunk_bytes(data@, chunk_size as nat, i as nat))
                },
            decreases data@.len() - offset,
        {
            let end = if data.len() - offset < cs { data.len() } else { offset + cs };
            let piece = copy_range(data, offset, end);
            assert(piece@ == chunk_bytes(data@, chunk_size as nat, chunk_index as nat));
            let hash = Crypto::blake3(piece.as_slice());
            proof {
                assert((chunk_index + 1) * chunk_size == chunk_index * chunk_size + chunk_size) by (nonlinear_arith);
                lemma_chunk_index_bound(data@.len() as int, chunk_size as int, chunk_index as int);
            }
            chunks.push(ChunkInfo { index: chunk_index, hash, size: (end - offset) as u32 });
            chunk_index = chunk_index + 1;
            offset = end;
        }
        proof {
            lemma_chunk_count(data@.len() as int, chunk_size as int, chunk_index as int);
        }
        let file_id = new_uuid_v4();
        Ok(ChunkManifest { file_id, file_name, total_size, chunk_size, total_chunks, chunks })
    }

    /// Enters a task for the manifest in the given state, with fresh progress,
    /// in place of any task with the same ID.
    pub fn register_task(&mut self, task_id: &str, manifest: &ChunkManifest, state: TransferState)
        requires
            old(self).wf(),
        ensures
            final(self).wf(),
            final(self).tasks() == old(self).tasks().insert(task_id@, final(self).tasks()[task_id@]),
            ({
                let t = final(self).tasks()[task_id@];
                &&& t.task_id@ == task_id@
                &&& t.file_id == manifest.file_id
                &&& t.file_name == manifest.file_name
                &&& t.total_size == manifest.total_size
                &&& t.chunk_size == manifest.chunk_size
                &&& t.total_chunks == manifest.total_chunks
                &&& t.state == state
                &&& t.progress.task_id@ == task_id@
                &&& t.progress.total_bytes == manifest.total_size
                &&& t.progress.bytes_transferred == 0
                &&& t.progress.speed_bps == 0
                &&& t.progress.remaining_ms == 0
                &&& t.progress.state == TransferState::Idle
            }),
            final(self).published() == old(self).published(),
    {
        let task = TransferTask {
            task_id: task_id.to_string(),
            file_id: manifest.file_id.clone(),
            file_name: manifest.file_name.clone(),
            total_size: manifest.total_size,
            chunk_size: manifest.chunk_size,
            total_chunks: manifest.total_chunks,
            state,
            progress: TransferProgress::new(task_id.to_string(), manifest.total_size),
            created_at: utc_timestamp_secs(),
        };
        upsert(&mut self.tasks, task);
    }

    /// Puts `t` in place of the task at `i`, which has the same ID.
    fn replace_at(&mut self, i: usize, t: TransferTask)
        requires
            old(self).wf(),
            i < old(self).tasks@.len(),
            t.task_id@ == old(self).tasks@[i as int].task_id@,
        ensures
            final(self).wf(),
            final(self).tasks() == old(self).tasks().insert(t.task_id@, t),
            final(self).events == old(self).events,
            final(self).published() == old(self).published(),
    {
        let ghost s0 = self.tasks@;
        self.tasks.set(i, t);
        proof {
            assert forall|j: int| 0 <= j < s0.len() && j != i implies s0[j].task_id@ != t.task_id@ by {
                assert(s0[j].task_id@ != s0[i as int].task_id@);
            }
            lemma_by_key_replace(s0, self.tasks@, i as int);
        }
    }

    /// Records that `bytes` of a task have been sent in `elapsed_ms`: its
    /// progress is updated, its state becomes Transferring, and the progress
    /// is published. Nothing happens for an unknown task.
    pub fn record_sent(&mut self, task_id: &str, bytes: u64, elapsed_ms: u64)
        requires
            old(self).wf(),
            old(self).tasks().contains_key(task_id@) ==> update_fits(old(self).tasks()[task_id@].progress.total_bytes, bytes, elapsed_ms),
        ensures
            final(self).wf(),
            !old(self).tasks().contains_key(task_id@) ==> final(self).tasks() == old(self).tasks(),
            old(self).tasks().contains_key(task_id@) ==> ({
                let t0 = old(self).tasks()[task_id@];
                let t1 = final(self).tasks()[task_id@];
                &&& final(self).tasks() == old(self).tasks().insert(task_id@, t1)
                &&& updated(t0.progress, t1.progress, bytes, elapsed_ms)
                &&& t1 == (TransferTask { state: TransferState::Transferring, progress: t1.progress, ..t0 })
            }),
            publishes(*old(self), *final(self), task_id@),
    {
        match find_key(&self.tasks, task_id) {
            Some(i) => {
                let mut t = self.tasks[i].duplicate();
                t.progress.update(bytes, elapsed_ms);
                t.state = TransferState::Transferring;
                let p = t.progress.duplicate();
                self.replace_at(i, t);
                self.events.send(p);
            },
            None => {},
        }
    }

    /// Records that `bytes` of a task have been received in `elapsed_ms`:
    /// its progress is updated and published; its state is kept. Nothing
    /// happens for an unknown task.
    pub fn record_received(&mut self, task_id: &str, bytes: u64, elapsed_ms: u64)
        requires
            old(self).wf(),
            old(self).tasks().contains_key(task_id@) ==> update_fits(old(self).tasks()[task_id@].progress.total_bytes, bytes, elapsed_ms),
        ensures
            final(self).wf(),
            !old(self).tasks().contains_key(task_id@) ==> final(self).tasks() == old(self).tasks(),
            old(self).tasks().contains_key(task_id@) ==> ({
                let t0 = old(self).tasks()[task_id@];
                let t1 = final(self).tasks()[task_id@];
                &&& final(self).tasks() == old(self).tasks().insert(task_id@, t1)
                &&& updated(t0.progress, t1.progress, bytes, elapsed_ms)
                &&& t1 == (TransferTask { progress: t1.progress, ..t0 })
            }),
            publishes(*old(self), *final(self), task_id@),
    {
        match find_key(&self.tasks, task_id) {
            Some(i) => {
                let mut t = self.tasks[i].duplicate();
                t.progress.update(bytes, elapsed_ms);
                let p = t.progress.duplicate();
                self.replace_at(i, t);
                self.events.send(p);
            },
            None => {},
        }
    }

    /// Records a received chunk of data: the task's transferred bytes grow
    /// by its length, timed from a clock read just now, and the progress is
    /// published. Nothing happens for an unknown task.
    pub fn receive_chunk(&mut self, task_id: &str, chunk_data: &[u8]) -> (r: Result<(), Error>)
        requires
            old(self).wf(),
            old(self).tasks().contains_key(task_id@) ==> received_fits(old(self).tasks()[task_id@].progress, chunk_data@.len()),
        ensures
            final(self).wf(),
            r is Ok,
            !old(self).tasks().contains_key(task_id@) ==> final(self).tasks() == old(self).tasks(),
            old(self).tasks().contains_key(task_id@) ==> ({
                let t0 = old(self).tasks()[task_id@];
                let t1 = final(self).tasks()[task_id@];
                &&& final(self).tasks() == old(self).tasks().insert(task_id@, t1)
                &&& exists|elapsed: u64| #[trigger] updated(t0.progress, t1.progress, (t0.progress.bytes_transferred + chunk_data@.len()) as u64, elapsed)
                &&& t1 == (TransferTask { progress: t1.progress, ..t0 })
            }),
            publishes(*old(self), *final(self), task_id@),
    {
        match find_key(&self.tasks, task_id) {
            Some(i) => {
                let mut t = self.tasks[i].duplicate();
                let bytes = t.progress.bytes_transferred + chunk_data.len() as u64;
                let elapsed = elapsed_ms(&instant_now());
                t.progress.update(bytes, elapsed);
                let p = t.progress.duplicate();
                self.replace_at(i, t);
                self.events.send(p);
            },
            None => {},
        }
        Ok(())
    }

    /// Marks a task completed, its progress complete, and publishes the
    /// progress. Nothing happens for an unknown task.
    pub fn finish_receive(&mut self, task_id: &str) -> (r: Result<(), Error>)
        requires
            old(self).wf(),
        ensures
            final(self).wf(),
            r is Ok,
            !old(self).tasks().contains_key(task_id@) ==> final(self).tasks() == old(self).tasks(),
            old(self).tasks().contains_key(task_id@) ==> final(self).tasks() == old(self).tasks().insert(task_id@, completed_task(old(self).tasks()[task_id@])),
            publishes(*old(self), *final(self), task_id@),
    {
        match find_key(&self.tasks, task_id) {
            Some(i) => {
                let mut t = self.tasks[i].duplicate();
                t.progress.complete();
                t.state = TransferState::Completed;
                let p = t.progress.duplicate();
                self.replace_at(i, t);
                self.events.send(p);
            },
            None => {},
        }
        Ok(())
    }

    /// Cancels a task: its state becomes Canceled and its progress Failed.
    /// Nothing happens for an unknown task.
    pub fn cancel(&mut self, task_id: &str) -> (r: Result<(), Error>)
        requires
            old(self).wf(),
        ensures
            final(self).wf(),
            r is Ok,
            !old(self).tasks().contains_key(task_id@) ==> final(self).tasks() == old(self).tasks(),
            old(self).tasks().contains_key(task_id@) ==> final(self).tasks() == old(self).tasks().insert(task_id@, canceled_task(old(self).tasks()[task_id@])),
            final(self).published() == old(self).published(),
    {
        match find_key(&self.tasks, task_id) {
            Some(i) => {
                let mut t = self.tasks[i].duplicate();
                t.state = TransferState::Canceled;
                t.progress.fail();
                self.replace_at(i, t);
            },
            None => {},
        }
        Ok(())
    }

    /// Copies of all tasks, one per ID.
    pub fn get_tasks(&self) -> (r: Vec<TransferTask>)
        requires
            self.wf(),
        ensures
            unique_keys(r@),
            by_key(r@) == self.tasks(),
    {
        let mut r: Vec<TransferTask> = Vec::new();
        let mut i: usize = 0;
        while i < self.tasks.len()
            invariant
                i <= self.tasks@.len(),
                r@ == self.tasks@.subrange(0, i as int),
            decreases self.tasks@.len() - i,
        {
            r.push(self.tasks[i].duplicate());
            i = i + 1;
            assert(r@ =~= self.tasks@.subrange(0, i as int));
        }
        assert(r@ =~= self.tasks@);
        r
    }

    /// A receiver of the progress published from now on.
    pub fn events(&self) -> tokio::sync::broadcast::Receiver<TransferProgress> {
        self.events.subscribe()
    }

    /// Classifies a frame received during a transfer: `Ok(true)` for the
    /// frame that ends it, `Ok(false)` for a chunk of data, a `Protocol`
    /// error naming any other frame type.
    pub fn check_incoming_frame(frame_type: FrameType) -> (r: Result<bool, Error>)
        ensures
            incoming_outcome(frame_type) matches Some(done) ==> r == Ok::<bool, Error>(done),
            incoming_outcome(frame_type) is None ==> (r matches Err(e)
                && e matches Error::Protocol(m) && m@ == "Unexpected frame type: "@ + frame_type.label()),
    {
        if frame_type == FrameType::TransferComplete {
            Ok(true)
        } else if frame_type == FrameType::ChunkData {
            Ok(false)
        } else {
            let mut m = "Unexpected frame type: ".to_string();
            m.append(frame_type.name());
            Err(Error::Protocol(m))
        }
    }
}

/// A received chunk of `len` bytes can be added to the progress within 64
/// bits, whatever time it took.
pub open spec fn received_fits(p: TransferProgress, len: nat) -> bool {
    &&& p.bytes_transferred + len <= u64::MAX
    &&& (p.bytes_transferred + len) * 1000 <= u64::MAX
    &&& p.total_bytes > p.bytes_transferred + len ==> (p.total_bytes - p.bytes_transferred - len) * 1000 <= u64::MAX
}

/// The task done: state Completed, progress complete.
pub open spec fn completed_task(t: TransferTask) -> TransferTask {
    TransferTask {
        state: TransferState::Completed,
        progress: TransferProgress {
            bytes_transferred: t.progress.total_bytes,
            state: TransferState::Completed,
            speed_bps: 0,
            remaining_ms: 0,
            ..t.progress
        },
        ..t
    }
}

/// The task canceled: state Canceled, progress Failed.
pub open spec fn canceled_task(t: TransferTask) -> TransferTask {
    TransferTask { state: TransferState::Canceled, progress: TransferProgress { state: TransferState::Failed, ..t.progress }, ..t }
}

/// `bytes` received of a transfer of `total_bytes` can be recorded within 64
/// bits, whatever time it took.
pub open spec fn receipt_fits(total_bytes: u64, bytes: nat) -> bool {
    &&& bytes * 1000 <= u64::MAX
    &&& total_bytes > bytes ==> (total_bytes - bytes) * 1000 <= u64::MAX
}

/// The receiving side of a transfer: the data taken in so far, hashed as it
/// comes, and when it started.
pub struct ReceiveSession {
    task_id: String,
    hasher: blake3::Hasher,
    bytes_received: u64,
    start: std::time::Instant,
}

impl ReceiveSession {
    /// The task the data belongs to.
    pub closed spec fn task(&self) -> Seq<char> {
        self.task_id@
    }

    /// The data received so far.
    pub closed spec fn received(&self) -> Seq<u8> {
        hasher_input(self.hasher)
    }

    /// The count of bytes received matches the data.
    pub closed spec fn wf(&self) -> bool {
        self.bytes_received == hasher_input(self.hasher).len()
    }

    pub fn task_id(&self) -> (r: &str)
        ensures
            r@ == self.task(),
    {
        self.task_id.as_str()
    }

    pub fn bytes_received(&self) -> (r: u64)
        requires
            self.wf(),
        ensures
            r == self.received().len(),
    {
        self.bytes_received
    }
}

impl TransferService {
    /// Starts receiving a file: a task for the manifest is entered in state
    /// Transferring (as `register_task` does), and nothing is received yet.
    pub fn begin_receive(&mut self, task_id: &str, manifest: &ChunkManifest) -> (r: ReceiveSession)
        requires
            old(self).wf(),
        ensures
            final(self).wf(),
            r.wf(),
            r.task() == task_id@,
            r.received() == Seq::<u8>::empty(),
            final(self).tasks() == old(self).tasks().insert(task_id@, final(self).tasks()[task_id@]),
            ({
                let t = final(self).tasks()[task_id@];
                &&& t.task_id@ == task_id@
                &&& t.file_id == manifest.file_id
                &&& t.file_name == manifest.file_name
                &&& t.total_size == manifest.total_size
                &&& t.chunk_size == manifest.chunk_size
                &&& t.total_chunks == manifest.total_chunks
                &&& t.state == TransferState::Transferring
                &&& t.progress.task_id@ == task_id@
                &&& t.progress.total_bytes == manifest.total_size
                &&& t.progress.bytes_transferred == 0
                &&& t.progress.speed_bps == 0
                &&& t.progress.remaining_ms == 0
                &&& t.progress.state == TransferState::Idle
            }),
            final(self).published() == old(self).published(),
    {
        self.register_task(task_id, manifest, TransferState::Transferring);
        ReceiveSession {
            task_id: task_id.to_string(),
            hasher: hasher_new(),
            bytes_received: 0,
            start: instant_now(),
        }
    }

    /// Takes in the next frame of a transfer. The frame that ends it marks
    /// the task completed (as `finish_receive` does) and gives the BLAKE3
    /// hash of all data received; a chunk of data is added to what was
    /// received and the task's progress becomes the total received, timed
    /// from the start (as `record_received` does); any other frame is a
    /// `Protocol` error, and nothing changes.
    pub fn receive_frame(&mut self, session: &mut ReceiveSession, frame: &Frame) -> (r: Result<Option<[u8; 32]>, Error>)
        requires
            old(self).wf(),
            old(session).wf(),
            frame.frame_type == FrameType::ChunkData ==> old(session).received().len() + frame.payload@.len() <= u64::MAX,
            frame.frame_type == FrameType::ChunkData && old(self).tasks().contains_key(old(session).task())
                ==> receipt_fits(
                old(self).tasks()[old(session).task()].progress.total_bytes,
                old(session).received().len() + frame.payload@.len(),
            ),
        ensures
            final(self).wf(),
            final(session).wf(),
            final(session).task() == old(session).task(),
            incoming_outcome(frame.frame_type) is None ==> {
                &&& r matches Err(e) && e matches Error::Protocol(m) && m@ == "Unexpected frame type: "@ + frame.frame_type.label()
                &&& final(self).tasks() == old(self).tasks()
                &&& final(self).published() == old(self).published()
                &&& final(session).received() == old(session).received()
            },
            incoming_outcome(frame.frame_type) is Some ==> publishes(*old(self), *final(self), old(session).task()),
            incoming_outcome(frame.frame_type) == Some(true) ==> {
                &&& r matches Ok(Some(h)) && h@ == blake3_hash(old(session).received())
                &&& final(session).received() == old(session).received()
                &&& !old(self).tasks().contains_key(old(session).task()) ==> final(self).tasks() == old(self).tasks()
                &&& old(self).tasks().contains_key(old(session).task()) ==> final(self).tasks()
                    == old(self).tasks().insert(old(session).task(), completed_task(old(self).tasks()[old(session).task()]))
            },
            incoming_outcome(frame.frame_type) == Some(false) ==> r matches Ok(None),
            incoming_outcome(frame.frame_type) == Some(false) ==> final(session).received()
                == old(session).received() + frame.payload@,
            incoming_outcome(frame.frame_type) == Some(false) && !old(self).tasks().contains_key(old(session).task())
                ==> final(self).tasks() == old(self).tasks(),
            incoming_outcome(frame.frame_type) == Some(false) && old(self).tasks().contains_key(old(session).task())
                ==> ({
                let t0 = old(self).tasks()[old(session).task()];
                let t1 = final(self).tasks()[old(session).task()];
                &&& final(self).tasks() == old(self).tasks().insert(old(session).task(), t1)
                &&& exists|elapsed: u64| #[trigger] updated(t0.progress, t1.progress, final(session).received().len() as u64, elapsed)
                &&& t1 == (TransferTask { progress: t1.progress, ..t0 })
            }),
    {
        match Self::check_incoming_frame(frame.frame_type) {
            Err(e) => Err(e),
            Ok(true) => {
                let hash = hasher_finalize(&session.hasher);
                let _ = self.finish_receive(session.task_id.as_str());
                Ok(Some(hash))
            },
            Ok(false) => {
                hasher_update(&mut session.hasher, frame.payload.as_slice());
                session.bytes_received = session.bytes_received + frame.payload.len() as u64;
                let elapsed = elapsed_ms(&session.start);
                let bytes = session.bytes_received;
                proof {
                    if self.tasks().contains_key(session.task_id@) {
                        let total = self.tasks()[session.task_id@].progress.total_bytes;
                        if elapsed > 0 && bytes * 1000 / (elapsed as int) > 0 && total > bytes {
                            assert((total - bytes) * 1000 <= u64::MAX);
                        }
                    }
                }
                let ghost before = self.tasks();
                self.record_received(session.task_id.as_str(), bytes, elapsed);
                proof {
                    assert(session.received().len() as u64 == bytes);
                    if before.contains_key(session.task_id@) {
                        assert(updated(
                            before[session.task_id@].progress,
                            self.tasks()[session.task_id@].progress,
                            session.received().len() as u64,
                            elapsed,
                        ));
                    }
                }
                Ok(None)
            },
        }
    }
}

/// The chunks a sender still has to send, in order: those of the first
/// `total` that the receiver does not have.
pub open spec fn pending_chunks(total: nat, have: Seq<u32>) -> Seq<u32>
    decreases total,
{
    if total == 0 {
        Seq::empty()
    } else {
        let i = (total - 1) as nat;
        if have.contains(i as u32) {
            pending_chunks(i, have)
        } else {
            pending_chunks(i, have).push(i as u32)
        }
    }
}

/// What remains to send is exactly what the receiver lacks, in ascending
/// order: a chunk index is among the chunks still to send if and only if it
/// is below the chunk count and not among the chunks the receiver already
/// has, and each index comes once, smaller ones first.
pub proof fn lemma_pending_chunks_are_missing(total: nat, have: Seq<u32>)
    requires
        total <= 0x1_0000_0000,
    ensures
        forall|c: u32| #[trigger] pending_chunks(total, have).contains(c) <==> (c < total && !have.contains(c)),
        forall|a: int, b: int| 0 <= a < b < pending_chunks(total, have).len() ==> #[trigger] pending_chunks(total, have)[a]
            < #[trigger] pending_chunks(total, have)[b],
    decreases total,
{
    if total > 0 {
        let i = (total - 1) as nat;
        lemma_pending_chunks_are_missing(i, have);
        let p = pending_chunks(i, have);
        assert((i as u32) as nat == i);
        if have.contains(i as u32) {
            assert forall|c: u32| #[trigger] pending_chunks(total, have).contains(c) <==> (c < total && !have.contains(c)) by {
                if c == i as u32 {
                    assert(!p.contains(c));
                }
            }
        } else {
            let q = p.push(i as u32);
            assert(pending_chunks(total, have) == q);
            assert forall|c: u32| #[trigger] q.contains(c) <==> (c < total && !have.contains(c)) by {
                if q.contains(c) {
                    let k = choose|k: int| 0 <= k < q.len() && q[k] == c;
                    if k < p.len() {
                        assert(p[k] == c);
                        assert(p.contains(c));
                    }
                }
                if c < total && !have.contains(c) {
                    if c == i as u32 {
                        assert(q[p.len() as int] == c);
                    } else {
                        assert(p.contains(c));
                        let k = choose|k: int| 0 <= k < p.len() && p[k] == c;
                        assert(q[k] == c);
                    }
                }
            }
            assert forall|a: int, b: int| 0 <= a < b < q.len() implies #[trigger] q[a] < #[trigger] q[b] by {
                if b == p.len() {
                    assert(p.contains(p[a]));
                    assert(p[a] < i);
                } else {
                    assert(p[a] < p[b]);
                }
            }
        }
    }
}

/// What the sender makes of the receiver's answer to a manifest: a frame of
/// any other type is a protocol error; an answer that does not accept the
/// file is a rejection, with the receiver's reason (or "Unknown").
pub open spec fn answer_accepted(frame_type: FrameType, accepted: Option<bool>) -> bool {
    frame_type == FrameType::FileManifestResponse && accepted == Some(true)
}

impl TransferService {
    /// Checks the receiver's answer to a manifest: its frame type, whether
    /// it accepts the file (`accepted`, absent when the answer does not
    /// say) and its reason for refusing.
    pub fn check_manifest_answer(frame_type: FrameType, accepted: Option<bool>, error_reason: Option<String>) -> (r: Result<(), Error>)
        ensures
            r is Ok <==> answer_accepted(frame_type, accepted),
            frame_type != FrameType::FileManifestResponse ==> (r matches Err(e) && e matches Error::Protocol(m)
                && m@ == "Unexpected response type"@),
            frame_type == FrameType::FileManifestResponse && accepted != Some(true) ==> (r matches Err(e)
                && e matches Error::Rejected(m) && m@ == match error_reason {
                    Some(reason) => reason@,
                    None => "Unknown"@,
                }),
    {
        if frame_type != FrameType::FileManifestResponse {
            return Err(Error::Protocol("Unexpected response type".to_string()));
        }
        match accepted {
            Some(true) => Ok(()),
            _ => match error_reason {
                Some(reason) => Err(Error::Rejected(reason)),
                None => Err(Error::Rejected("Unknown".to_string())),
            },
        }
    }

    /// The chunks to send, in order: each of the manifest's chunks that the
    /// receiver does not already have.
    pub fn chunks_to_send(total_chunks: u32, already_have: &[u32]) -> (r: Vec<u32>)
        ensures
            r@ == pending_chunks(total_chunks as nat, already_have@),
            forall|c: u32| #[trigger] r@.contains(c) <==> (c < total_chunks && !already_have@.contains(c)),
            forall|a: int, b: int| 0 <= a < b < r@.len() ==> #[trigger] r@[a] < #[trigger] r@[b],
    {
        proof {
            lemma_pending_chunks_are_missing(total_chunks as nat, already_have@);
        }
        let mut r: Vec<u32> = Vec::new();
        let mut i: u32 = 0;
        while i < total_chunks
            invariant
                i <= total_chunks,
                r@ == pending_chunks(i as nat, already_have@),
            decreases total_chunks - i,
        {
            let mut have = false;
            let mut j: usize = 0;
            while j < already_have.len()
                invariant
                    j <= already_have@.len(),
                    have <==> exists|k: int| 0 <= k < j && already_have@[k] == i,
                decreases already_have@.len() - j,
            {
                if already_have[j] == i {
                    have = true;
                }
                j = j + 1;
            }
            proof {
                assert(have <==> already_have@.contains(i));
                assert(((i + 1) as nat - 1) as nat == i as nat);
                assert(((i as nat) as u32) == i);
            }
            if !have {
                r.push(i);
            }
            i = i + 1;
        }
        r
    }

    /// The bytes counted as sent once chunk `chunk_index` has gone: whole
    /// chunks up to and including it.
    pub fn sent_bytes(chunk_index: u32, chunk_size: u32) -> (r: u64)
        ensures
            r == (chunk_index + 1) * chunk_size,
    {
        assert((chunk_index as u64 + 1) * (chunk_size as u64) <= u64::MAX) by (nonlinear_arith)
            requires
                chunk_index <= u32::MAX,
                chunk_size <= u32::MAX,
        ;
        (chunk_index as u64 + 1) * chunk_size as u64
    }
}

} // verus!
