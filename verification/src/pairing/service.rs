//! Pairing by X25519 key exchange: requests, results, and the service state.
//!
//! The exchange itself runs over TCP around this module: the initiator sends
//! a `PairingRequest` and reads the answer, which `pairing_outcome` turns
//! into a result; the responder hands each request it receives to
//! `register_incoming` and answers once the user has confirmed or rejected
//! it with `confirm_pairing`.

use vstd::prelude::*;
use crate::channels::{EventChannel, OfferChannel};
use crate::keyed::{by_key, find_key, lemma_by_key_empty, lemma_by_key_remove, unique_keys, upsert, Keyed};
use crate::pairing::error::Error;
use crate::protocol::{FrameType, PairingResponse};
use crate::security::cert::{
    base64_encode, base64_standard, rfc3339_text, utc_representable, validity_fits, CertificateStore, VALIDITY_SECS,
};
use crate::security::crypto::KeyPair;

verus! {

broadcast use vstd::string::to_string_from_display_ensures_for_str;

/// Device pairing request.
#[derive(Debug, Clone)]
pub struct PairingRequest {
    pub pairing_id: String,
    pub device_id: String,
    pub device_name: String,
    /// The requester's X25519 public key, base64.
    pub public_key: String,
    pub capabilities: Capabilities,
}

impl PairingRequest {
    /// A copy of the request.
    pub fn duplicate(&self) -> (r: PairingRequest)
        ensures
            r == *self,
    {
        PairingRequest {
            pairing_id: self.pairing_id.clone(),
            device_id: self.device_id.clone(),
            device_name: self.device_name.clone(),
            public_key: self.public_key.clone(),
            capabilities: self.capabilities,
        }
    }
}

/// Granted capabilities.
#[derive(Debug, Clone, Copy, PartialEq, Eq, Structural)]
pub struct Capabilities {
    pub file_transfer: bool,
    pub screen_mirror: bool,
    pub remote_control: bool,
    pub clipboard_sync: bool,
}

impl Default for Capabilities {
    fn default() -> (r: Capabilities)
        ensures
            !r.file_transfer && !r.screen_mirror && !r.remote_control && !r.clipboard_sync,
    {
        Capabilities { file_transfer: false, screen_mirror: false, remote_control: false, clipboard_sync: false }
    }
}

/// Pairing result.
#[derive(Debug, Clone)]
pub enum PairingResult {
    Success { device_id: String, device_name: String, shared_secret: [u8; 32] },
    Rejected { pairing_id: String, reason: String },
    Error { pairing_id: String, error: String },
}

/// Incoming pairing request from a peer.
#[derive(Debug)]
pub struct IncomingRequest {
    pub pairing_id: String,
    pub request: PairingRequest,
}

/// A request awaiting the user's decision, with the channel the decision
/// is sent on.
struct PendingConfirmation {
    pairing_id: String,
    request: PairingRequest,
    confirm_tx: tokio::sync::oneshot::Sender<bool>,
}

/// The decisions handed to requesters that wait on a pairing, oldest
/// first: each is the pairing's ID and whether it was accepted.
pub struct DecisionLog {
    entries: Ghost<Seq<(Seq<char>, bool)>>,
}

impl DecisionLog {
    /// The decisions handed on so far, oldest first.
    pub closed spec fn decisions(&self) -> Seq<(Seq<char>, bool)> {
        self.entries@
    }
}

/// `tokio::sync::oneshot::Sender::send` on the channel of a pending
/// request: hands the decision to the requester waiting on it, and adds
/// the pairing's ID with the decision to the log; gives whether it was
/// handed over (it is not when the requester is gone).
#[verifier::external_body]
fn send_decision(log: &mut DecisionLog, confirmation: PendingConfirmation, accept: bool) -> (r: bool)
    ensures
        final(log).decisions() == old(log).decisions().push((confirmation.pairing_id@, accept)),
{
    confirmation.confirm_tx.send(accept).is_ok()
}

impl Keyed for PendingConfirmation {
    closed spec fn key(&self) -> Seq<char> {
        self.pairing_id@
    }

    fn key_str(&self) -> (r: &str) {
        self.pairing_id.as_str()
    }
}

/// Pairing service state.
#[derive(Debug, Clone)]
pub enum PairingState {
    Idle,
    WaitingForConfirmation(String),
    Connected,
    Failed(String),
}

/// The result of a pairing attempt from the answer to its request: a frame
/// of any type but `PairingResponse` is a protocol error; an answer that
/// accepts gives success with the shared secret, any other a rejection with
/// the answer's message, or "Rejected" when it has none.
pub open spec fn outcome_of(
    response_type: FrameType,
    accepted: Option<bool>,
    error_message: Option<Seq<char>>,
    pairing_id: Seq<char>,
    device_id: Seq<char>,
    device_name: Seq<char>,
    shared_secret: Seq<u8>,
    r: Result<PairingResult, Error>,
) -> bool {
    if response_type != FrameType::PairingResponse {
        r matches Err(e) && e matches Error::Protocol(m) && m@ == "Unexpected frame type"@
    } else if accepted == Some(true) {
        r matches Ok(PairingResult::Success { device_id: d, device_name: n, shared_secret: s })
            && d@ == device_id && n@ == device_name && s@ == shared_secret
    } else {
        r matches Ok(PairingResult::Rejected { pairing_id: p, reason })
            && p@ == pairing_id && reason@ == (match error_message {
                Some(m) => m,
                None => "Rejected"@,
            })
    }
}

/// Pairing service.
pub struct PairingService {
    keypair: Option<KeyPair>,
    cert_store: CertificateStore,
    pending_requests: OfferChannel<IncomingRequest>,
    pending_confirmations: Vec<PendingConfirmation>,
    decision_log: DecisionLog,
    event_tx: EventChannel<PairingResult>,
    state: PairingState,
}

impl PairingService {
    /// The current state.
    pub closed spec fn state_view(&self) -> PairingState {
        self.state
    }

    /// The requests awaiting confirmation, by pairing ID.
    pub closed spec fn pending(&self) -> Map<Seq<char>, PairingRequest> {
        by_key(self.pending_confirmations@).map_values(|p: PendingConfirmation| p.request)
    }

    /// The requests offered to the application's request channel, oldest
    /// first.
    pub closed spec fn offered(&self) -> Seq<IncomingRequest> {
        self.pending_requests.offered()
    }

    /// The decisions handed to waiting requesters, oldest first.
    pub closed spec fn decisions(&self) -> Seq<(Seq<char>, bool)> {
        self.decision_log.decisions()
    }

    /// The certificate store holding the device's identity.
    pub closed spec fn store(&self) -> CertificateStore {
        self.cert_store
    }

    /// The public key shared with peers, once a key pair is held.
    pub closed spec fn public_key(&self) -> Option<Seq<u8>> {
        match self.keypair {
            Some(k) => Some(k.public()),
            None => None,
        }
    }

    /// One pending entry per pairing ID, filed under its request's ID; the
    /// certificate store is well formed.
    pub closed spec fn wf(&self) -> bool {
        &&& unique_keys(self.pending_confirmations@)
        &&& forall|i: int| 0 <= i < self.pending_confirmations@.len()
            ==> #[trigger] self.pending_confirmations@[i].pairing_id@ == self.pending_confirmations@[i].request.pairing_id@
        &&& self.cert_store.wf()
    }

    /// A service in the Idle state with no identity, no key pair and no
    /// pending requests.
    pub fn new() -> (r: PairingService)
        ensures
            r.wf(),
            r.state_view() is Idle,
            r.pending() == Map::<Seq<char>, PairingRequest>::empty(),
            r.public_key() is None,
            r.store().identity() is None,
            r.offered() == Seq::<IncomingRequest>::empty(),
            r.decisions() == Seq::<(Seq<char>, bool)>::empty(),
    {
        let r = PairingService {
            keypair: None,
            cert_store: CertificateStore::new(),
            pending_requests: OfferChannel::new(10),
            pending_confirmations: Vec::new(),
            decision_log: DecisionLog { entries: Ghost(Seq::empty()) },
            event_tx: EventChannel::new(100),
            state: PairingState::Idle,
        };
        proof {
            lemma_by_key_empty(r.pending_confirmations@);
            assert(r.pending() =~= Map::<Seq<char>, PairingRequest>::empty());
        }
        r
    }

    /// The current state.
    pub fn state(&self) -> (r: &PairingState)
        ensures
            *r == self.state_view(),
    {
        &self.state
    }

    /// Sets the state.
    pub fn set_state(&mut self, state: PairingState)
        requires
            old(self).wf(),
        ensures
            final(self).wf(),
            final(self).state_view() == state,
            final(self).pending() == old(self).pending(),
            final(self).offered() == old(self).offered(),
            final(self).decisions() == old(self).decisions(),
            final(self).public_key() == old(self).public_key(),
            final(self).store() == old(self).store(),
    {
        self.state = state;
    }

    /// Generates the device's identity certificate in the store; a failure
    /// of the store is reported as a `Security` error and changes nothing.
    pub fn init(&mut self, device_id: &str, device_name: &str) -> (r: Result<(), Error>)
        requires
            old(self).wf(),
        ensures
            final(self).wf(),
            final(self).state_view() == old(self).state_view(),
            final(self).pending() == old(self).pending(),
            final(self).public_key() == old(self).public_key(),
            r is Ok ==> (final(self).store().identity() matches Some(c)
                && c.device_id@ == device_id@ && c.device_name@ == device_name@
                && (exists|s: i64, n: u32| #[trigger] validity_fits(s, n) && c.not_before@ == rfc3339_text(s, n)
                && c.not_after@ == rfc3339_text((s + VALIDITY_SECS) as i64, n))),
            r is Ok ==> final(self).store().identity_secret() is Some,
            r is Err ==> final(self).store() == old(self).store(),
            r is Err ==> exists|s: i64, n: u32| utc_representable(s, n) && !#[trigger] validity_fits(s, n),
            final(self).offered() == old(self).offered(),
            final(self).decisions() == old(self).decisions(),
            r matches Err(e) ==> e is Security,
    {
        match self.cert_store.generate_identity(device_id, device_name) {
            Ok(_) => Ok(()),
            Err(e) => Err(Error::Security(e.to_string())),
        }
    }

    /// The public key in base64, or `NotInitialized` while no key pair is held.
    pub fn get_public_key_base64(&self) -> (r: Result<String, Error>)
        ensures
            self.public_key() is None ==> (r matches Err(e) && e is NotInitialized),
            self.public_key() matches Some(k) ==> (r matches Ok(s) && s@ == base64_standard(k)),
    {
        match &self.keypair {
            Some(k) => {
                let public = k.public_key_bytes();
                Ok(base64_encode(public.as_slice()))
            },
            None => Err(Error::NotInitialized),
        }
    }

    /// The request the initiator sends: its identity, capabilities and the
    /// base64 of its public key.
    pub fn pairing_request(
        pairing_id: String,
        device_id: String,
        device_name: String,
        capabilities: Capabilities,
        local_keypair: &KeyPair,
    ) -> (r: PairingRequest)
        ensures
            r.pairing_id == pairing_id,
            r.device_id == device_id,
            r.device_name == device_name,
            r.capabilities == capabilities,
            r.public_key@ == base64_standard(local_keypair.public()),
    {
        let public = local_keypair.public_key_bytes();
        PairingRequest { pairing_id, device_id, device_name, public_key: base64_encode(public.as_slice()), capabilities }
    }

    /// The result of a pairing attempt from the answer to its request (see
    /// `outcome_of`).
    pub fn pairing_outcome(
        response_type: FrameType,
        accepted: Option<bool>,
        error_message: Option<String>,
        pairing_id: String,
        device_id: String,
        device_name: String,
        shared_secret: [u8; 32],
    ) -> (r: Result<PairingResult, Error>)
        ensures
            outcome_of(
                response_type,
                accepted,
                match error_message {
                    Some(m) => Some(m@),
                    None => None,
                },
                pairing_id@,
                device_id@,
                device_name@,
                shared_secret@,
                r,
            ),
    {
        if response_type != FrameType::PairingResponse {
            return Err(Error::Protocol("Unexpected frame type".to_string()));
        }
        if accepted == Some(true) {
            Ok(PairingResult::Success { device_id, device_name, shared_secret })
        } else {
            let reason = match error_message {
                Some(m) => m,
                None => "Rejected".to_string(),
            };
            Ok(PairingResult::Rejected { pairing_id, reason })
        }
    }

    /// The answer to a received request once the user decided: it names the
    /// pairing and says whether it was accepted; a refusal carries the
    /// message "User rejected".
    pub fn pairing_response(pairing_id: String, accepted: bool) -> (r: PairingResponse)
        ensures
            r.pairing_id == pairing_id,
            r.accepted == accepted,
            accepted ==> r.error_message is None,
            !accepted ==> (r.error_message matches Some(m) && m@ == "User rejected"@),
    {
        if accepted {
            PairingResponse { pairing_id, accepted: true, error_message: None }
        } else {
            PairingResponse { pairing_id, accepted: false, error_message: Some("User rejected".to_string()) }
        }
    }

    /// Files a received request to await the user's decision, which will be
    /// sent on `confirm_tx`, in place of any pending request with the same
    /// pairing ID, and offers it to the application's request channel.
    pub fn register_incoming(&mut self, request: PairingRequest, confirm_tx: tokio::sync::oneshot::Sender<bool>)
        requires
            old(self).wf(),
        ensures
            final(self).wf(),
            final(self).pending() == old(self).pending().insert(request.pairing_id@, request),
            final(self).offered().len() == old(self).offered().len() + 1,
            final(self).offered().take(old(self).offered().len() as int) == old(self).offered(),
            final(self).offered().last().pairing_id@ == request.pairing_id@,
            final(self).offered().last().request == request,
            final(self).decisions() == old(self).decisions(),
            final(self).state_view() == old(self).state_view(),
            final(self).public_key() == old(self).public_key(),
            final(self).store() == old(self).store(),
    {
        let incoming = IncomingRequest { pairing_id: request.pairing_id.clone(), request: request.duplicate() };
        let entry = PendingConfirmation { pairing_id: request.pairing_id.clone(), request, confirm_tx };
        let ghost s0 = self.pending_confirmations@;
        let ghost e = entry;
        upsert(&mut self.pending_confirmations, entry);
        proof {
            assert forall|i: int| 0 <= i < self.pending_confirmations@.len()
                implies #[trigger] self.pending_confirmations@[i].pairing_id@ == self.pending_confirmations@[i].request.pairing_id@ by {
                let k = self.pending_confirmations@[i].key();
                crate::keyed::lemma_by_key_at(self.pending_confirmations@, i);
                if k != e.key() {
                    let j = choose|j: int| 0 <= j < s0.len() && s0[j].key() == k;
                    crate::keyed::lemma_by_key_at(s0, j);
                }
            }
            assert(self.pending() =~= old(self).pending().insert(e.request.pairing_id@, e.request));
        }
        let ghost o0 = self.pending_requests.offered();
        let _ = self.pending_requests.try_offer(incoming);
        assert(self.pending_requests.offered().take(o0.len() as int) =~= o0);
    }

    /// Sends the user's decision on a pending request and forgets it. A
    /// pairing ID with nothing pending gives `NotFound` and changes nothing;
    /// a decision that cannot be delivered gives a `Protocol` error.
    pub fn confirm_pairing(&mut self, pairing_id: &str, accept: bool) -> (r: Result<(), Error>)
        requires
            old(self).wf(),
        ensures
            final(self).wf(),
            !old(self).pending().contains_key(pairing_id@) ==> (r matches Err(e) && e is NotFound) && final(self).pending() == old(self).pending(),
            old(self).pending().contains_key(pairing_id@) ==> final(self).pending() == old(self).pending().remove(pairing_id@),
            old(self).pending().contains_key(pairing_id@) ==> (r is Ok || (r matches Err(e) && e matches Error::Protocol(m)
                && m@ == "Failed to confirm pairing"@)),
            old(self).pending().contains_key(pairing_id@) ==> final(self).decisions() == old(self).decisions().push(
                (pairing_id@, accept),
            ),
            !old(self).pending().contains_key(pairing_id@) ==> final(self).decisions() == old(self).decisions(),
            final(self).offered() == old(self).offered(),
            final(self).state_view() == old(self).state_view(),
            final(self).public_key() == old(self).public_key(),
            final(self).store() == old(self).store(),
    {
        let i = match find_key(&self.pending_confirmations, pairing_id) {
            Some(i) => i,
            None => return Err(Error::NotFound),
        };
        let ghost s0 = self.pending_confirmations@;
        let confirmation = self.pending_confirmations.remove(i);
        proof {
            lemma_by_key_remove(s0, i as int);
            assert forall|j: int| 0 <= j < self.pending_confirmations@.len()
                implies #[trigger] self.pending_confirmations@[j].pairing_id@ == self.pending_confirmations@[j].request.pairing_id@ by {
                let j0 = if j < i { j } else { j + 1 };
                assert(self.pending_confirmations@[j] == s0[j0]);
            }
            assert(self.pending() =~= old(self).pending().remove(pairing_id@));
        }
        proof {
            crate::keyed::lemma_by_key_at(s0, i as int);
            assert(s0[i as int].pairing_id@ == pairing_id@);
        }
        if !send_decision(&mut self.decision_log, confirmation, accept) {
            return Err(Error::Protocol("Failed to confirm pairing".to_string()));
        }
        Ok(())
    }

    /// Copies of the pending requests, one per pairing ID.
    pub fn get_pending_requests(&self) -> (r: Vec<PairingRequest>)
        requires
            self.wf(),
        ensures
            forall|i: int| 0 <= i < r@.len() ==> self.pending().contains_key(#[trigger] r@[i].pairing_id@)
                && self.pending()[r@[i].pairing_id@] == r@[i],
            forall|k: Seq<char>| self.pending().contains_key(k) ==> exists|i: int| 0 <= i < r@.len() && #[trigger] r@[i].pairing_id@ == k,
    {
        let mut r: Vec<PairingRequest> = Vec::new();
        let mut i: usize = 0;
        while i < self.pending_confirmations.len()
            invariant
                self.wf(),
                i <= self.pending_confirmations@.len(),
                r@.len() == i,
                forall|j: int| 0 <= j < i ==> #[trigger] r@[j] == self.pending_confirmations@[j].request,
            decreases self.pending_confirmations@.len() - i,
        {
            r.push(self.pending_confirmations[i].request.duplicate());
            i = i + 1;
        }
        proof {
            assert forall|j: int| 0 <= j < r@.len() implies self.pending().contains_key(#[trigger] r@[j].pairing_id@)
                && self.pending()[r@[j].pairing_id@] == r@[j] by {
                crate::keyed::lemma_by_key_at(self.pending_confirmations@, j);
                assert(self.pending_confirmations@[j].pairing_id@ == self.pending_confirmations@[j].request.pairing_id@);
            }
            assert forall|k: Seq<char>| self.pending().contains_key(k) implies exists|j: int| 0 <= j < r@.len() && #[trigger] r@[j].pairing_id@ == k by {
                let j = choose|j: int| 0 <= j < self.pending_confirmations@.len() && self.pending_confirmations@[j].key() == k;
                assert(self.pending_confirmations@[j].pairing_id@ == self.pending_confirmations@[j].request.pairing_id@);
                assert(r@[j].pairing_id@ == k);
            }
        }
        r
    }

    /// Whether any request awaits confirmation.
    pub fn has_pending_requests(&self) -> (r: bool)
        requires
            self.wf(),
        ensures
            r <==> exists|k: Seq<char>| self.pending().contains_key(k),
    {
        proof {
            if self.pending_confirmations@.len() > 0 {
                crate::keyed::lemma_by_key_at(self.pending_confirmations@, 0);
                assert(self.pending().contains_key(self.pending_confirmations@[0].key()));
            }
        }
        self.pending_confirmations.len() > 0
    }

    /// A receiver of the pairing results published from now on.
    pub fn events(&self) -> tokio::sync::broadcast::Receiver<PairingResult> {
        self.event_tx.subscribe()
    }
}

impl Default for PairingService {
    fn default() -> (r: PairingService)
        ensures
            r.wf(),
            r.state_view() is Idle,
            r.pending() == Map::<Seq<char>, PairingRequest>::empty(),
    {
        Self::new()
    }
}

} // verus!
