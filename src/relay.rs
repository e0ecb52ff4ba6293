//! The decisions of a relay session between two paired clients.
//!
//! Each inbound read is decrypted and, when it authenticates, re-encrypted
//! under a fresh nonce for the other client. The session ends, closing both
//! connections, as soon as either side closes or an I/O operation fails.

use vstd::prelude::*;
use crate::codec::{
    aes256gcm_open,
    aes256gcm_seal,
    decrypt_message,
    encrypt_with_nonce,
    random_nonce,
    MAX_PLAINTEXT_LEN,
    NONCE_LEN,
};
use crate::frame::{build_frame, frame_bytes, split_frame};

verus! {

/// One of the two clients of a session.
#[derive(Debug, Clone, Copy, PartialEq, Eq, Structural)]
pub enum Side {
    A,
    B,
}

/// The client on the other end of the session.
pub open spec fn opposite(s: Side) -> Side {
    match s {
        Side::A => Side::B,
        Side::B => Side::A,
    }
}

impl Side {
    /// The client that messages from `self` are forwarded to.
    pub fn other(self) -> (r: Side)
        ensures
            r == opposite(self),
    {
        match self {
            Side::A => Side::B,
            Side::B => Side::A,
        }
    }
}

/// Why a single inbound frame was discarded while its pipeline goes on.
#[derive(Debug, Clone, Copy, PartialEq, Eq, Structural)]
pub enum DropReason {
    /// Fewer than twelve bytes arrived.
    FrameTooShort,
    /// The ciphertext did not authenticate under the session key.
    Authentication,
}

/// What one inbound read of a pipeline leads to.
#[derive(Debug, PartialEq, Eq)]
pub enum FrameOutcome {
    /// A zero-length read: the peer closed its connection.
    PeerClosed,
    /// The frame is discarded and the pipeline keeps reading.
    Dropped(DropReason),
    /// The frame to write to the other client.
    Forward(Vec<u8>),
}

/// The nonce part of a received frame.
pub open spec fn frame_nonce(buffer: Seq<u8>) -> Seq<u8> {
    buffer.subrange(0, NONCE_LEN as int)
}

/// The ciphertext part of a received frame.
pub open spec fn frame_ciphertext(buffer: Seq<u8>) -> Seq<u8> {
    buffer.subrange(NONCE_LEN as int, buffer.len() as int)
}

/// What a read of `buffer` yields, when the outgoing frame is sealed under
/// the nonce `fresh`: the outcome is exact, the forwarded frame is that of
/// the recovered plaintext re-encrypted under `fresh`.
pub open spec fn relay_outcome(buffer: Seq<u8>, key: Seq<u8>, fresh: Seq<u8>, r: FrameOutcome) -> bool {
    if buffer.len() == 0 {
        r == FrameOutcome::PeerClosed
    } else if buffer.len() < NONCE_LEN {
        r == FrameOutcome::Dropped(DropReason::FrameTooShort)
    } else {
        match aes256gcm_open(key, frame_nonce(buffer), frame_ciphertext(buffer)) {
            None => r == FrameOutcome::Dropped(DropReason::Authentication),
            Some(p) => r matches FrameOutcome::Forward(f) && f@ == frame_bytes(
                fresh,
                aes256gcm_seal(key, fresh, p),
            ),
        }
    }
}

/// Handles one inbound read, re-encrypting a recovered message under the
/// given fresh nonce.
pub fn relay_frame_with_nonce(buffer: &[u8], key_bytes: &[u8; 32], fresh_nonce: &[u8; 12]) -> (r:
    FrameOutcome)
    requires
        buffer@.len() <= MAX_PLAINTEXT_LEN,
    ensures
        relay_outcome(buffer@, key_bytes@, fresh_nonce@, r),
{
    if buffer.len() == 0 {
        return FrameOutcome::PeerClosed;
    }
    match split_frame(buffer) {
        Err(_) => FrameOutcome::Dropped(DropReason::FrameTooShort),
        Ok((nonce, ciphertext)) => {
            match decrypt_message(ciphertext.as_slice(), nonce, key_bytes) {
                Err(_) => FrameOutcome::Dropped(DropReason::Authentication),
                Ok(plaintext) => {
                    let sealed = encrypt_with_nonce(plaintext.as_slice(), fresh_nonce, key_bytes);
                    FrameOutcome::Forward(build_frame(fresh_nonce, sealed.as_slice()))
                },
            }
        },
    }
}

/// Handles one inbound read of a pipeline: a zero-length read means the peer
/// closed; a short or unauthentic frame is dropped; otherwise the message is
/// re-encrypted under a freshly drawn nonce, which heads the forwarded frame.
pub fn relay_frame(buffer: &[u8], key_bytes: &[u8; 32]) -> (r: FrameOutcome)
    requires
        buffer@.len() <= MAX_PLAINTEXT_LEN,
    ensures
        r matches FrameOutcome::Forward(f) ==> f@.len() >= NONCE_LEN,
        relay_outcome(
            buffer@,
            key_bytes@,
            match r {
                FrameOutcome::Forward(f) => frame_nonce(f@),
                _ => Seq::empty(),
            },
            r,
        ),
{
    let fresh = random_nonce();
    let r = relay_frame_with_nonce(buffer, key_bytes, &fresh);
    proof {
        if r is Forward {
            let f = r->Forward_0@;
            assert(frame_nonce(f) =~= fresh@);
        }
    }
    r
}

/// What the I/O around a session reports to it.
#[derive(Debug, PartialEq, Eq)]
pub enum SessionEvent {
    /// One read from the given client returned these bytes (zero bytes: closed).
    Received(Side, Vec<u8>),
    /// Reading from the given client failed.
    ReadFailed(Side),
    /// Writing to the given client failed.
    SendFailed(Side),
}

/// What the I/O around a session is to do next.
#[derive(Debug, PartialEq, Eq)]
pub enum SessionAction {
    /// Write this frame to the given client.
    Send(Side, Vec<u8>),
    /// Discard the frame just read from the given client and keep reading.
    Skip(Side, DropReason),
    /// Close both connections: the session is over.
    Teardown,
    /// The session is already over; nothing to do.
    Ignore,
}

/// Whether an event ends the session: a peer closed, or an I/O error.
pub open spec fn ends_session(e: SessionEvent) -> bool {
    match e {
        SessionEvent::Received(_, bytes) => bytes@.len() == 0,
        _ => true,
    }
}

/// Whether a session that is `open` is still open after the events, in order.
pub open spec fn open_after(open: bool, events: Seq<SessionEvent>) -> bool
    decreases events.len(),
{
    if events.len() == 0 {
        open
    } else {
        open_after(open && !ends_session(events[0]), events.drop_first())
    }
}

/// A relay session between two paired clients, live until either side ends.
pub struct RelaySession {
    open: bool,
}

impl View for RelaySession {
    type V = bool;

    /// Whether the session is still live.
    closed spec fn view(&self) -> bool {
        self.open
    }
}

impl RelaySession {
    /// A freshly paired, live session.
    pub fn new() -> (r: RelaySession)
        ensures
            r@,
    {
        RelaySession { open: true }
    }

    /// Whether the session is still live.
    pub fn is_open(&self) -> (r: bool)
        ensures
            r == self@,
    {
        self.open
    }

    /// Decides what to do with an event. A live session forwards each
    /// authentic message to the other client, skips a frame that is short
    /// or unauthentic, and on a closed peer or an I/O error tears down both
    /// connections and stays closed; a closed session ignores events.
    pub fn handle(&mut self, event: SessionEvent, key_bytes: &[u8; 32]) -> (r: SessionAction)
        requires
            event matches SessionEvent::Received(_, bytes) ==> bytes@.len() <= MAX_PLAINTEXT_LEN,
        ensures
            final(self)@ == (old(self)@ && !ends_session(event)),
            !old(self)@ ==> r == SessionAction::Ignore,
            old(self)@ && ends_session(event) ==> r == SessionAction::Teardown,
            old(self)@ ==> match event {
                SessionEvent::Received(from, bytes) => bytes@.len() > 0 ==> {
                    &&& bytes@.len() < NONCE_LEN ==> r == SessionAction::Skip(
                        from,
                        DropReason::FrameTooShort,
                    )
                    &&& bytes@.len() >= NONCE_LEN ==> match aes256gcm_open(
                        key_bytes@,
                        frame_nonce(bytes@),
                        frame_ciphertext(bytes@),
                    ) {
                        None => r == SessionAction::Skip(from, DropReason::Authentication),
                        Some(p) => r matches SessionAction::Send(to, f) && to == opposite(from)
                            && f@.len() >= NONCE_LEN && f@ == frame_bytes(
                            frame_nonce(f@),
                            aes256gcm_seal(key_bytes@, frame_nonce(f@), p),
                        ),
                    }
                },
                _ => true,
            },
    {
        if !self.open {
            return SessionAction::Ignore;
        }
        match event {
            SessionEvent::Received(from, bytes) => {
                match relay_frame(bytes.as_slice(), key_bytes) {
                    FrameOutcome::PeerClosed => {
                        self.open = false;
                        SessionAction::Teardown
                    },
                    FrameOutcome::Dropped(reason) => SessionAction::Skip(from, reason),
                    FrameOutcome::Forward(frame) => SessionAction::Send(from.other(), frame),
                }
            },
            _ => {
                self.open = false;
                SessionAction::Teardown
            },
        }
    }
}

/// Once any event has ended a session, it stays closed whatever follows: a
/// client that closes its connection mid-session brings the other side's
/// pipeline down too, even when that side never sends.
pub proof fn lemma_disconnect_closes_session(open: bool, events: Seq<SessionEvent>, i: int)
    requires
        0 <= i < events.len(),
        ends_session(events[i]),
    ensures
        !open_after(open, events),
    decreases events.len(),
{
    if i == 0 {
        lemma_closed_stays_closed(events.drop_first());
    } else {
        lemma_disconnect_closes_session(
            open && !ends_session(events[0]),
            events.drop_first(),
            i - 1,
        );
    }
}

/// A closed session never opens again.
pub proof fn lemma_closed_stays_closed(events: Seq<SessionEvent>)
    ensures
        !open_after(false, events),
    decreases events.len(),
{
    if events.len() > 0 {
        lemma_closed_stays_closed(events.drop_first());
    }
}

} // verus!
