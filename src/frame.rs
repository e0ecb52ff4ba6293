//! Wire frames: a 12-byte nonce followed by the AEAD ciphertext.

use vstd::prelude::*;
use crate::codec::NONCE_LEN;

verus! {

/// The received byte run is shorter than a nonce and is not a frame.
#[derive(Debug, Clone, Copy, PartialEq, Eq, Structural)]
pub struct FrameTooShortError;

/// The bytes of the frame that carries `ciphertext` under `nonce`.
pub open spec fn frame_bytes(nonce: Seq<u8>, ciphertext: Seq<u8>) -> Seq<u8> {
    nonce + ciphertext
}

/// Lays out `nonce || ciphertext` as one buffer, ready for a single write.
pub fn build_frame(nonce: &[u8; 12], ciphertext: &[u8]) -> (r: Vec<u8>)
    ensures
        r@ == frame_bytes(nonce@, ciphertext@),
{
    let mut out: Vec<u8> = Vec::new();
    let mut i: usize = 0;
    while i < NONCE_LEN
        invariant
            i <= NONCE_LEN,
            out@ == nonce@.subrange(0, i as int),
        decreases NONCE_LEN - i,
    {
        out.push(nonce[i]);
        i = i + 1;
        assert(out@ =~= nonce@.subrange(0, i as int));
    }
    let mut j: usize = 0;
    while j < ciphertext.len()
        invariant
            j <= ciphertext@.len(),
            out@ == nonce@ + ciphertext@.subrange(0, j as int),
        decreases ciphertext@.len() - j,
    {
        out.push(ciphertext[j]);
        j = j + 1;
        assert(out@ =~= nonce@ + ciphertext@.subrange(0, j as int));
    }
    assert(ciphertext@.subrange(0, j as int) =~= ciphertext@);
    out
}

/// Splits a received buffer into its nonce (the first 12 bytes) and its
/// ciphertext (the rest). Fails exactly when the buffer is shorter than 12
/// bytes.
pub fn split_frame(buffer: &[u8]) -> (r: Result<([u8; 12], Vec<u8>), FrameTooShortError>)
    ensures
        r is Err <==> buffer@.len() < NONCE_LEN,
        r matches Ok((nonce, ciphertext)) ==> {
            &&& nonce@ == buffer@.subrange(0, NONCE_LEN as int)
            &&& ciphertext@ == buffer@.subrange(NONCE_LEN as int, buffer@.len() as int)
            &&& buffer@ == frame_bytes(nonce@, ciphertext@)
        },
{
    if buffer.len() < NONCE_LEN {
        return Err(FrameTooShortError);
    }
    let mut nonce = [0u8; 12];
    let mut i: usize = 0;
    while i < NONCE_LEN
        invariant
            i <= NONCE_LEN <= buffer@.len(),
            forall|k: int| 0 <= k < i ==> nonce@[k] == buffer@[k],
        decreases NONCE_LEN - i,
    {
        nonce[i] = buffer[i];
        i = i + 1;
    }
    let mut ciphertext: Vec<u8> = Vec::new();
    let mut j: usize = NONCE_LEN;
    while j < buffer.len()
        invariant
            NONCE_LEN <= j <= buffer@.len(),
            forall|k: int| 0 <= k < NONCE_LEN ==> nonce@[k] == buffer@[k],
            ciphertext@ == buffer@.subrange(NONCE_LEN as int, j as int),
        decreases buffer@.len() - j,
    {
        ciphertext.push(buffer[j]);
        j = j + 1;
        assert(ciphertext@ =~= buffer@.subrange(NONCE_LEN as int, j as int));
    }
    assert(nonce@ =~= buffer@.subrange(0, NONCE_LEN as int));
    assert(buffer@ =~= frame_bytes(nonce@, ciphertext@));
    Ok((nonce, ciphertext))
}

/// Splitting a frame that `build_frame` laid out gives back its nonce and
/// ciphertext.
pub proof fn lemma_split_of_built_frame(nonce: Seq<u8>, ciphertext: Seq<u8>)
    requires
        nonce.len() == NONCE_LEN,
    ensures
        frame_bytes(nonce, ciphertext).subrange(0, NONCE_LEN as int) == nonce,
        frame_bytes(nonce, ciphertext).subrange(
            NONCE_LEN as int,
            frame_bytes(nonce, ciphertext).len() as int,
        ) == ciphertext,
{
    assert(frame_bytes(nonce, ciphertext).subrange(0, NONCE_LEN as int) =~= nonce);
    assert(frame_bytes(nonce, ciphertext).subrange(
        NONCE_LEN as int,
        frame_bytes(nonce, ciphertext).len() as int,
    ) =~= ciphertext);
}

} // verus!
