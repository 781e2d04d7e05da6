//! Frame encryption for the Noise transport: AES-GCM sealing with
//! per-direction counters, and the 3-byte length framing around each frame.

use vstd::prelude::*;
use vstd::string::*;
use wacore::noise::{NoiseCipher, NoiseError};

use crate::error::ConnectionError;

verus! {

broadcast use vstd::string::group_string_axioms;

/// wacore's AES-256-GCM transport cipher.
#[verifier::external_type_specification]
#[verifier::external_body]
pub struct ExNoiseCipher(wacore::noise::NoiseCipher);

/// wacore's Noise error.
#[verifier::external_type_specification]
#[verifier::external_body]
pub struct ExNoiseError(wacore::noise::NoiseError);

/// anyhow's error, as the framing functions return it.
#[verifier::external_type_specification]
#[verifier::external_body]
pub struct ExAnyhowError(anyhow::Error);

/// Length of the authentication tag AES-GCM appends.
pub const TAG_LEN: usize = 16;

/// A frame's payload must be shorter than this (its length fits 3 bytes).
pub const FRAME_MAX_SIZE: usize = 16777216;

/// The 3-byte big-endian length prefix of a frame whose payload has `len` bytes.
pub open spec fn frame_prefix(len: nat) -> Seq<u8> {
    seq![((len / 65536) % 256) as u8, ((len / 256) % 256) as u8, (len % 256) as u8]
}

/// The length prefix reads back as the payload length for every payload a
/// frame can carry (shorter than 2^24 bytes).
pub proof fn lemma_frame_prefix_roundtrip(len: nat)
    requires
        len < FRAME_MAX_SIZE,
    ensures
        frame_prefix(len).len() == 3,
        frame_prefix(len)[0] as nat * 65536 + frame_prefix(len)[1] as nat * 256 + frame_prefix(len)[2] as nat == len,
{
    let p = frame_prefix(len);
    assert(p[0] == ((len / 65536) % 256) as u8);
    assert((len / 65536) % 256 == len / 65536);
    assert(((len / 65536) % 256) as u8 as nat == len / 65536);
    assert(((len / 256) % 256) as u8 as nat == (len / 256) % 256);
    assert((len % 256) as u8 as nat == len % 256);
    assert((len / 65536) * 65536 + ((len / 256) % 256) * 256 + len % 256 == len) by (nonlinear_arith)
        requires
            len >= 0,
    ;
}

/// A payload laid out as a frame: its length prefix, then the payload.
pub open spec fn framed(payload: Seq<u8>) -> Seq<u8> {
    frame_prefix(payload.len()) + payload
}

/// What a cipher call was handed: the cipher, the counter that gives the
/// nonce, and the bytes it sealed or opened.
pub open spec fn cipher_call(cipher: NoiseCipher, counter: u32, bytes: Seq<u8>) -> (NoiseCipher, u32, Seq<u8>) {
    (cipher, counter, bytes)
}

/// Seals `plaintext` with wacore's `NoiseCipher::encrypt_in_place_with_counter`,
/// the counter giving the nonce; the sealed bytes come back with a record of
/// the cipher, counter and plaintext the call was handed.  wacore documents
/// that the buffer then holds the ciphertext followed by a 16-byte tag, so
/// on success the result is 16 bytes longer than the plaintext.  The
/// ciphertext bytes depend on the cipher's key, which is opaque here, and
/// are not stated.
#[verifier::external_body]
fn seal_with_counter(cipher: &NoiseCipher, counter: u32, plaintext: &[u8]) -> (r: Result<(Vec<u8>, Ghost<(NoiseCipher, u32, Seq<u8>)>), NoiseError>)
    ensures
        r matches Ok((c, call)) ==> c@.len() == plaintext@.len() + TAG_LEN && call@ == cipher_call(*cipher, counter, plaintext@),
{
    let mut buffer = plaintext.to_vec();
    cipher.encrypt_in_place_with_counter(counter, &mut buffer).map(|_| (buffer, Ghost(cipher_call(*cipher, counter, plaintext@))))
}

/// Opens `ciphertext` with wacore's `NoiseCipher::decrypt_in_place_with_counter`,
/// the counter giving the nonce; on success a record of the cipher, counter
/// and ciphertext the call was handed comes back.  wacore documents that on
/// success the buffer holds the plaintext with the 16-byte tag removed; the
/// plaintext bytes depend on the opaque key and are not stated.
#[verifier::external_body]
fn open_with_counter(cipher: &NoiseCipher, counter: u32, ciphertext: &mut Vec<u8>) -> (r: Result<Ghost<(NoiseCipher, u32, Seq<u8>)>, NoiseError>)
    ensures
        r matches Ok(call) ==> final(ciphertext)@.len() + TAG_LEN == old(ciphertext)@.len()
            && call@ == cipher_call(*cipher, counter, old(ciphertext)@),
{
    let call = Ghost(cipher_call(*cipher, counter, ciphertext@));
    cipher.decrypt_in_place_with_counter(counter, ciphertext).map(|_| call)
}

/// The message of a wacore Noise error (its `Display`).
#[verifier::external_body]
fn noise_error_text(e: &NoiseError) -> String {
    format!("{e}")
}

/// The message of an anyhow error (its `Display`).
#[verifier::external_body]
fn anyhow_error_text(e: &anyhow::Error) -> String {
    format!("{e}")
}

/// Lays `payload` out as a frame with wacore's `framing::encode_frame_into`
/// and no header: it refuses a payload of 2^24 bytes or more, and otherwise
/// writes the 3-byte big-endian length followed by the payload.
#[verifier::external_body]
fn encode_frame(payload: &[u8]) -> (r: Result<Vec<u8>, anyhow::Error>)
    ensures
        r is Ok <==> payload@.len() < FRAME_MAX_SIZE,
        r matches Ok(f) ==> f@ == framed(payload@),
{
    let mut out: Vec<u8> = Vec::new();
    wacore::framing::encode_frame_into(payload, None, &mut out).map(|_| out)
}

/// A framed ciphertext and what it was sealed with: the cipher, the nonce
/// (counter) and the plaintext.
pub struct Sealed {
    pub frame: Vec<u8>,
    pub sealed_with: Ghost<(NoiseCipher, u32, Seq<u8>)>,
}

/// Encrypts and frames a plaintext payload for sending.
///
/// Returns the framed ciphertext, sealed by `cipher` over `plaintext` with
/// `counter` as nonce: the length prefix of the sealed payload (plaintext
/// plus tag), then the sealed payload.  A sealing failure is an `Encrypt`
/// error; a sealed payload too large for a frame is a `Protocol` error.
pub fn encrypt_and_frame(cipher: &NoiseCipher, counter: u32, plaintext: &[u8]) -> (r: Result<Sealed, ConnectionError>)
    ensures
        r matches Ok(s) ==> {
            &&& s.sealed_with@ == cipher_call(*cipher, counter, plaintext@)
            &&& s.frame@.len() == 3 + plaintext@.len() + TAG_LEN
            &&& s.frame@.take(3) == frame_prefix((plaintext@.len() + TAG_LEN) as nat)
        },
        r matches Err(e) ==> (e is Encrypt || e is Protocol),
        r matches Err(ConnectionError::Encrypt(m)) ==> m@.take(16) == "encrypt failed: "@,
        r matches Err(ConnectionError::Protocol(_)) ==> plaintext@.len() + TAG_LEN >= FRAME_MAX_SIZE,
        plaintext@.len() + TAG_LEN >= FRAME_MAX_SIZE ==> r is Err,
{
    let (sealed, call) = match seal_with_counter(cipher, counter, plaintext) {
        Ok(c) => c,
        Err(e) => {
            let mut msg = "encrypt failed: ".to_string();
            let ghost prefix = msg@;
            msg.append(noise_error_text(&e).as_str());
            proof {
                reveal_strlit("encrypt failed: ");
                assert(msg@.take(16) =~= prefix);
            }
            return Err(ConnectionError::Encrypt(msg));
        },
    };
    match encode_frame(sealed.as_slice()) {
        Ok(f) => {
            assert(f@.take(3) =~= frame_prefix(sealed@.len()));
            Ok(Sealed { frame: f, sealed_with: call })
        },
        Err(e) => {
            let mut msg = "frame encode failed: ".to_string();
            msg.append(anyhow_error_text(&e).as_str());
            Err(ConnectionError::Protocol(msg))
        },
    }
}

/// Decrypts a received frame in place, by `cipher` with `counter` as nonce.
///
/// On success `ciphertext` holds the plaintext, 16 bytes shorter, and a
/// record of the cipher, nonce and ciphertext opened comes back; a failure
/// is a `Decrypt` error whose message starts with `decrypt failed: `.
pub fn decrypt_frame(cipher: &NoiseCipher, counter: u32, ciphertext: &mut Vec<u8>) -> (r: Result<Ghost<(NoiseCipher, u32, Seq<u8>)>, ConnectionError>)
    ensures
        r matches Ok(call) ==> final(ciphertext)@.len() + TAG_LEN == old(ciphertext)@.len()
            && call@ == cipher_call(*cipher, counter, old(ciphertext)@),
        r matches Err(e) ==> e is Decrypt,
        r matches Err(ConnectionError::Decrypt(m)) ==> m@.take(16) == "decrypt failed: "@,
{
    match open_with_counter(cipher, counter, ciphertext) {
        Ok(call) => Ok(call),
        Err(e) => {
            let mut msg = "decrypt failed: ".to_string();
            let ghost prefix = msg@;
            msg.append(noise_error_text(&e).as_str());
            proof {
                reveal_strlit("decrypt failed: ");
                assert(msg@.take(16) =~= prefix);
            }
            Err(ConnectionError::Decrypt(msg))
        },
    }
}

/// A Noise socket that handles per-direction encryption/decryption counters.
///
/// Each direction uses its counter as the AES-GCM nonce; a counter is never
/// wrapped, so no nonce is used twice under one key.
pub struct NoiseSocket {
    read_cipher: NoiseCipher,
    read_counter: u32,
    write_cipher: NoiseCipher,
    write_counter: u32,
}

impl NoiseSocket {
    /// The counter the next received frame is opened with.
    pub closed spec fn read_count(&self) -> u32 {
        self.read_counter
    }

    /// The counter the next sent frame is sealed with.
    pub closed spec fn write_count(&self) -> u32 {
        self.write_counter
    }

    /// The cipher sent frames are sealed with.
    pub closed spec fn sealing_cipher(&self) -> NoiseCipher {
        self.write_cipher
    }

    /// The cipher received frames are opened with.
    pub closed spec fn opening_cipher(&self) -> NoiseCipher {
        self.read_cipher
    }

    /// Create a new NoiseSocket from the handshake-derived cipher pair; both
    /// counters start at 0.
    pub fn new(write_cipher: NoiseCipher, read_cipher: NoiseCipher) -> (r: Self)
        ensures
            r.read_count() == 0,
            r.write_count() == 0,
            r.sealing_cipher() == write_cipher,
            r.opening_cipher() == read_cipher,
    {
        NoiseSocket { read_cipher, read_counter: 0, write_cipher, write_counter: 0 }
    }

    /// Create a socket whose counters resume at the given values.
    pub fn with_counters(write_cipher: NoiseCipher, read_cipher: NoiseCipher, write_counter: u32, read_counter: u32) -> (r: Self)
        ensures
            r.read_count() == read_counter,
            r.write_count() == write_counter,
            r.sealing_cipher() == write_cipher,
            r.opening_cipher() == read_cipher,
    {
        NoiseSocket { read_cipher, read_counter, write_cipher, write_counter }
    }

    /// The counter the next sent frame is sealed with.
    pub fn write_counter(&self) -> (r: u32)
        ensures
            r == self.write_count(),
    {
        self.write_counter
    }

    /// The counter the next received frame is opened with.
    pub fn read_counter(&self) -> (r: u32)
        ensures
            r == self.read_count(),
    {
        self.read_counter
    }

    /// Encrypt and frame a payload with the sealing cipher and the current
    /// write counter as nonce.
    ///
    /// The counter is refused once it reaches `u32::MAX` ("write counter
    /// exhausted"), and only then: wrapping it would reuse a nonce.  The
    /// counter does not move here; `finish_send` advances it once the frame
    /// has been sent.
    pub fn prepare_send(&self, plaintext: &[u8]) -> (r: Result<Sealed, ConnectionError>)
        ensures
            (r matches Err(ConnectionError::Encrypt(m)) && m@ == "write counter exhausted"@)
                <==> self.write_count() == u32::MAX,
            r matches Ok(s) ==> {
                &&& s.sealed_with@ == cipher_call(self.sealing_cipher(), self.write_count(), plaintext@)
                &&& s.frame@.len() == 3 + plaintext@.len() + TAG_LEN
                &&& s.frame@.take(3) == frame_prefix((plaintext@.len() + TAG_LEN) as nat)
            },
            r is Ok ==> self.write_count() < u32::MAX,
            r matches Err(ConnectionError::Protocol(_)) ==> plaintext@.len() + TAG_LEN >= FRAME_MAX_SIZE,
            self.write_count() < u32::MAX ==> (r matches Err(ConnectionError::Encrypt(m)) ==> m@.take(16) == "encrypt failed: "@),
            r matches Err(e) ==> (e is Encrypt || e is Protocol),
    {
        if self.write_counter == u32::MAX {
            return Err(ConnectionError::Encrypt("write counter exhausted".to_string()));
        }
        let r = encrypt_and_frame(&self.write_cipher, self.write_counter, plaintext);
        proof {
            reveal_strlit("write counter exhausted");
            reveal_strlit("encrypt failed: ");
            match &r {
                Err(ConnectionError::Encrypt(m)) => {
                    assert(m@.take(16)[0] != "write counter exhausted"@[0]);
                },
                _ => {},
            }
        }
        r
    }

    /// Advance the write counter after a frame sealed with it was sent.
    pub fn commit_send(&mut self)
        requires
            old(self).write_count() < u32::MAX,
        ensures
            final(self).write_count() == old(self).write_count() + 1,
            final(self).read_count() == old(self).read_count(),
            final(self).sealing_cipher() == old(self).sealing_cipher(),
            final(self).opening_cipher() == old(self).opening_cipher(),
    {
        self.write_counter = self.write_counter + 1;
    }

    /// Settle a send prepared with `prepare_send`: the write counter moves on
    /// by one exactly when the frame went out (and the counter is not
    /// exhausted); a failed send leaves it where it was.
    pub fn finish_send(&mut self, sent: bool)
        ensures
            final(self).write_count() == count_after_send(old(self).write_count(), sent),
            final(self).read_count() == old(self).read_count(),
            final(self).sealing_cipher() == old(self).sealing_cipher(),
            final(self).opening_cipher() == old(self).opening_cipher(),
    {
        if sent && self.write_counter < u32::MAX {
            self.write_counter = self.write_counter + 1;
        }
    }

    /// Decrypt a received frame in place with the opening cipher and the
    /// current read counter as nonce; on success a record of the cipher,
    /// nonce and frame opened comes back.
    ///
    /// The counter advances before the frame is opened, whether or not it
    /// opens; once it has reached `u32::MAX` it is refused ("read counter
    /// exhausted"), and only then, and stays where it is.
    pub fn decrypt_frame(&mut self, ciphertext: &mut Vec<u8>) -> (r: Result<Ghost<(NoiseCipher, u32, Seq<u8>)>, ConnectionError>)
        ensures
            r matches Ok(call) ==> call@ == cipher_call(old(self).opening_cipher(), old(self).read_count(), old(ciphertext)@),
            (r matches Err(ConnectionError::Decrypt(m)) && m@ == "read counter exhausted"@)
                <==> old(self).read_count() == u32::MAX,
            old(self).read_count() == u32::MAX ==> {
                &&& r matches Err(ConnectionError::Decrypt(m))
                &&& m@ == "read counter exhausted"@
                &&& final(self).read_count() == old(self).read_count()
                &&& final(ciphertext)@ == old(ciphertext)@
            },
            old(self).read_count() < u32::MAX ==> {
                &&& final(self).read_count() == old(self).read_count() + 1
                &&& (r is Ok ==> final(ciphertext)@.len() + TAG_LEN == old(ciphertext)@.len())
                &&& (r matches Err(e) ==> e is Decrypt)
                &&& (r matches Err(ConnectionError::Decrypt(m)) ==> m@.take(16) == "decrypt failed: "@)
            },
            final(self).write_count() == old(self).write_count(),
            final(self).sealing_cipher() == old(self).sealing_cipher(),
            final(self).opening_cipher() == old(self).opening_cipher(),
    {
        if self.read_counter == u32::MAX {
            return Err(ConnectionError::Decrypt("read counter exhausted".to_string()));
        }
        let counter = self.read_counter;
        self.read_counter = counter + 1;
        let r = decrypt_frame(&self.read_cipher, counter, ciphertext);
        proof {
            reveal_strlit("read counter exhausted");
            reveal_strlit("decrypt failed: ");
            match &r {
                Err(ConnectionError::Decrypt(m)) => {
                    assert(m@.take(16)[0] != "read counter exhausted"@[0]);
                },
                _ => {},
            }
        }
        r
    }
}

/// The write counter after a send with the given outcome.
pub open spec fn count_after_send(count: u32, sent: bool) -> u32 {
    if sent && count < u32::MAX { (count + 1) as u32 } else { count }
}

/// How many of the sends in `outcomes` went out.
pub open spec fn successes(outcomes: Seq<bool>) -> nat
    decreases outcomes.len(),
{
    if outcomes.len() == 0 {
        0
    } else {
        successes(outcomes.drop_last()) + if outcomes.last() { 1nat } else { 0nat }
    }
}

/// The write counter after a run of sends with these outcomes, from `start`.
pub open spec fn count_after_sends(start: u32, outcomes: Seq<bool>) -> u32
    decreases outcomes.len(),
{
    if outcomes.len() == 0 {
        start
    } else {
        count_after_send(count_after_sends(start, outcomes.drop_last()), outcomes.last())
    }
}

/// The counters the frames that went out were sealed with, in order: each
/// send is sealed with the counter as it stands before it.
pub open spec fn sent_nonces(start: u32, outcomes: Seq<bool>) -> Seq<u32>
    decreases outcomes.len(),
{
    if outcomes.len() == 0 {
        Seq::empty()
    } else {
        let before = sent_nonces(start, outcomes.drop_last());
        if outcomes.last() {
            before.push(count_after_sends(start, outcomes.drop_last()))
        } else {
            before
        }
    }
}

/// Along any run of sends from a socket's counter (`prepare_send` with the
/// counter, the transport's outcome, then `finish_send`), while the counter
/// is not exhausted the frames that went out were sealed with `start`,
/// `start + 1`, ... in order, so none twice, and the counter ends after the
/// last of them.
pub proof fn lemma_sent_nonces(start: u32, outcomes: Seq<bool>)
    requires
        start + successes(outcomes) <= u32::MAX,
    ensures
        sent_nonces(start, outcomes).len() == successes(outcomes),
        forall|i: int| 0 <= i < sent_nonces(start, outcomes).len() ==> #[trigger] sent_nonces(start, outcomes)[i] == start + i,
        count_after_sends(start, outcomes) == start + successes(outcomes),
    decreases outcomes.len(),
{
    if outcomes.len() > 0 {
        let rest = outcomes.drop_last();
        lemma_sent_nonces(start, rest);
        let before = sent_nonces(start, rest);
        if outcomes.last() {
            assert forall|i: int| 0 <= i < sent_nonces(start, outcomes).len() implies #[trigger] sent_nonces(start, outcomes)[i] == start + i by {
                if i < before.len() {
                    assert(sent_nonces(start, outcomes)[i] == before[i]);
                }
            }
        }
    }
}

/// No nonce is used twice in a direction: each send is sealed with the
/// write counter and then moves it on by one, so along any run of sends the
/// counters sealed with are strictly increasing.
pub proof fn lemma_write_nonces_increase(counts: Seq<u32>)
    requires
        forall|i: int| 0 <= i < counts.len() - 1 ==> #[trigger] counts[i + 1] == counts[i] + 1,
    ensures
        forall|i: int, j: int| 0 <= i < j < counts.len() ==> counts[i] < counts[j],
    decreases counts.len(),
{
    if counts.len() > 1 {
        let rest = counts.drop_last();
        assert forall|i: int| 0 <= i < rest.len() - 1 implies #[trigger] rest[i + 1] == rest[i] + 1 by {
            assert(counts[i + 1] == counts[i] + 1);
        }
        lemma_write_nonces_increase(rest);
        assert forall|i: int, j: int| 0 <= i < j < counts.len() implies counts[i] < counts[j] by {
            if j < counts.len() - 1 {
                assert(rest[i] < rest[j]);
            } else {
                let k = j - 1;
                assert(counts[k + 1] == counts[k] + 1);
                if i < j - 1 {
                    assert(rest[i] < rest[j - 1]);
                }
            }
        }
    }
}

} // verus!
