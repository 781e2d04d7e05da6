//! The cryptographic steps of pairing, around wacore's pairing utilities:
//! the signed device identity that answers `<pair-success>`, and the
//! pair-code exchange that follows the phone's confirmation.

use vstd::prelude::*;
use vstd::string::*;

use vstd::utf8::encode_utf8;

use crate::connection::{InfoQuery, InfoQueryType};
use crate::error::{AuthError, ClientError};
use crate::handlers::server_jid_view;
use crate::pair::{
    PairCodeConfirmation, PairSuccessInfo, PairedDeviceUpdate, ascii_digits, bytes_content, companion_hello_query,
    is_paired_update, pair_request_id, pair_success_carries, pair_success_error, paired_device_update,
    parse_pair_success, phone_error, sanitize_phone,
};
use crate::stanza::{Stanza, StanzaContent, child_with_tag};
use crate::text::{decimal_string, decimal_text, hex_text, zero_padded};
use crate::wire::stanza_from_wire;

verus! {

broadcast use vstd::string::group_string_axioms;

/// wacore's pairing key material: the identity and noise key pairs and the
/// ADV secret.
#[verifier::external_type_specification]
#[verifier::external_body]
pub struct ExDeviceState(wacore::pair::DeviceState);

/// A failed pairing crypto step: wacore's error code and text.
#[derive(Debug)]
pub struct PairCryptoFailure {
    pub code: u16,
    pub text: String,
}

/// The key index of the ADV device identity that device-identity bytes
/// carry (their HMAC container's details, decoded as a signed identity,
/// whose details decode to the identity with its `key_index`).
pub uninterp spec fn adv_key_index(device_identity: Seq<u8>) -> u32;

/// Verifies the server's signed device identity and signs it with our
/// identity key, with wacore's `PairUtils::do_pair_crypto`: on success the
/// re-encoded signed identity and the key index it names.
///
/// Trusted: the key index returned is the one the bytes carry (named,
/// `adv_key_index`).  The signed bytes are not stated: the signature added
/// is randomized.  Whether the checks (HMAC with the ADV secret, account
/// signature) pass is not stated either: it rests on the key material,
/// which is opaque here.  Its error is moved into `PairCryptoFailure`.
#[verifier::external_body]
fn pair_crypto(state: &wacore::pair::DeviceState, device_identity: &[u8]) -> (r: Result<(Vec<u8>, u32), PairCryptoFailure>)
    ensures
        r is Ok ==> r.unwrap().1 == adv_key_index(device_identity@),
{
    wacore::pair::PairUtils::do_pair_crypto(state, device_identity)
        .map_err(|e| PairCryptoFailure { code: e.code, text: e.text.to_string() })
}

/// Whether `r` is the `<pair-device-sign>` answer to the pair-success IQ
/// `req_id`: a `result` IQ to the server holding the signed identity bytes
/// under `<device-identity key-index="{key_index}">`.
pub open spec fn is_pair_device_sign(r: Stanza, req_id: Seq<char>, identity: Seq<u8>, key_index: u32) -> bool {
    &&& r.tag@ == "iq"@
    &&& r.attrs@.len() == 3
    &&& r.attrs@[0].key@ == "to"@ && r.attrs@[0].value@ == "s.whatsapp.net"@
    &&& r.attrs@[1].key@ == "id"@ && r.attrs@[1].value@ == req_id
    &&& r.attrs@[2].key@ == "type"@ && r.attrs@[2].value@ == "result"@
    &&& r.content matches Some(StanzaContent::Nodes(cs)) && cs@.len() == 1 && {
        let sign = cs@[0];
        &&& sign.tag@ == "pair-device-sign"@
        &&& sign.attrs@.len() == 0
        &&& sign.content matches Some(StanzaContent::Nodes(ds)) && ds@.len() == 1 && {
            let d = ds@[0];
            &&& d.tag@ == "device-identity"@
            &&& d.attrs@.len() == 1
            &&& d.attrs@[0].key@ == "key-index"@ && d.attrs@[0].value@ == decimal_text(key_index as nat)
            &&& d.content matches Some(StanzaContent::Bytes(b)) && b@ == identity
        }
    }
}

/// Builds the `<pair-device-sign>` answer with wacore's
/// `PairUtils::build_pair_success_response`.
///
/// Trusted: the shape stated is the node its source builds (the server JID
/// `s.whatsapp.net`, the key index written in decimal).
#[verifier::external_body]
fn pair_device_sign(req_id: &str, signed_identity: Vec<u8>, key_index: u32) -> (r: Stanza)
    ensures
        is_pair_device_sign(r, req_id@, signed_identity@, key_index),
{
    stanza_from_wire(&wacore::pair::PairUtils::build_pair_success_response(req_id, signed_identity, key_index))
}

/// The message of a failed pairing crypto step.
pub open spec fn pair_crypto_failed_text(code: u16, text: Seq<char>) -> Seq<char> {
    "crypto validation failed ("@ + decimal_text(code as nat) + "): "@ + text
}

/// What handling a `<pair-success>` produces: what it carried, the answer to
/// send, and the changes to the stored device.
#[derive(Debug)]
pub struct PairSuccessOutcome {
    pub info: PairSuccessInfo,
    pub response: Stanza,
    pub update: PairedDeviceUpdate,
}

/// The outcome of a `<pair-success>` once the crypto step has run: a failed
/// step is a `PairFailed` naming its code and text; otherwise the signed
/// identity and key index are answered to the IQ's id, and the device takes
/// the pairing's changes.
pub fn pair_success_outcome(info: PairSuccessInfo, crypto: Result<(Vec<u8>, u32), PairCryptoFailure>) -> (r: Result<PairSuccessOutcome, ClientError>)
    ensures
        match crypto {
            Err(f) => r matches Err(ClientError::Auth(AuthError::PairFailed(m))) && m@ == pair_crypto_failed_text(f.code, f.text@),
            Ok((bytes, key_index)) => r matches Ok(o) && {
                &&& o.info == info
                &&& is_pair_device_sign(o.response, info.req_id@, bytes@, key_index)
                &&& is_paired_update(info, o.update)
            },
        },
{
    match crypto {
        Err(f) => {
            let mut msg = "crypto validation failed (".to_string();
            let code = decimal_string(f.code as u64);
            msg.append(code.as_str());
            msg.append("): ");
            msg.append(f.text.as_str());
            assert(msg@ =~= pair_crypto_failed_text(f.code, f.text@));
            Err(ClientError::Auth(AuthError::PairFailed(msg)))
        },
        Ok((bytes, key_index)) => {
            let response = pair_device_sign(info.req_id.as_str(), bytes, key_index);
            let update = paired_device_update(&info);
            Ok(PairSuccessOutcome { info, response, update })
        },
    }
}

/// Handle a `<pair-success>` IQ from the server: read it, run the crypto
/// step on its device identity with our key material, and produce the
/// signed answer and the device changes.
///
/// A malformed IQ is the protocol error `parse_pair_success` names; a failed
/// crypto step is a `PairFailed` naming wacore's code and text.
pub fn handle_pair_success(state: &wacore::pair::DeviceState, node: &Stanza) -> (r: Result<PairSuccessOutcome, ClientError>)
    ensures
        match pair_success_error(*node) {
            Some(m) => r matches Err(ClientError::Protocol(x)) && x@ == m,
            None => match r {
                Err(e) => e matches ClientError::Auth(AuthError::PairFailed(m))
                    && exists|code: u16, text: Seq<char>| m@ == #[trigger] pair_crypto_failed_text(code, text),
                Ok(o) => {
                    &&& pair_success_carries(*node, o.info)
                    &&& is_paired_update(o.info, o.update)
                    &&& exists|bytes: Seq<u8>|
                        #[trigger] is_pair_device_sign(o.response, o.info.req_id@, bytes, adv_key_index(o.info.device_identity@))
                },
            },
        },
{
    let info = match parse_pair_success(node) {
        Ok(i) => i,
        Err(e) => return Err(e),
    };
    let crypto = pair_crypto(state, info.device_identity.as_slice());
    pair_success_outcome(info, crypto)
}

/// The companion client type written at the end of a QR code.
#[derive(Clone, Copy, Debug, PartialEq, Eq, Structural)]
pub enum CompanionClientType {
    Chrome,
    Edge,
    Firefox,
    Ie,
    Opera,
    Safari,
    Electron,
    Uwp,
    OtherWebClient,
    AndroidTablet,
    AndroidPhone,
    AndroidAmbiguous,
}

/// The character a client type is written as (wacore's
/// `CompanionWebClientType::wire_byte`).
pub open spec fn client_type_char(t: CompanionClientType) -> char {
    match t {
        CompanionClientType::Chrome => '1',
        CompanionClientType::Edge => '2',
        CompanionClientType::Firefox => '3',
        CompanionClientType::Ie => '4',
        CompanionClientType::Opera => '5',
        CompanionClientType::Safari => '6',
        CompanionClientType::Electron => '7',
        CompanionClientType::Uwp => '8',
        CompanionClientType::OtherWebClient => '9',
        CompanionClientType::AndroidTablet => 'd',
        CompanionClientType::AndroidPhone => 'e',
        CompanionClientType::AndroidAmbiguous => 'f',
    }
}

/// wacore's companion client type for ours, one arm per variant.
#[verifier::external_body]
fn wire_client_type(t: CompanionClientType) -> wacore::companion_reg::CompanionWebClientType {
    match t {
        CompanionClientType::Chrome => wacore::companion_reg::CompanionWebClientType::Chrome,
        CompanionClientType::Edge => wacore::companion_reg::CompanionWebClientType::Edge,
        CompanionClientType::Firefox => wacore::companion_reg::CompanionWebClientType::Firefox,
        CompanionClientType::Ie => wacore::companion_reg::CompanionWebClientType::Ie,
        CompanionClientType::Opera => wacore::companion_reg::CompanionWebClientType::Opera,
        CompanionClientType::Safari => wacore::companion_reg::CompanionWebClientType::Safari,
        CompanionClientType::Electron => wacore::companion_reg::CompanionWebClientType::Electron,
        CompanionClientType::Uwp => wacore::companion_reg::CompanionWebClientType::Uwp,
        CompanionClientType::OtherWebClient => wacore::companion_reg::CompanionWebClientType::OtherWebClient,
        CompanionClientType::AndroidTablet => wacore::companion_reg::CompanionWebClientType::AndroidTablet,
        CompanionClientType::AndroidPhone => wacore::companion_reg::CompanionWebClientType::AndroidPhone,
        CompanionClientType::AndroidAmbiguous => wacore::companion_reg::CompanionWebClientType::AndroidAmbiguous,
    }
}

/// wacore's companion client type.
#[verifier::external_type_specification]
#[verifier::external_body]
pub struct ExCompanionWebClientType(wacore::companion_reg::CompanionWebClientType);

/// The standard (padded) base64 text that the `base64` crate's
/// `BASE64_STANDARD.encode` writes for `bytes`, as `make_qr_data` uses it.
pub uninterp spec fn standard_base64(bytes: Seq<u8>) -> Seq<char>;

/// The QR string for pairing ref `r`: the ref, the base64 of the noise
/// public key, of the identity public key and of the ADV secret, and the
/// client type's character, joined by commas.
pub open spec fn qr_text(r: Seq<char>, noise_pub: Seq<u8>, identity_pub: Seq<u8>, adv_secret: Seq<u8>, t: CompanionClientType) -> Seq<char> {
    r + ","@ + standard_base64(noise_pub) + ","@ + standard_base64(identity_pub) + ","@
        + standard_base64(adv_secret) + ","@ + seq![client_type_char(t)]
}

/// The QR string for one pairing ref, with wacore's `PairUtils::make_qr_data`
/// (`{ref},{noise},{identity},{adv},{client_type}`).
///
/// Trusted: the string is stated over a name for the base64 encoding
/// (`standard_base64`).  `make_qr_data` reads only the two public keys and
/// the ADV secret of the key material it is given, so the key pairs handed
/// to it here carry the given public keys and a private key it never reads.
#[verifier::external_body]
fn qr_data(noise_pub: &[u8], identity_pub: &[u8], adv_secret: &[u8], r: &str, t: CompanionClientType) -> (code: String)
    requires
        noise_pub@.len() == 32,
        identity_pub@.len() == 32,
        adv_secret@.len() == 32,
    ensures
        code@ == r@ + ","@ + standard_base64(noise_pub@) + ","@ + standard_base64(identity_pub@) + ","@
            + standard_base64(adv_secret@) + ","@ + seq![client_type_char(t)],
{
    let key_pair = |public: &[u8]| wacore::libsignal::protocol::KeyPair::new(
        wacore::libsignal::protocol::PublicKey::from_djb_public_key_bytes(public).unwrap(),
        wacore::libsignal::protocol::PrivateKey::deserialize(&[1u8; 32]).unwrap());
    let state = wacore::pair::DeviceState {
        identity_key: key_pair(identity_pub), noise_key: key_pair(noise_pub), adv_secret_key: adv_secret.try_into().unwrap() };
    wacore::pair::PairUtils::make_qr_data(&state, r, wire_client_type(t))
}

/// The QR strings for the pairing refs the server offered, in order: one
/// per ref, each the full `qr_text` of its ref with our noise and identity
/// public keys, ADV secret and client type.
pub fn qr_codes(noise_pub: &[u8], identity_pub: &[u8], adv_secret: &[u8], refs: &Vec<String>, client_type: CompanionClientType) -> (r: Vec<String>)
    requires
        noise_pub@.len() == 32,
        identity_pub@.len() == 32,
        adv_secret@.len() == 32,
    ensures
        r@.len() == refs@.len(),
        forall|i: int| 0 <= i < refs@.len() ==> #[trigger] r@[i]@ == qr_text(refs@[i]@, noise_pub@, identity_pub@, adv_secret@, client_type),
{
    let mut codes: Vec<String> = Vec::new();
    let mut i: usize = 0;
    while i < refs.len()
        invariant
            0 <= i <= refs@.len(),
            noise_pub@.len() == 32,
            identity_pub@.len() == 32,
            adv_secret@.len() == 32,
            codes@.len() == i,
            forall|k: int| 0 <= k < i ==> #[trigger] codes@[k]@ == qr_text(refs@[k]@, noise_pub@, identity_pub@, adv_secret@, client_type),
        decreases refs@.len() - i,
    {
        let code = qr_data(noise_pub, identity_pub, adv_secret, refs[i].as_str(), client_type);
        codes.push(code);
        i = i + 1;
    }
    codes
}

/// wacore-libsignal's Curve25519 key pair.
#[verifier::external_type_specification]
#[verifier::external_body]
pub struct ExKeyPair(wacore::libsignal::protocol::KeyPair);

/// The 32 public key bytes of a key pair (wacore-libsignal's
/// `PublicKey::public_key_bytes`, which holds only Curve25519 keys).
///
/// Trusted: only the length is stated; the key pair is opaque here, so the
/// bytes are not tied to it by name.
#[verifier::external_body]
fn public_key_bytes(key: &wacore::libsignal::protocol::KeyPair) -> (r: Vec<u8>)
    ensures
        r@.len() == 32,
{
    key.public_key.public_key_bytes().to_vec()
}

/// Whether `c` is in the Crockford base-32 alphabet of pair codes.
pub open spec fn is_pair_code_char(c: char) -> bool {
    "123456789ABCDEFGHJKLMNPQRSTVWXYZ"@.contains(c)
}

/// A fresh pair code from wacore's `PairCodeUtils::generate_code`.
///
/// Trusted: random; its source encodes five random bytes as eight
/// characters of the Crockford alphabet.
#[verifier::external_body]
fn generate_pair_code() -> (r: String)
    ensures
        r@.len() == 8,
        forall|i: int| 0 <= i < 8 ==> is_pair_code_char(#[trigger] r@[i]),
{
    wacore::pair_code::PairCodeUtils::generate_code()
}

/// A fresh ephemeral key pair (wacore-libsignal's `KeyPair::generate` on a
/// system-seeded `StdRng`).  Trusted: random, nothing stated.
#[verifier::external_body]
fn generate_key_pair() -> (r: wacore::libsignal::protocol::KeyPair) {
    wacore::libsignal::protocol::KeyPair::generate(&mut rand::make_rng::<rand::rngs::StdRng>())
}

/// A random `u64` (`rand::random`).  Trusted: random, nothing stated.
#[verifier::external_body]
fn random_u64() -> (r: u64) {
    rand::random::<u64>()
}

/// The ephemeral public key wrapped with the pair code, with wacore's
/// `PairCodeUtils::encrypt_ephemeral_pub`.
///
/// Trusted: the salt and IV are random; its source returns salt (32), IV
/// (16) and ciphertext (32), 80 bytes, the ciphertext being the key under
/// AES-256-CTR with the PBKDF2 key of the code and salt, which
/// `decrypt_primary_ephemeral_pub` reverses: unwrapping with the same code
/// gives the key back.
#[verifier::external_body]
fn wrap_ephemeral(ephemeral_pub: &[u8], code: &str) -> (r: Vec<u8>)
    requires
        ephemeral_pub@.len() == 32,
    ensures
        r@.len() == 80,
        primary_ephemeral_pub(r@, code@) == ephemeral_pub@,
{
    let key: [u8; 32] = ephemeral_pub.try_into().unwrap();
    wacore::pair_code::PairCodeUtils::encrypt_ephemeral_pub(&key, code).to_vec()
}

/// Whether `n` has tag `tag`, no attributes, and the bytes `b`.
pub open spec fn is_bytes_node(n: Stanza, tag: Seq<char>, b: Seq<u8>) -> bool {
    &&& n.tag@ == tag
    &&& n.attrs@.len() == 0
    &&& n.content matches Some(StanzaContent::Bytes(x)) && x@ == b
}

/// Whether `reg` is the `<link_code_companion_reg>` of a `companion_hello`
/// for `phone`: the phone's JID, the stage, a push notification asked for,
/// and the wrapped ephemeral key, the noise public key, the platform id and
/// display (UTF-8) and a zero nonce.
pub open spec fn is_companion_hello_reg(reg: Stanza, phone: Seq<char>, noise: Seq<u8>, wrapped: Seq<u8>, platform_id: Seq<char>, platform_display: Seq<char>) -> bool {
    &&& reg.tag@ == "link_code_companion_reg"@
    &&& reg.attrs@.len() == 3
    &&& reg.attrs@[0].key@ == "jid"@ && reg.attrs@[0].value@ == phone + "@s.whatsapp.net"@
    &&& reg.attrs@[1].key@ == "stage"@ && reg.attrs@[1].value@ == "companion_hello"@
    &&& reg.attrs@[2].key@ == "should_show_push_notification"@ && reg.attrs@[2].value@ == "true"@
    &&& reg.content matches Some(StanzaContent::Nodes(cs)) && cs@.len() == 5 && {
        &&& is_bytes_node(cs@[0], "link_code_pairing_wrapped_companion_ephemeral_pub"@, wrapped)
        &&& is_bytes_node(cs@[1], "companion_server_auth_key_pub"@, noise)
        &&& is_bytes_node(cs@[2], "companion_platform_id"@, encode_utf8(platform_id))
        &&& is_bytes_node(cs@[3], "companion_platform_display"@, encode_utf8(platform_display))
        &&& is_bytes_node(cs@[4], "link_code_pairing_nonce"@, seq![0u8])
    }
}

/// The children of the `companion_hello` IQ wacore's
/// `PairCodeUtils::build_companion_hello_iq` builds (push notification on).
///
/// Trusted: the shape stated is the node its source builds.
#[verifier::external_body]
fn companion_hello_children(phone: &str, noise_static_pub: &[u8], wrapped_ephemeral: &[u8], platform_id: &str, platform_display: &str, req_id: String) -> (r: Vec<Stanza>)
    requires
        noise_static_pub@.len() == 32,
        wrapped_ephemeral@.len() == 80,
    ensures
        r@.len() == 1,
        is_companion_hello_reg(r@[0], phone@, noise_static_pub@, wrapped_ephemeral@, platform_id@, platform_display@),
{
    let noise: [u8; 32] = noise_static_pub.try_into().unwrap();
    let wrapped: [u8; 80] = wrapped_ephemeral.try_into().unwrap();
    let iq = wacore::pair_code::PairCodeUtils::build_companion_hello_iq(phone, &noise, &wrapped, platform_id, platform_display, true, req_id);
    iq.children().map(|c| c.iter().map(stanza_from_wire).collect()).unwrap_or_default()
}

/// Whether `q` is the `companion_hello` IQ: a `set` in `md` to the server
/// with request id `req` in 16 hex digits, a 30-second timeout, and the
/// registration node for these values.
pub open spec fn is_companion_hello_query(q: InfoQuery, phone: Seq<char>, noise: Seq<u8>, wrapped: Seq<u8>, platform_id: Seq<char>, platform_display: Seq<char>, req: u64) -> bool {
    &&& q.namespace@ == "md"@
    &&& q.query_type == InfoQueryType::SetQuery
    &&& q.to@ == server_jid_view()
    &&& q.target is None
    &&& q.id matches Some(i) && i@ == zero_padded(hex_text(req as nat), 16)
    &&& q.timeout_secs == Some(30u64)
    &&& q.content matches Some(StanzaContent::Nodes(cs)) && cs@.len() == 1
        && is_companion_hello_reg(cs@[0], phone, noise, wrapped, platform_id, platform_display)
}

/// The `companion_hello` IQ for a sanitized phone number, our noise public
/// key, the wrapped ephemeral key and the platform, under request `req`.
pub fn companion_hello(phone: &str, noise_static_pub: &[u8], wrapped_ephemeral: &[u8], platform_id: &str, platform_display: &str, req: u64) -> (r: InfoQuery)
    requires
        noise_static_pub@.len() == 32,
        wrapped_ephemeral@.len() == 80,
    ensures
        is_companion_hello_query(r, phone@, noise_static_pub@, wrapped_ephemeral@, platform_id@, platform_display@, req),
{
    let req_id = pair_request_id(req);
    let children = companion_hello_children(phone, noise_static_pub, wrapped_ephemeral, platform_id, platform_display, req_id.clone());
    companion_hello_query(children, req_id)
}

/// What asking for a pair code produces: the code to show, the phone's
/// digits, the ephemeral key pair kept for the confirmation with its public
/// bytes (the key the IQ wraps), and the `companion_hello` IQ to send.
pub struct PairCodeRequest {
    pub code: String,
    pub phone: String,
    pub ephemeral: wacore::libsignal::protocol::KeyPair,
    pub ephemeral_pub: Vec<u8>,
    pub query: InfoQuery,
}

/// Stage 1 of pair-code linking: check the phone number, then draw a code,
/// an ephemeral key pair, the wrapping of its public key with the code, and
/// a request id, and build the `companion_hello` IQ with our noise public
/// key (`noise_pub`, 32 bytes) and the platform.  The wrapping in the IQ
/// unwraps with the code to the ephemeral public bytes returned.
pub fn request_pair_code(phone_number: &str, noise_pub: &[u8], platform_id: &str, platform_display: &str) -> (r: Result<PairCodeRequest, ClientError>)
    requires
        noise_pub@.len() == 32,
    ensures
        match phone_error(phone_number@) {
            Some(m) => r matches Err(ClientError::Internal(x)) && x@ == m,
            None => r matches Ok(p) && {
                &&& p.phone@ == ascii_digits(phone_number@)
                &&& p.code@.len() == 8
                &&& p.ephemeral_pub@.len() == 32
                &&& exists|wrapped: Seq<u8>, req: u64| wrapped.len() == 80
                    && primary_ephemeral_pub(wrapped, p.code@) == p.ephemeral_pub@
                    && #[trigger] is_companion_hello_query(p.query, p.phone@, noise_pub@, wrapped, platform_id@, platform_display@, req)
            },
        },
{
    let phone = match sanitize_phone(phone_number) {
        Ok(p) => p,
        Err(e) => return Err(e),
    };
    let code = generate_pair_code();
    let ephemeral = generate_key_pair();
    let ephemeral_pub = public_key_bytes(&ephemeral);
    let wrapped = wrap_ephemeral(ephemeral_pub.as_slice(), code.as_str());
    let req = random_u64();
    let query = companion_hello(phone.as_str(), noise_pub, wrapped.as_slice(), platform_id, platform_display, req);
    assert(phone_error(phone_number@) is None);
    assert(is_companion_hello_query(query, phone@, noise_pub@, wrapped@, platform_id@, platform_display@, req));
    assert(primary_ephemeral_pub(wrapped@, code@) == ephemeral_pub@);
    Ok(PairCodeRequest { code, phone, ephemeral, ephemeral_pub, query })
}

/// The pairing ref in the server's answer to `companion_hello`: the bytes
/// of `<link_code_pairing_ref>` in its `<link_code_companion_reg>`.
pub open spec fn pairing_ref_spec(n: Stanza) -> Option<Seq<u8>> {
    match child_with_tag(n, "link_code_companion_reg"@) {
        Some(reg) => match child_with_tag(reg, "link_code_pairing_ref"@) {
            Some(r) => bytes_content(r),
            None => None,
        },
        None => None,
    }
}

/// The pairing ref in the server's answer to `companion_hello`.
pub fn pairing_ref(response: &Stanza) -> (r: Option<Vec<u8>>)
    ensures
        match pairing_ref_spec(*response) {
            Some(b) => r matches Some(v) && v@ == b,
            None => r is None,
        },
{
    match response.get_optional_child("link_code_companion_reg") {
        Some(reg) => match reg.get_optional_child("link_code_pairing_ref") {
            Some(n) => match &n.content {
                Some(StanzaContent::Bytes(b)) => Some(b.clone()),
                _ => None,
            },
            None => None,
        },
        None => None,
    }
}

/// A pair-code flow waiting for the phone: the pairing ref the server gave,
/// the phone's digits, the code shown and the ephemeral key pair.
pub struct PairCodeWaiting {
    pub pairing_ref: Vec<u8>,
    pub phone: String,
    pub code: String,
    pub ephemeral: wacore::libsignal::protocol::KeyPair,
}

/// What wacore's `PairCodeUtils::decrypt_primary_ephemeral_pub` makes of an
/// 80-byte wrapping and a pair code: the primary's ephemeral public key.
pub uninterp spec fn primary_ephemeral_pub(wrapped: Seq<u8>, code: Seq<char>) -> Seq<u8>;

/// Unwraps the primary's ephemeral public key with the pair code (wacore's
/// `PairCodeUtils::decrypt_primary_ephemeral_pub`: PBKDF2 on the code and
/// the wrapping's salt, then AES-256-CTR).
///
/// Trusted: the key is named (`primary_ephemeral_pub`), not restated; its
/// source refuses exactly a wrapping that is not 80 bytes long.
#[verifier::external_body]
fn unwrap_primary_ephemeral(wrapped: &[u8], code: &str) -> (r: Result<Vec<u8>, String>)
    ensures
        match r {
            Ok(k) => wrapped@.len() == 80 && k@ == primary_ephemeral_pub(wrapped@, code@) && k@.len() == 32,
            Err(_) => wrapped@.len() != 80,
        },
{
    wacore::pair_code::PairCodeUtils::decrypt_primary_ephemeral_pub(wrapped, code).map(|k| k.to_vec()).map_err(|e| e.to_string())
}

/// What a key bundle is prepared from: our ephemeral key pair, the
/// primary's ephemeral and identity public keys, and our identity key pair.
pub open spec fn bundle_inputs(
    ephemeral: wacore::libsignal::protocol::KeyPair,
    primary_ephemeral: Seq<u8>,
    primary_identity: Seq<u8>,
    identity: wacore::libsignal::protocol::KeyPair,
) -> (wacore::libsignal::protocol::KeyPair, Seq<u8>, Seq<u8>, wacore::libsignal::protocol::KeyPair) {
    (ephemeral, primary_ephemeral, primary_identity, identity)
}

/// The encrypted key bundle and new ADV secret, with wacore's
/// `PairCodeUtils::prepare_key_bundle` (key agreements with the primary's
/// keys, HKDF, AES-GCM), with a record of the keys the call was handed.
///
/// Trusted: random bytes go into both, so only the secret's length (32) is
/// stated; its errors (an invalid primary key, a failed derivation or
/// encryption) are carried as their messages.
#[verifier::external_body]
fn prepare_key_bundle(
    ephemeral: &wacore::libsignal::protocol::KeyPair,
    primary_ephemeral: &[u8],
    primary_identity: &[u8],
    identity: &wacore::libsignal::protocol::KeyPair,
) -> (r: (Result<(Vec<u8>, Vec<u8>), String>, Ghost<(wacore::libsignal::protocol::KeyPair, Seq<u8>, Seq<u8>, wacore::libsignal::protocol::KeyPair)>))
    requires
        primary_ephemeral@.len() == 32,
        primary_identity@.len() == 32,
    ensures
        r.0 is Ok ==> r.0.unwrap().1@.len() == 32,
        r.1@ == bundle_inputs(*ephemeral, primary_ephemeral@, primary_identity@, *identity),
{
    let call = Ghost(bundle_inputs(*ephemeral, primary_ephemeral@, primary_identity@, *identity));
    let eph: [u8; 32] = primary_ephemeral.try_into().unwrap();
    let id: [u8; 32] = primary_identity.try_into().unwrap();
    let bundle = wacore::pair_code::PairCodeUtils::prepare_key_bundle(ephemeral, &eph, &id, identity)
        .map(|(bundle, adv)| (bundle, adv.to_vec()))
        .map_err(|e| e.to_string());
    (bundle, call)
}

/// Whether `r` is the `companion_finish` IQ for `phone`: a `set` in `md` to
/// the server under `req_id`, whose registration node carries the phone's
/// JID, the stage, the wrapped key bundle, our identity public key and the
/// pairing ref.
pub open spec fn is_companion_finish(r: Stanza, phone: Seq<char>, bundle: Seq<u8>, identity_pub: Seq<u8>, pairing_ref: Seq<u8>, req_id: Seq<char>) -> bool {
    &&& r.tag@ == "iq"@
    &&& r.attrs@.len() == 4
    &&& r.attrs@[0].key@ == "xmlns"@ && r.attrs@[0].value@ == "md"@
    &&& r.attrs@[1].key@ == "type"@ && r.attrs@[1].value@ == "set"@
    &&& r.attrs@[2].key@ == "to"@ && r.attrs@[2].value@ == "s.whatsapp.net"@
    &&& r.attrs@[3].key@ == "id"@ && r.attrs@[3].value@ == req_id
    &&& r.content matches Some(StanzaContent::Nodes(cs)) && cs@.len() == 1 && {
        let reg = cs@[0];
        &&& reg.tag@ == "link_code_companion_reg"@
        &&& reg.attrs@.len() == 2
        &&& reg.attrs@[0].key@ == "jid"@ && reg.attrs@[0].value@ == phone + "@s.whatsapp.net"@
        &&& reg.attrs@[1].key@ == "stage"@ && reg.attrs@[1].value@ == "companion_finish"@
        &&& reg.content matches Some(StanzaContent::Nodes(ns)) && ns@.len() == 3 && {
            &&& is_bytes_node(ns@[0], "link_code_pairing_wrapped_key_bundle"@, bundle)
            &&& is_bytes_node(ns@[1], "companion_identity_public"@, identity_pub)
            &&& is_bytes_node(ns@[2], "link_code_pairing_ref"@, pairing_ref)
        }
    }
}

/// Builds the `companion_finish` IQ with wacore's
/// `PairCodeUtils::build_companion_finish_iq`.
///
/// Trusted: the shape stated is the node its source builds.
#[verifier::external_body]
fn companion_finish_iq(phone: &str, bundle: Vec<u8>, identity_pub: &[u8], pairing_ref: &[u8], req_id: String) -> (r: Stanza)
    requires
        identity_pub@.len() == 32,
    ensures
        is_companion_finish(r, phone@, bundle@, identity_pub@, pairing_ref@, req_id@),
{
    let id: [u8; 32] = identity_pub.try_into().unwrap();
    stanza_from_wire(&wacore::pair_code::PairCodeUtils::build_companion_finish_iq(phone, bundle, &id, pairing_ref, req_id))
}

/// Why stage 2 of pair-code linking stopped.
#[derive(Debug)]
pub enum PairCodeFailure {
    /// The primary's ephemeral key could not be unwrapped.
    PrimaryEphemeral(String),
    /// The key bundle could not be prepared.
    KeyBundle(String),
}

/// What stage 2 produces: the `companion_finish` IQ to send and the new ADV
/// secret to store on the device.
#[derive(Debug)]
pub struct PairCodeFinish {
    pub iq: Stanza,
    pub adv_secret: Vec<u8>,
}

/// Stage 2 once the key bundle is prepared: a failed preparation stops the
/// flow; otherwise the bundle goes into the `companion_finish` IQ for the
/// waiting flow, under request `req`, and the new ADV secret is kept.
pub fn finish_with_bundle(waiting: &PairCodeWaiting, identity_pub: &[u8], bundle: Result<(Vec<u8>, Vec<u8>), String>, req: u64) -> (r: Result<PairCodeFinish, PairCodeFailure>)
    requires
        identity_pub@.len() == 32,
    ensures
        match bundle {
            Err(e) => r matches Err(PairCodeFailure::KeyBundle(x)) && x == e,
            Ok((b, adv)) => r matches Ok(f) && f.adv_secret == adv
                && is_companion_finish(f.iq, waiting.phone@, b@, identity_pub@, waiting.pairing_ref@, zero_padded(hex_text(req as nat), 16)),
        },
{
    match bundle {
        Err(e) => Err(PairCodeFailure::KeyBundle(e)),
        Ok((b, adv)) => {
            let req_id = pair_request_id(req);
            let iq = companion_finish_iq(waiting.phone.as_str(), b, identity_pub, waiting.pairing_ref.as_slice(), req_id);
            Ok(PairCodeFinish { iq, adv_secret: adv })
        },
    }
}

/// Stage 2 of pair-code linking, once the phone confirmed the code: unwrap
/// the primary's ephemeral key with the code, prepare the key bundle with
/// our ephemeral and identity keys, and build the `companion_finish` IQ,
/// which carries `identity_pub`, the identity key's 32 public bytes.
///
/// Beside the outcome comes a record of what the bundle was prepared from
/// (`None` when the wrapping was refused before that).
pub fn confirm_pair_code(waiting: &PairCodeWaiting, confirmation: &PairCodeConfirmation, identity: &wacore::libsignal::protocol::KeyPair, identity_pub: &[u8]) -> (r: (Result<PairCodeFinish, PairCodeFailure>, Ghost<Option<(wacore::libsignal::protocol::KeyPair, Seq<u8>, Seq<u8>, wacore::libsignal::protocol::KeyPair)>>))
    requires
        confirmation.identity_pub@.len() == 32,
        identity_pub@.len() == 32,
    ensures
        confirmation.wrapped_ephemeral@.len() != 80 <==> r.0 matches Err(PairCodeFailure::PrimaryEphemeral(_)),
        confirmation.wrapped_ephemeral@.len() != 80 ==> r.1@ is None,
        confirmation.wrapped_ephemeral@.len() == 80 ==> r.1@ == Some(bundle_inputs(waiting.ephemeral,
            primary_ephemeral_pub(confirmation.wrapped_ephemeral@, waiting.code@), confirmation.identity_pub@, *identity)),
        r.0 matches Ok(f) ==> {
            &&& f.adv_secret@.len() == 32
            &&& exists|bundle: Seq<u8>, req: u64|
                #[trigger] is_companion_finish(f.iq, waiting.phone@, bundle, identity_pub@, waiting.pairing_ref@, zero_padded(hex_text(req as nat), 16))
        },
{
    let primary = match unwrap_primary_ephemeral(confirmation.wrapped_ephemeral.as_slice(), waiting.code.as_str()) {
        Ok(k) => k,
        Err(e) => return (Err(PairCodeFailure::PrimaryEphemeral(e)), Ghost(None)),
    };
    let (bundle, call) = prepare_key_bundle(&waiting.ephemeral, primary.as_slice(), confirmation.identity_pub.as_slice(), identity);
    let req = random_u64();
    (finish_with_bundle(waiting, identity_pub, bundle, req), Ghost(Some(call@)))
}

} // verus!
