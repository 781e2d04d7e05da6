//! Media download policy: the parameters of a download, how the CDN's HTTP
//! status is read, when a cached media connection expires, and the order of
//! attempts over the media hosts with one refresh of the credentials.

use vstd::prelude::*;
use vstd::string::*;

use crate::error::ClientError;

verus! {

broadcast use vstd::string::group_string_axioms;

/// wacore's media type of a download.
#[verifier::external_type_specification]
#[verifier::external_body]
pub struct ExMediaType(wacore::download::MediaType);

/// Pre-allocated buffer cap for in-memory downloads (64 MB).
pub const DOWNLOAD_PREALLOC_CAP: u64 = 67108864;

/// Number of retry attempts after a media auth error (401/403).
pub const MEDIA_AUTH_REFRESH_RETRY_ATTEMPTS: usize = 1;

/// Owned download parameters for re-downloading media without the original
/// message in hand.
#[derive(Debug)]
pub struct DownloadParams {
    /// CDN direct path (e.g. `/mms/image/...`).
    pub direct_path: String,
    /// E2E media key for decryption. `None` for unencrypted media.
    pub media_key: Option<Vec<u8>>,
    /// SHA-256 hash of the plaintext file.
    pub file_sha256: Vec<u8>,
    /// SHA-256 hash of the encrypted file (used as URL token).
    pub file_enc_sha256: Option<Vec<u8>>,
    /// Declared plaintext file length in bytes.
    pub file_length: u64,
    /// Media type (image, video, audio, etc.).
    pub media_type: wacore::download::MediaType,
}

fn bytes_to_vec(b: &[u8]) -> (r: Vec<u8>)
    ensures
        r@ == b@,
{
    let mut out: Vec<u8> = Vec::new();
    let mut i: usize = 0;
    while i < b.len()
        invariant
            0 <= i <= b@.len(),
            out@ == b@.take(i as int),
        decreases b.len() - i,
    {
        out.push(b[i]);
        i = i + 1;
        assert(out@ =~= b@.take(i as int));
    }
    assert(b@.take(b@.len() as int) =~= b@);
    out
}

impl DownloadParams {
    /// Create params for encrypted media.
    pub fn encrypted(
        direct_path: &str,
        media_key: &[u8],
        file_sha256: &[u8],
        file_enc_sha256: &[u8],
        file_length: u64,
        media_type: wacore::download::MediaType,
    ) -> (r: Self)
        ensures
            r.direct_path@ == direct_path@,
            r.media_key matches Some(k) && k@ == media_key@,
            r.file_sha256@ == file_sha256@,
            r.file_enc_sha256 matches Some(h) && h@ == file_enc_sha256@,
            r.file_length == file_length,
            r.media_type == media_type,
    {
        DownloadParams {
            direct_path: direct_path.to_string(),
            media_key: Some(bytes_to_vec(media_key)),
            file_sha256: bytes_to_vec(file_sha256),
            file_enc_sha256: Some(bytes_to_vec(file_enc_sha256)),
            file_length,
            media_type,
        }
    }

    /// Create params for unencrypted media (e.g. newsletter images).
    pub fn plaintext(
        direct_path: &str,
        file_sha256: &[u8],
        file_length: u64,
        media_type: wacore::download::MediaType,
    ) -> (r: Self)
        ensures
            r.direct_path@ == direct_path@,
            r.media_key is None,
            r.file_sha256@ == file_sha256@,
            r.file_enc_sha256 is None,
            r.file_length == file_length,
            r.media_type == media_type,
    {
        DownloadParams {
            direct_path: direct_path.to_string(),
            media_key: None,
            file_sha256: bytes_to_vec(file_sha256),
            file_enc_sha256: None,
            file_length,
            media_type,
        }
    }
}

/// Whether an HTTP status is a media auth error (401 or 403).
pub fn is_media_auth_error(status_code: u16) -> (r: bool)
    ensures
        r == (status_code == 401 || status_code == 403),
{
    status_code == 401 || status_code == 403
}

/// How a download request ended.
#[derive(Clone, Copy, Debug, PartialEq, Eq, Structural)]
pub enum RequestOutcome {
    /// The body arrived (status below 300).
    Fetched,
    /// The credentials were refused (401, 403).
    Auth,
    /// The media is gone (404, 410).
    NotFound,
    /// Any other failure status.
    Failed,
}

/// How the CDN's status is read.
pub open spec fn status_outcome(status: u16) -> RequestOutcome {
    if status < 300 {
        RequestOutcome::Fetched
    } else if status == 401 || status == 403 {
        RequestOutcome::Auth
    } else if status == 404 || status == 410 {
        RequestOutcome::NotFound
    } else {
        RequestOutcome::Failed
    }
}

/// How the CDN's status is read.
pub fn classify_status(status: u16) -> (r: RequestOutcome)
    ensures
        r == status_outcome(status),
{
    if status < 300 {
        RequestOutcome::Fetched
    } else if is_media_auth_error(status) {
        RequestOutcome::Auth
    } else if status == 404 || status == 410 {
        RequestOutcome::NotFound
    } else {
        RequestOutcome::Failed
    }
}

/// The lifetime of cached media connection credentials, in seconds: the
/// shorter of the connection's and the auth token's.
pub open spec fn effective_ttl_spec(ttl: u64, auth_ttl: Option<u64>) -> u64 {
    match auth_ttl {
        Some(a) => if a < ttl { a } else { ttl },
        None => ttl,
    }
}

/// Whether credentials with these lifetimes have expired after
/// `elapsed_secs` seconds and `elapsed_nanos` nanoseconds: once strictly
/// more time than their lifetime has passed.
pub open spec fn media_conn_expired_spec(ttl: u64, auth_ttl: Option<u64>, elapsed_secs: u64, elapsed_nanos: u32) -> bool {
    elapsed_secs > effective_ttl_spec(ttl, auth_ttl)
        || (elapsed_secs == effective_ttl_spec(ttl, auth_ttl) && elapsed_nanos > 0)
}

/// Cached media credentials never outlive either of their lifetimes: they
/// have expired once more than `ttl` has passed, and once more than a given
/// `auth_ttl` has passed; while less than both has passed they are still good.
pub proof fn lemma_media_conn_lifetime(ttl: u64, auth_ttl: Option<u64>, elapsed_secs: u64, elapsed_nanos: u32)
    ensures
        elapsed_secs > ttl ==> media_conn_expired_spec(ttl, auth_ttl, elapsed_secs, elapsed_nanos),
        (auth_ttl matches Some(a) && elapsed_secs > a) ==> media_conn_expired_spec(ttl, auth_ttl, elapsed_secs, elapsed_nanos),
        (elapsed_secs < ttl && (auth_ttl matches Some(a) ==> elapsed_secs < a))
            ==> !media_conn_expired_spec(ttl, auth_ttl, elapsed_secs, elapsed_nanos),
        media_conn_expired_spec(ttl, auth_ttl, elapsed_secs, 0) ==> media_conn_expired_spec(ttl, auth_ttl, elapsed_secs, elapsed_nanos),
{
}

/// Whether cached media connection credentials have expired after
/// `elapsed_secs` seconds and `elapsed_nanos` nanoseconds: once strictly
/// more time than their lifetime has passed.
pub fn media_conn_expired(ttl: u64, auth_ttl: Option<u64>, elapsed_secs: u64, elapsed_nanos: u32) -> (r: bool)
    ensures
        r == media_conn_expired_spec(ttl, auth_ttl, elapsed_secs, elapsed_nanos),
{
    let effective = match auth_ttl {
        Some(a) => if a < ttl { a } else { ttl },
        None => ttl,
    };
    elapsed_secs > effective || (elapsed_secs == effective && elapsed_nanos > 0)
}

/// What the downloader does after a request.
#[derive(Debug)]
pub enum DownloadStep {
    /// The download is complete.
    Done,
    /// Try the next host of this round.
    NextHost,
    /// Drop the cached credentials, fetch fresh ones and start a new round.
    Refresh,
    /// Give up with this error.
    Fail(ClientError),
}

/// The downloader's progress: the round (0, or 1 after a refresh) and the
/// message of the last failure that let it try another host.
pub struct DownloadAttempts {
    /// The round: 0 with cached credentials, 1 after a refresh.
    pub round: usize,
    /// The message of the last host failure.
    pub last_error: Option<String>,
    /// Whether the download streams to a writer (the messages say so).
    pub streaming: bool,
}

/// The error after the refreshed credentials were refused too.
pub open spec fn auth_retry_message(streaming: bool) -> Seq<char> {
    if streaming { "media stream download auth failed after retry"@ } else { "media download auth failed after retry"@ }
}

/// The error when every host failed without a message.
pub open spec fn all_hosts_message(streaming: bool) -> Seq<char> {
    if streaming {
        "failed to stream-download from all available media hosts"@
    } else {
        "failed to download from all available media hosts"@
    }
}

impl DownloadAttempts {
    /// A download in its first round.
    pub fn new(streaming: bool) -> (r: Self)
        ensures
            r.round == 0 && r.last_error is None && r.streaming == streaming,
    {
        DownloadAttempts { round: 0, last_error: None, streaming }
    }

    /// The step after a request ended with `outcome` (and, for a failure,
    /// its message).
    ///
    /// A fetched body ends the download.  Refused credentials or missing
    /// media in the first round refresh the credentials for a second round;
    /// in the second they end it with an error.  Any other failure is
    /// remembered and the next host is tried.
    pub fn after_request(&mut self, outcome: RequestOutcome, message: String) -> (r: DownloadStep)
        requires
            old(self).round <= MEDIA_AUTH_REFRESH_RETRY_ATTEMPTS,
        ensures
            final(self).streaming == old(self).streaming,
            final(self).round <= MEDIA_AUTH_REFRESH_RETRY_ATTEMPTS,
            match outcome {
                RequestOutcome::Fetched => r is Done && final(self).round == old(self).round
                    && final(self).last_error == old(self).last_error,
                RequestOutcome::Auth | RequestOutcome::NotFound => if old(self).round == 0 {
                    r is Refresh && final(self).round == 1 && final(self).last_error == old(self).last_error
                } else {
                    r matches DownloadStep::Fail(ClientError::Internal(m)) && m@ == auth_retry_message(old(self).streaming)
                },
                RequestOutcome::Failed => r is NextHost && final(self).round == old(self).round
                    && final(self).last_error == Some(message),
            },
    {
        match outcome {
            RequestOutcome::Fetched => DownloadStep::Done,
            RequestOutcome::Auth | RequestOutcome::NotFound => {
                if self.round == 0 {
                    self.round = 1;
                    DownloadStep::Refresh
                } else if self.streaming {
                    DownloadStep::Fail(ClientError::Internal("media stream download auth failed after retry".to_string()))
                } else {
                    DownloadStep::Fail(ClientError::Internal("media download auth failed after retry".to_string()))
                }
            },
            RequestOutcome::Failed => {
                self.last_error = Some(message);
                DownloadStep::NextHost
            },
        }
    }

    /// The error once every host of the last round failed: the last
    /// failure's message, or that all hosts failed.
    pub fn exhausted(&self) -> (r: ClientError)
        ensures
            match self.last_error {
                Some(m) => r == ClientError::Internal(m),
                None => r matches ClientError::Internal(m) && m@ == all_hosts_message(self.streaming),
            },
    {
        match &self.last_error {
            Some(m) => ClientError::Internal(m.clone()),
            None => if self.streaming {
                ClientError::Internal("failed to stream-download from all available media hosts".to_string())
            } else {
                ClientError::Internal("failed to download from all available media hosts".to_string())
            },
        }
    }
}

/// The kind of a media payload, as the key derivation distinguishes it.
#[derive(Clone, Copy, Debug, PartialEq, Eq, Structural)]
pub enum MediaKind {
    Image,
    Video,
    Audio,
    Document,
    History,
    AppState,
    Sticker,
    StickerPack,
    StickerPackThumbnail,
    LinkThumbnail,
    ProductCatalogImage,
}

/// wacore's media type for our kind, one arm per variant.
#[verifier::external_body]
fn wire_media_type(kind: MediaKind) -> wacore::download::MediaType {
    match kind {
        MediaKind::Image => wacore::download::MediaType::Image,
        MediaKind::Video => wacore::download::MediaType::Video,
        MediaKind::Audio => wacore::download::MediaType::Audio,
        MediaKind::Document => wacore::download::MediaType::Document,
        MediaKind::History => wacore::download::MediaType::History,
        MediaKind::AppState => wacore::download::MediaType::AppState,
        MediaKind::Sticker => wacore::download::MediaType::Sticker,
        MediaKind::StickerPack => wacore::download::MediaType::StickerPack,
        MediaKind::StickerPackThumbnail => wacore::download::MediaType::StickerPackThumbnail,
        MediaKind::LinkThumbnail => wacore::download::MediaType::LinkThumbnail,
        MediaKind::ProductCatalogImage => wacore::download::MediaType::ProductCatalogImage,
    }
}

/// What wacore's `DownloadUtils::verify_and_decrypt` makes of an encrypted
/// media payload and its media key: the plaintext, or `None` when the MAC
/// does not match or the payload does not decrypt.
pub uninterp spec fn media_plaintext(payload: Seq<u8>, media_key: Seq<u8>, kind: MediaKind) -> Option<Seq<u8>>;

/// Authenticates and decrypts a downloaded media payload with wacore's
/// `DownloadUtils::verify_and_decrypt` (keys expanded from the media key
/// for the kind, a 10-byte MAC checked, AES-CBC).
///
/// Trusted: the plaintext is named (`media_plaintext`), not restated; its
/// source refuses a payload of 10 bytes or less before anything else.  The
/// error text is its message.
#[verifier::external_body]
pub fn decrypt_media(payload: &[u8], media_key: &[u8], kind: MediaKind) -> (r: Result<Vec<u8>, String>)
    ensures
        match media_plaintext(payload@, media_key@, kind) {
            Some(p) => r matches Ok(v) && v@ == p,
            None => r is Err,
        },
        match r {
            Ok(_) => payload@.len() > 10,
            Err(_) => true,
        },
{
    wacore::download::DownloadUtils::verify_and_decrypt(payload, media_key, wire_media_type(kind)).map_err(|e| e.to_string())
}

} // verus!
