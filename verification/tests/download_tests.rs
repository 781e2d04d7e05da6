use waepic::download::{
    classify_status, is_media_auth_error, media_conn_expired, DownloadAttempts, DownloadParams, DownloadStep,
    RequestOutcome,
};
use waepic::error::ClientError;
use wacore::download::MediaType;

#[test]
fn statuses_are_read_as_outcomes() {
    assert!(is_media_auth_error(401) && is_media_auth_error(403) && !is_media_auth_error(404));
    assert_eq!(classify_status(200), RequestOutcome::Fetched);
    assert_eq!(classify_status(403), RequestOutcome::Auth);
    assert_eq!(classify_status(410), RequestOutcome::NotFound);
    assert_eq!(classify_status(500), RequestOutcome::Failed);
}

#[test]
fn media_connections_expire_after_the_shorter_ttl() {
    assert!(!media_conn_expired(100, None, 100, 0));
    assert!(media_conn_expired(100, None, 100, 1));
    assert!(media_conn_expired(100, Some(30), 31, 0));
    assert!(!media_conn_expired(100, Some(300), 99, 0));
}

#[test]
fn auth_failures_refresh_once_then_fail() {
    let mut attempts = DownloadAttempts::new(false);
    assert!(matches!(attempts.after_request(RequestOutcome::Failed, "boom".into()), DownloadStep::NextHost));
    assert!(matches!(attempts.after_request(RequestOutcome::Auth, String::new()), DownloadStep::Refresh));
    assert!(matches!(
        attempts.after_request(RequestOutcome::NotFound, String::new()),
        DownloadStep::Fail(ClientError::Internal(m)) if m == "media download auth failed after retry"
    ));
    assert!(matches!(attempts.exhausted(), ClientError::Internal(m) if m == "boom"));

    let streaming = DownloadAttempts::new(true);
    assert!(matches!(
        streaming.exhausted(),
        ClientError::Internal(m) if m == "failed to stream-download from all available media hosts"
    ));
}

#[test]
fn download_params_keep_what_they_were_given() {
    let p = DownloadParams::encrypted("/mms/image/x", &[1, 2], &[3], &[4, 5], 99, MediaType::Image);
    assert_eq!(p.direct_path, "/mms/image/x");
    assert_eq!(p.media_key, Some(vec![1, 2]));
    assert_eq!(p.file_enc_sha256, Some(vec![4, 5]));
    assert_eq!(p.file_length, 99);
    let q = DownloadParams::plaintext("/n/img", &[7], 3, MediaType::Image);
    assert!(q.media_key.is_none() && q.file_enc_sha256.is_none());
    assert_eq!(q.file_sha256, vec![7]);
}

#[test]
fn short_or_forged_media_is_refused() {
    use_decrypt_media();
}

fn use_decrypt_media() {
    let key = [7u8; 32];
    assert!(waepic::download::decrypt_media(&[0u8; 10], &key, waepic::download::MediaKind::Image).is_err());
    assert!(waepic::download::decrypt_media(&[0u8; 42], &key, waepic::download::MediaKind::Image).is_err());
}
