use waepic::message::{InputMedia, InputMessage};

#[test]
fn builder_sets_text() {
    let msg = InputMessage::text("hello".to_string());
    assert_eq!(msg.text, Some("hello".to_string()));
}

#[test]
fn builder_defaults() {
    let msg = InputMessage::empty();
    assert_eq!(msg.text, None);
    assert_eq!(msg.reply_to, None);
    assert!(!msg.silent);
    assert!(msg.link_preview);
    assert!(msg.media.is_none());
}

#[test]
fn builder_silent_and_no_link_preview() {
    let msg = InputMessage::text("check this out https://example.com".to_string())
        .silent(true)
        .link_preview(false);
    assert!(msg.silent);
    assert!(!msg.link_preview);
}

#[test]
fn builder_reply_to() {
    let msg = InputMessage::text("reply".to_string()).reply_to(Some("abc123".to_string()));
    assert_eq!(msg.reply_to, Some("abc123".to_string()));
}

#[test]
fn builder_reply_to_none() {
    let msg = InputMessage::text("no reply".to_string()).reply_to(None::<String>);
    assert_eq!(msg.reply_to, None);
}

#[test]
fn from_string_sets_text() {
    let msg = InputMessage::from("test".to_string());
    assert_eq!(msg.text, Some("test".to_string()));
}

#[test]
fn from_str_sets_text() {
    let msg = InputMessage::from("test");
    assert_eq!(msg.text, Some("test".to_string()));
}

#[test]
fn builder_with_media() {
    let media = InputMedia::image(vec![0u8; 100]);
    let msg = InputMessage::text("caption".to_string()).media(media);
    assert!(msg.media.is_some());
    assert_eq!(msg.text, Some("caption".to_string()));
}

#[test]
fn input_media_defaults() {
    let img = InputMedia::image(vec![1, 2, 3]);
    assert!(img.mime_type().is_none());
    assert_eq!(img.data().as_slice(), &[1, 2, 3]);
    assert_eq!(img.to_text(), "image");
}

#[test]
fn input_media_with_caption() {
    let vid = InputMedia::video(vec![0u8; 10]).with_caption("cool video".to_string());
    match vid {
        InputMedia::Video { caption, .. } => {
            assert_eq!(caption.as_deref(), Some("cool video"));
        }
        _ => panic!("expected Video"),
    }
}

#[test]
fn input_media_with_mime() {
    let doc = InputMedia::document(vec![0u8; 5]).with_mime_type("application/pdf".to_string());
    assert_eq!(doc.mime_type().map(|s| s.as_str()), Some("application/pdf"));
}

#[test]
fn input_media_with_filename() {
    let doc = InputMedia::document(vec![0u8; 5]).with_filename("readme.md".to_string());
    match doc {
        InputMedia::Document { filename, .. } => {
            assert_eq!(filename.as_deref(), Some("readme.md"));
        }
        _ => panic!("expected Document"),
    }
}

#[test]
fn input_media_ptt() {
    let audio = InputMedia::audio(vec![0u8; 10]).with_ptt(true);
    assert_eq!(audio.to_text(), "voice note");
    let audio2 = InputMedia::audio(vec![0u8; 10]);
    assert_eq!(audio2.to_text(), "audio");
}

#[test]
fn input_media_display() {
    assert_eq!(InputMedia::image(vec![]).to_text(), "image");
    assert_eq!(InputMedia::video(vec![]).to_text(), "video");
    assert_eq!(InputMedia::document(vec![]).to_text(), "document");
    assert_eq!(InputMedia::sticker(vec![]).to_text(), "sticker");
}

#[test]
fn builder_aliases_set_caption_filename_and_ptt() {
    let img = InputMedia::image(vec![1]).caption("hi".to_string());
    assert!(matches!(img, InputMedia::Image { caption: Some(ref c), .. } if c == "hi"));
    let doc = InputMedia::document(vec![1]).filename("a.pdf".to_string());
    assert!(matches!(doc, InputMedia::Document { filename: Some(ref f), .. } if f == "a.pdf"));
    let audio = InputMedia::audio(vec![1]).ptt(true);
    assert!(matches!(audio, InputMedia::Audio { ptt: true, .. }));
    let still = InputMedia::sticker(vec![1]).caption("x".to_string());
    assert!(matches!(still, InputMedia::Sticker { .. }));
}
