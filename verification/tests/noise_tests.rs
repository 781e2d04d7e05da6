use wacore::noise::NoiseCipher;
use waepic::error::ConnectionError;
use waepic::noise::{decrypt_frame, encrypt_and_frame, NoiseSocket};

#[test]
fn test_encrypt_decrypt_roundtrip() {
    let key = [0x42u8; 32];
    let write_cipher = NoiseCipher::new(&key).expect("32-byte key should be valid");
    let read_cipher = NoiseCipher::new(&key).expect("32-byte key should be valid");

    let plaintext = b"hello world";
    let framed = encrypt_and_frame(&write_cipher, 0, plaintext).expect("encrypt should succeed").frame;

    // Strip the 3-byte frame length prefix
    let mut ciphertext = framed[3..].to_vec();
    decrypt_frame(&read_cipher, 0, &mut ciphertext).expect("decrypt should succeed");

    assert_eq!(&ciphertext[..], plaintext);
}

#[test]
fn test_counter_exhaustion_detected() {
    let key = [0x42u8; 32];
    let write_cipher = NoiseCipher::new(&key).expect("32-byte key should be valid");
    let read_cipher = NoiseCipher::new(&key).expect("32-byte key should be valid");

    let mut socket = NoiseSocket::with_counters(write_cipher, read_cipher, 0, u32::MAX);

    let mut buf = b"test".to_vec();
    let err = match socket.decrypt_frame(&mut buf) { Err(e) => e, Ok(_) => panic!("exhausted counter must error") };
    assert!(err.to_text().contains("read counter exhausted"));
}

#[test]
fn frame_prefix_is_the_sealed_length() {
    let key = [7u8; 32];
    let cipher = NoiseCipher::new(&key).unwrap();
    let framed = encrypt_and_frame(&cipher, 5, &[0u8; 300]).unwrap().frame;
    // 300 bytes of plaintext and a 16-byte tag: 316 = 0x00013c
    assert_eq!(&framed[..3], &[0x00, 0x01, 0x3c]);
    assert_eq!(framed.len(), 3 + 316);
}

#[test]
fn socket_counters_advance_per_frame() {
    let key = [0x11u8; 32];
    let mut sender = NoiseSocket::new(NoiseCipher::new(&key).unwrap(), NoiseCipher::new(&key).unwrap());
    let mut receiver = NoiseSocket::new(NoiseCipher::new(&key).unwrap(), NoiseCipher::new(&key).unwrap());

    for msg in [&b"first"[..], &b"second"[..]] {
        let framed = sender.prepare_send(msg).unwrap().frame;
        sender.commit_send();
        let mut body = framed[3..].to_vec();
        receiver.decrypt_frame(&mut body).unwrap();
        assert_eq!(&body[..], msg);
    }
    assert_eq!(sender.write_counter(), 2);
    assert_eq!(receiver.read_counter(), 2);
}

#[test]
fn a_frame_opened_with_the_wrong_counter_fails_but_consumes_it() {
    let key = [0x22u8; 32];
    let cipher = NoiseCipher::new(&key).unwrap();
    let framed = encrypt_and_frame(&cipher, 1, b"payload").unwrap().frame;
    let mut receiver = NoiseSocket::new(NoiseCipher::new(&key).unwrap(), NoiseCipher::new(&key).unwrap());
    let mut body = framed[3..].to_vec();
    let err = match receiver.decrypt_frame(&mut body) { Err(e) => e, Ok(_) => panic!("wrong counter must fail") };
    assert!(matches!(err, ConnectionError::Decrypt(_)));
    assert_eq!(receiver.read_counter(), 1);
}

#[test]
fn exhausted_write_counter_is_refused() {
    let key = [0x33u8; 32];
    let socket = NoiseSocket::with_counters(NoiseCipher::new(&key).unwrap(), NoiseCipher::new(&key).unwrap(), u32::MAX, 0);
    let err = match socket.prepare_send(b"x") { Err(e) => e, Ok(_) => panic!("exhausted counter must be refused") };
    assert_eq!(err.to_text(), "encrypt failed: write counter exhausted");
}

#[test]
fn only_sent_frames_move_the_write_counter() {
    let key = [3u8; 32];
    let mut socket = NoiseSocket::new(NoiseCipher::new(&key).unwrap(), NoiseCipher::new(&key).unwrap());
    socket.finish_send(true);
    socket.finish_send(false);
    socket.finish_send(true);
    assert_eq!(socket.write_counter(), 2);
    let mut full = NoiseSocket::with_counters(NoiseCipher::new(&key).unwrap(), NoiseCipher::new(&key).unwrap(), u32::MAX, 0);
    full.finish_send(true);
    assert_eq!(full.write_counter(), u32::MAX);
}
