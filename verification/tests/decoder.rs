use aes::cipher::block_padding::Pkcs7;
use aes::cipher::{BlockEncryptMut, KeyInit};

use ncm_decoder::cipher::apply_cipher;
use ncm_decoder::container::parse_container;
use ncm_decoder::errors::{CryptoError, DecodeError, FormatError};
use ncm_decoder::keydec::derive_key;
use ncm_decoder::keystream::build_sbox;
use ncm_decoder::pipeline::decode_ncm;
use ncm_decoder::sniff::{sniff_format, AudioKind};

const CORE_KEY: [u8; 16] = [
    0x68, 0x7a, 0x48, 0x52, 0x41, 0x6d, 0x73, 0x6f, 0x35, 0x6b, 0x49, 0x6e, 0x62, 0x61, 0x78,
    0x57,
];

const KEY_PREFIX: &[u8] = b"neteasecloudmusic";

fn aes_encrypt(data: &[u8], key: &[u8; 16]) -> Vec<u8> {
    let enc = ecb::Encryptor::<aes::Aes128>::new(key.into());
    let padded_len = (data.len() / 16 + 1) * 16;
    let mut buf = vec![0u8; padded_len];
    buf[..data.len()].copy_from_slice(data);
    let ct = enc.encrypt_padded_mut::<Pkcs7>(&mut buf, data.len()).unwrap();
    ct.to_vec()
}

/// An encrypted key section that derives to `raw_key`: prefix it, AES-encrypt
/// it under the embedded core key, and mask every byte with 0x64.
fn make_key_section(raw_key: &[u8]) -> Vec<u8> {
    let mut msg = KEY_PREFIX.to_vec();
    msg.extend_from_slice(raw_key);
    let ct = aes_encrypt(&msg, &CORE_KEY);
    ct.iter().map(|b| b ^ 0x64).collect()
}

fn build_container(key_section: &[u8], meta: &[u8], image: &[u8], audio: &[u8]) -> Vec<u8> {
    let mut c = Vec::new();
    c.extend_from_slice(b"CTENFDAM");
    c.extend_from_slice(&[0u8, 0u8]);
    c.extend_from_slice(&(key_section.len() as u32).to_le_bytes());
    c.extend_from_slice(key_section);
    c.extend_from_slice(&(meta.len() as u32).to_le_bytes());
    c.extend_from_slice(meta);
    c.extend_from_slice(&[0u8; 9]);
    c.extend_from_slice(&(image.len() as u32).to_le_bytes());
    c.extend_from_slice(image);
    c.extend_from_slice(audio);
    c
}

/// The table schedule written independently, as the format describes it:
/// wrapping-add accumulator with swaps, then the double-indirection pass.
fn reference_table(key: &[u8]) -> Vec<u8> {
    let mut t: Vec<u8> = (0..=255u8).map(|i| i).collect();
    let mut j: u8 = 0;
    for i in 0..256 {
        j = j.wrapping_add(t[i]).wrapping_add(key[i % key.len()]);
        t.swap(i, j as usize);
    }
    let mut f = vec![0u8; 256];
    for i in 0..256 {
        let orig = t[i] as usize;
        let idx = (t[(i + orig) % 256] as usize + orig) % 256;
        f[i] = t[idx];
    }
    f
}

#[test]
fn round_trip_known_plaintext() {
    let raw_key: Vec<u8> = (1..=16u8).collect();
    let key_section = make_key_section(&raw_key);
    let plaintext = b"0123456789".to_vec();
    let table = build_sbox(&raw_key);
    let mut audio = plaintext.clone();
    apply_cipher(&table, &mut audio);
    let container = build_container(&key_section, &[], &[], &audio);
    let decoded = decode_ncm(&container).unwrap();
    assert_eq!(decoded.data, plaintext);
    assert_eq!(decoded.kind, AudioKind::Other);
}

#[test]
fn round_trip_flac_payload_classifies_flac() {
    let raw_key = b"a-raw-keystream-key".to_vec();
    let key_section = make_key_section(&raw_key);
    let plaintext = b"fLaC-and-some-frames".to_vec();
    let table = build_sbox(&raw_key);
    let mut audio = plaintext.clone();
    apply_cipher(&table, &mut audio);
    let container = build_container(&key_section, b"meta-bytes", b"image-bytes", &audio);
    let decoded = decode_ncm(&container).unwrap();
    assert_eq!(decoded.data, plaintext);
    assert_eq!(decoded.kind, AudioKind::Flac);
}

#[test]
fn decoding_twice_is_byte_identical() {
    let raw_key = b"determinism".to_vec();
    let key_section = make_key_section(&raw_key);
    let table = build_sbox(&raw_key);
    let mut audio = b"some audio payload, longer than one block".to_vec();
    apply_cipher(&table, &mut audio);
    let container = build_container(&key_section, &[], &[], &audio);
    let first = decode_ncm(&container).unwrap();
    let second = decode_ncm(&container).unwrap();
    assert_eq!(first.data, second.data);
    assert_eq!(first.kind, second.kind);
}

#[test]
fn table_builder_is_pure() {
    let key = b"same key bytes".to_vec();
    let t1 = build_sbox(&key);
    let other = build_sbox(b"an unrelated key in between");
    let t2 = build_sbox(&key);
    assert_eq!(t1, t2);
    assert_ne!(t1, other);
}

#[test]
fn table_matches_reference_schedule() {
    for key in [&b"\x01"[..], &b"abcde"[..], &CORE_KEY[..]] {
        let got = build_sbox(key);
        let want = reference_table(key);
        assert_eq!(got, want);
        assert_eq!(got.len(), 256);
    }
}

#[test]
fn cipher_is_an_involution() {
    let table = build_sbox(b"involution");
    let original = b"payload \x00\xff bytes across the 256 boundary".to_vec();
    let mut data = original.clone();
    apply_cipher(&table, &mut data);
    assert_ne!(data, original);
    apply_cipher(&table, &mut data);
    assert_eq!(data, original);
}

#[test]
fn sniffer_classifies_flac_prefix() {
    assert_eq!(sniff_format(&[0x66, 0x4c, 0x61, 0x43]), AudioKind::Flac);
    assert_eq!(sniff_format(b"fLaC trailing data"), AudioKind::Flac);
}

#[test]
fn sniffer_classifies_everything_else_as_other() {
    assert_eq!(sniff_format(b"fLa"), AudioKind::Other);
    assert_eq!(sniff_format(b"fLaX rest"), AudioKind::Other);
    assert_eq!(sniff_format(b"ID3\x03 mp3 data"), AudioKind::Other);
    assert_eq!(sniff_format(&[]), AudioKind::Other);
}

#[test]
fn wrong_magic_fails_with_invalid_magic() {
    let mut container = build_container(&make_key_section(b"key"), &[], &[], b"audio");
    container[0] = b'X';
    assert_eq!(
        decode_ncm(&container).unwrap_err(),
        DecodeError::Format(FormatError::InvalidMagic)
    );
}

#[test]
fn empty_and_short_buffers_fail_truncated() {
    assert_eq!(
        parse_container(&[]).unwrap_err(),
        FormatError::Truncated
    );
    assert_eq!(
        parse_container(b"CTENFDAM").unwrap_err(),
        FormatError::Truncated
    );
}

#[test]
fn oversized_length_field_fails_truncated() {
    let mut container = Vec::new();
    container.extend_from_slice(b"CTENFDAM");
    container.extend_from_slice(&[0u8, 0u8]);
    container.extend_from_slice(&1000u32.to_le_bytes());
    container.extend_from_slice(&[7u8; 10]);
    assert_eq!(
        decode_ncm(&container).unwrap_err(),
        DecodeError::Format(FormatError::Truncated)
    );
}

#[test]
fn parse_returns_exact_sections() {
    let key_section = [0xaau8, 0xbb];
    let container = build_container(&key_section, b"mm", b"iii", b"audio!");
    let sections = parse_container(&container).unwrap();
    assert_eq!(sections.key, key_section.to_vec());
    assert_eq!(sections.audio, b"audio!".to_vec());
}

#[test]
fn key_section_of_bad_block_length_fails() {
    assert_eq!(
        derive_key(&[0u8; 15]).unwrap_err(),
        CryptoError::BlockLength
    );
    let container = build_container(&[0u8; 15], &[], &[], b"audio");
    assert_eq!(
        decode_ncm(&container).unwrap_err(),
        DecodeError::Crypto(CryptoError::BlockLength)
    );
}

#[test]
fn malformed_padding_fails() {
    // One ciphertext block that decrypts to sixteen zero bytes: zero is never
    // a valid padding byte, so unpadding must fail.
    let ct = aes_encrypt(&[0u8; 16], &CORE_KEY);
    let first_block: Vec<u8> = ct[..16].iter().map(|b| b ^ 0x64).collect();
    assert_eq!(derive_key(&first_block).unwrap_err(), CryptoError::Padding);
}

#[test]
fn empty_key_material_fails_key_too_short() {
    // The key blob decrypts to the fixed prefix alone: nothing remains after
    // stripping it.
    let key_section = make_key_section(&[]);
    assert_eq!(derive_key(&key_section).unwrap_err(), CryptoError::KeyTooShort);
    let container = build_container(&key_section, &[], &[], b"audio");
    assert_eq!(
        decode_ncm(&container).unwrap_err(),
        DecodeError::Crypto(CryptoError::KeyTooShort)
    );
}

#[test]
fn empty_key_section_fails_padding() {
    // Zero bytes are a multiple of the block size, but there is no final
    // block to unpad.
    assert_eq!(derive_key(&[]).unwrap_err(), CryptoError::Padding);
}

#[test]
fn empty_audio_payload_decodes_to_empty() {
    let raw_key = b"key-material".to_vec();
    let key_section = make_key_section(&raw_key);
    let container = build_container(&key_section, &[], &[], &[]);
    let decoded = decode_ncm(&container).unwrap();
    assert!(decoded.data.is_empty());
    assert_eq!(decoded.kind, AudioKind::Other);
}

#[test]
fn derive_key_recovers_raw_key() {
    let raw_key = b"sixteen-byte-key".to_vec();
    let key_section = make_key_section(&raw_key);
    assert_eq!(derive_key(&key_section).unwrap(), raw_key);
}

#[test]
fn derive_key_of_one_byte_material() {
    let key_section = make_key_section(&[0x5a]);
    assert_eq!(derive_key(&key_section).unwrap(), vec![0x5a]);
}
