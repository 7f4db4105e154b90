use vox_golem::cue::{cue_audio_data_url, embedded_cue_asset_paths, CUE_AUDIO_DATA_URL_PREFIX};

#[test]
fn contract_cue_assets_are_embedded_data_urls() {
    let cue_asset_paths = embedded_cue_asset_paths(b"RIFF start", b"RIFF stop");

    assert!(cue_asset_paths.start_listening.starts_with(CUE_AUDIO_DATA_URL_PREFIX));
    assert!(cue_asset_paths.stop_listening.starts_with(CUE_AUDIO_DATA_URL_PREFIX));
    assert!(!cue_asset_paths.start_listening.contains("resources/"));
    assert!(!cue_asset_paths.stop_listening.contains("resources/"));
}

#[test]
fn sounds_are_encoded_in_the_standard_alphabet() {
    let encoded = |bytes: &[u8]| cue_audio_data_url(bytes);
    assert_eq!(encoded(b""), "data:audio/wav;base64,");
    assert_eq!(encoded(b"f"), "data:audio/wav;base64,Zg==");
    assert_eq!(encoded(b"fo"), "data:audio/wav;base64,Zm8=");
    assert_eq!(encoded(b"foo"), "data:audio/wav;base64,Zm9v");
    assert_eq!(encoded(b"foob"), "data:audio/wav;base64,Zm9vYg==");
    assert_eq!(encoded(&[0xfb, 0xff, 0xfe]), "data:audio/wav;base64,+//+");
}

/// The character that stands for six bits.
fn symbol(bits: u32) -> char {
    match bits {
        0..=25 => (b'A' + bits as u8) as char,
        26..=51 => (b'a' + (bits - 26) as u8) as char,
        52..=61 => (b'0' + (bits - 52) as u8) as char,
        62 => '+',
        _ => '/',
    }
}

#[test]
fn every_byte_and_every_length_is_encoded_as_stated() {
    let bytes: Vec<u8> = (0..300u32).map(|i| (i * 37 % 256) as u8).collect();
    for len in 0..bytes.len() {
        let given = &bytes[..len];
        let mut expected = String::from(CUE_AUDIO_DATA_URL_PREFIX);
        for at in 0..(len + 2) / 3 * 4 {
            let byte = |i: usize| given.get(i).copied().unwrap_or(0) as u32;
            let first = at / 4 * 3;
            let number = byte(first) * 65536 + byte(first + 1) * 256 + byte(first + 2);
            let bits = [number / 262144, number / 4096 % 64, number / 64 % 64, number % 64][at % 4];
            expected.push(if at < (4 * len + 2) / 3 { symbol(bits) } else { '=' });
        }
        assert_eq!(cue_audio_data_url(given), expected);
    }
}
