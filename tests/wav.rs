use honeybee::wav::{duration_ms, encode_header, encode_wav, AudioFormat};

#[test]
fn duration_formula() {
    assert_eq!(duration_ms(44100, AudioFormat::new(44100, 1)), 1000);
    assert_eq!(duration_ms(96000, AudioFormat::new(48000, 2)), 1000);
    assert_eq!(duration_ms(22050, AudioFormat::new(44100, 1)), 500);
    assert_eq!(duration_ms(1, AudioFormat::new(44100, 1)), 0);
    assert_eq!(duration_ms(100, AudioFormat::new(44100, 2)), 1);
    assert_eq!(duration_ms(0, AudioFormat::new(8000, 1)), 0);
}

#[test]
fn header_fields_for_stereo() {
    let f = AudioFormat::new(48000, 2);
    assert_eq!(f.byte_rate(), 192000);
    assert_eq!(f.block_align(), 4);
    let h = encode_header(f, 10);
    assert_eq!(h.len(), 44);
    assert_eq!(&h[0..4], b"RIFF");
    assert_eq!(u32::from_le_bytes([h[4], h[5], h[6], h[7]]), 36 + 20);
    assert_eq!(&h[12..16], b"fmt ");
    assert_eq!(u32::from_le_bytes([h[16], h[17], h[18], h[19]]), 16);
    assert_eq!(u16::from_le_bytes([h[20], h[21]]), 1);
    assert_eq!(u16::from_le_bytes([h[22], h[23]]), 2);
    assert_eq!(u32::from_le_bytes([h[24], h[25], h[26], h[27]]), 48000);
    assert_eq!(u32::from_le_bytes([h[28], h[29], h[30], h[31]]), 192000);
    assert_eq!(u16::from_le_bytes([h[32], h[33]]), 4);
    assert_eq!(u16::from_le_bytes([h[34], h[35]]), 16);
    assert_eq!(u32::from_le_bytes([h[40], h[41], h[42], h[43]]), 20);
}

#[test]
fn writable_formats() {
    assert!(AudioFormat::new(44100, 1).is_writable());
    assert!(!AudioFormat::new(0, 1).is_writable());
    assert!(!AudioFormat::new(44100, 0).is_writable());
    assert!(!AudioFormat::new(u32::MAX, 2).is_writable());
}

#[test]
fn encoding_is_deterministic() {
    let f = AudioFormat::new(22050, 1);
    let s: Vec<i16> = vec![0, 1, -1, 32767, -32767, 1234];
    assert_eq!(encode_wav(&s, f), encode_wav(&s.clone(), f));
}

#[test]
fn full_scale_samples_are_little_endian() {
    let f = AudioFormat::new(8000, 1);
    let b = encode_wav(&vec![32767, -32767, 0, -1, 256], f);
    assert_eq!(&b[44..], &[0xff, 0x7f, 0x01, 0x80, 0, 0, 0xff, 0xff, 0x00, 0x01]);
}

#[test]
fn empty_encoding_is_header_only() {
    let b = encode_wav(&Vec::new(), AudioFormat::new(8000, 1));
    assert_eq!(b.len(), 44);
    assert_eq!(u32::from_le_bytes([b[4], b[5], b[6], b[7]]), 36);
}
