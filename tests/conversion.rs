use tmp1x2::conversion::{decode_extended, decode_normal, encode_extended, encode_normal};

#[test]
fn normal_round_trip_over_whole_range() {
    for t in -2048i32..=2047 {
        let (msb, lsb) = encode_normal(t);
        assert_eq!(lsb & 0x0F, 0);
        assert_eq!(decode_normal(msb, lsb) as i32, t);
    }
}

#[test]
fn extended_round_trip_over_whole_range() {
    for t in -4096i32..=4094 {
        let (msb, lsb) = encode_extended(t);
        assert_eq!(lsb & 0x07, 0);
        assert_eq!(decode_extended(msb, lsb) as i32, t);
    }
}

#[test]
fn normal_encoding_exact_values() {
    assert_eq!(encode_normal(0), (0x00, 0x00));
    assert_eq!(encode_normal(1), (0x00, 0x10));
    assert_eq!(encode_normal(-1), (0xFF, 0xF0));
    assert_eq!(encode_normal(25 * 16), (0x19, 0x00));
    assert_eq!(encode_normal(2047), (0x7F, 0xF0));
    assert_eq!(encode_normal(-2048), (0x80, 0x00));
}

#[test]
fn extended_encoding_exact_values() {
    assert_eq!(encode_extended(1), (0x00, 0x08));
    assert_eq!(encode_extended(-1), (0xFF, 0xF8));
    assert_eq!(encode_extended(150 * 16), (0x4B, 0x00));
    assert_eq!(encode_extended(4094), (0x7F, 0xF0));
    assert_eq!(encode_extended(-4096), (0x80, 0x00));
}

#[test]
fn normal_encoding_clamps() {
    // 1000 °C and -1000 °C in sixteenths of a degree
    assert_eq!(encode_normal(16000), encode_normal(2047));
    assert_eq!(encode_normal(-16000), encode_normal(-2048));
    assert_eq!(encode_normal(i32::MAX), encode_normal(2047));
    assert_eq!(encode_normal(i32::MIN), encode_normal(-2048));
}

#[test]
fn extended_encoding_clamps() {
    assert_eq!(encode_extended(16000), encode_extended(4094));
    assert_eq!(encode_extended(4095), encode_extended(4094));
    assert_eq!(encode_extended(-16000), encode_extended(-4096));
}

#[test]
fn decoding_ignores_low_bits() {
    assert_eq!(decode_normal(0x19, 0x0F), 25 * 16);
    assert_eq!(decode_normal(0xFF, 0xFF), -1);
    assert_eq!(decode_extended(0xFF, 0xFF), -1);
    assert_eq!(decode_extended(0x4B, 0x07), 150 * 16);
}
