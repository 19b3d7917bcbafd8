//! Tests for the standalone encoding primitives: color channel
//! reversal, duration-to-milliseconds, flag packing, and decimal
//! rendering.
use source_settings::color::{decode_color, encode_color, Rgba};
use source_settings::duration::Duration;
use source_settings::flags::{encode_flags, FontFlags};
use source_settings::numfmt::dec_string_u32;

#[test]
fn color_encode_reverses_channels() {
    let c = Rgba::new(255, 0, 0, 255);
    assert_eq!(encode_color(c), 0xFF00_00FF);
    let c2 = Rgba::new(0x12, 0x34, 0x56, 0x78);
    assert_eq!(encode_color(c2), 0x7856_3412);
}

#[test]
fn color_decode_inverts_encode() {
    for &(r, g, b, a) in &[(255, 0, 0, 255), (209, 209, 209, 255), (1, 2, 3, 4), (0, 0, 0, 0)] {
        let c = Rgba::new(r, g, b, a);
        let back = decode_color(encode_color(c));
        assert_eq!(back, c);
    }
}

#[test]
fn color_decode_picks_bytes() {
    let c = decode_color(0x7856_3412);
    assert_eq!(c, Rgba::new(0x12, 0x34, 0x56, 0x78));
}

#[test]
fn millis_truncates_fractions() {
    let d = Duration::new(0, 999_999).unwrap();
    assert_eq!(d.num_milliseconds(), 0);
    let d = Duration::new(0, 1_000_000).unwrap();
    assert_eq!(d.num_milliseconds(), 1);
    let d = Duration::new(1, 500_000_000).unwrap();
    assert_eq!(d.num_milliseconds(), 1500);
}

#[test]
fn millis_of_whole_seconds() {
    assert_eq!(Duration::seconds(8).num_milliseconds(), 8000);
    assert_eq!(Duration::seconds(0).num_milliseconds(), 0);
    assert_eq!(Duration::seconds(-2).num_milliseconds(), -2000);
}

#[test]
fn millis_round_trips_through_constructor() {
    for &ms in &[0i64, 1, 50, 100, 400, 700, -1, -500, 9_223_372_036_854_775_807, -9_223_372_036_854_775_807] {
        assert_eq!(Duration::milliseconds(ms).num_milliseconds(), ms);
    }
}

#[test]
fn millis_truncate_toward_zero_when_negative() {
    // -0.5ms is zero whole milliseconds; -1.5ms is minus one.
    let d = Duration::new(-1, 999_500_000).unwrap();
    assert_eq!(d.num_milliseconds(), 0);
    let d = Duration::new(-1, 998_500_000).unwrap();
    assert_eq!(d.num_milliseconds(), -1);
}

#[test]
fn millis_is_monotonic_on_samples() {
    let samples = [
        Duration::new(0, 0).unwrap(),
        Duration::new(0, 49_900_000).unwrap(),
        Duration::new(0, 50_000_000).unwrap(),
        Duration::new(0, 50_100_000).unwrap(),
        Duration::new(8, 0).unwrap(),
    ];
    for w in samples.windows(2) {
        assert!(w[0].num_milliseconds() <= w[1].num_milliseconds());
    }
}

#[test]
fn millis_matches_chrono() {
    let pairs = [(1234i64, 0u32), (0, 999_999), (0, 1_000_001), (7, 5_000_000)];
    for &(secs, nanos) in &pairs {
        let ours = Duration::new(secs, nanos).unwrap();
        let theirs = chrono::Duration::new(secs, nanos).unwrap();
        assert_eq!(ours.num_milliseconds(), theirs.num_milliseconds());
    }
    // Negative durations truncate the same way chrono does.
    let ours = Duration::milliseconds(-1500);
    let theirs = chrono::Duration::milliseconds(-1500);
    assert_eq!(ours.num_milliseconds(), theirs.num_milliseconds());
    let ours = Duration::new(-1, 999_500_000).unwrap();
    let theirs = chrono::Duration::new(-1, 999_500_000).unwrap();
    assert_eq!(ours.num_milliseconds(), theirs.num_milliseconds());
}

#[test]
fn duration_new_rejects_out_of_range() {
    assert!(Duration::new(0, 1_000_000_000).is_none());
    assert!(Duration::new(9_223_372_036_854_776, 0).is_none());
    assert!(Duration::new(9_223_372_036_854_775, 807_000_001).is_none());
    assert!(Duration::new(9_223_372_036_854_775, 807_000_000).is_some());
    assert!(Duration::new(-9_223_372_036_854_776, 192_999_999).is_none());
    assert!(Duration::new(-9_223_372_036_854_776, 193_000_000).is_some());
}

#[test]
fn empty_flags_pack_to_zero() {
    assert_eq!(encode_flags(FontFlags::empty()), 0);
}

#[test]
fn each_flag_has_its_own_bit() {
    assert_eq!(
        encode_flags(FontFlags { bold: true, italic: false, underline: false, strikeout: false }),
        1
    );
    assert_eq!(
        encode_flags(FontFlags { bold: false, italic: true, underline: false, strikeout: false }),
        2
    );
    assert_eq!(
        encode_flags(FontFlags { bold: false, italic: false, underline: true, strikeout: false }),
        4
    );
    assert_eq!(
        encode_flags(FontFlags { bold: false, italic: false, underline: false, strikeout: true }),
        8
    );
}

#[test]
fn disjoint_flag_unions_pack_to_or() {
    let bold = FontFlags::bold_only();
    let italic = FontFlags::italic_only();
    assert_eq!(encode_flags(bold.union(italic)), encode_flags(bold) | encode_flags(italic));
    assert_eq!(encode_flags(bold.union(italic)), 3);
    let all = FontFlags { bold: true, italic: true, underline: true, strikeout: true };
    assert_eq!(encode_flags(all), 15);
    assert_eq!(encode_flags(FontFlags::empty().union(all)), 15);
}

#[test]
fn decimal_rendering() {
    assert_eq!(dec_string_u32(0), "0");
    assert_eq!(dec_string_u32(9), "9");
    assert_eq!(dec_string_u32(10), "10");
    assert_eq!(dec_string_u32(1080), "1080");
    assert_eq!(dec_string_u32(4_294_967_295), "4294967295");
}
