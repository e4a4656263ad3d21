use syphon::fourcc;
use syphon::utils::decimal_text;
use syphon::utils::pixel_format::{ARGB, BGRA, RGBA, YUVS};

#[test]
fn fourcc_packs_first_letter_highest() {
    assert_eq!(fourcc(b'B', b'G', b'R', b'A'), 0x4247_5241);
    assert_eq!(fourcc(0, 0, 0, 1), 1);
    assert_eq!(fourcc(1, 0, 0, 0), 0x0100_0000);
    assert_eq!(fourcc(0xff, 0xff, 0xff, 0xff), u32::MAX);
}

#[test]
fn named_formats_are_fourcc_codes() {
    assert_eq!(BGRA, fourcc(b'B', b'G', b'R', b'A'));
    assert_eq!(ARGB, fourcc(b'A', b'R', b'G', b'B'));
    assert_eq!(RGBA, fourcc(b'R', b'G', b'B', b'A'));
    assert_eq!(YUVS, fourcc(b'Y', b'U', b'V', b'S'));
}

#[test]
fn decimal_text_matches_formatting() {
    for n in [0u64, 7, 10, 42, 1000, 4_294_967_295, u64::MAX] {
        assert_eq!(decimal_text(n), format!("{}", n));
    }
}
