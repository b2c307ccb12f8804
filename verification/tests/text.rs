use devicehub::recovery::is_decode_error;
use devicehub::text::decimal_text;
use devicehub::wire::{read_be16, read_be32};

#[test]
fn decode_errors_are_told_by_their_words() {
    assert!(is_decode_error("[hevc @ 0x1] Could not find ref with POC 12\n"));
    assert!(is_decode_error("Error constructing the frame RPS."));
    assert!(is_decode_error("x error while decoding MB"));
    assert!(!is_decode_error("could not find ref"));
    assert!(!is_decode_error(""));
    assert!(!is_decode_error("frame=  12 fps=60"));
}

#[test]
fn numbers_are_written_in_decimal() {
    for n in [0usize, 7, 9, 10, 99, 100, 12345, usize::MAX] {
        assert_eq!(decimal_text(n), n.to_string());
    }
}

#[test]
fn numbers_are_read_big_endian() {
    let bytes = [1, 2, 3, 4, 5];
    assert_eq!(read_be16(&bytes, 3), 0x0405);
    assert_eq!(read_be32(&bytes, 1), 0x0203_0405);
}
