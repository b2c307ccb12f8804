use std::collections::hash_map::DefaultHasher;
use std::hash::{Hash, Hasher};

use devicehub::picture::{decode_image, encode_png, image_hash, Picture};

fn std_hash(bytes: &[u8]) -> u64 {
    let mut h = DefaultHasher::new();
    bytes.hash(&mut h);
    h.finish()
}

fn checkered() -> Picture {
    Picture { width: 2, height: 1, rgba: vec![255, 0, 0, 255, 0, 0, 255, 128] }
}

#[test]
fn the_hash_is_that_of_std() {
    for bytes in [&[][..], &[0], &[1, 2, 3], &[7; 4096]] {
        assert_eq!(image_hash(bytes), std_hash(bytes));
    }
}

#[test]
fn hashes_tell_pictures_apart() {
    assert_eq!(image_hash(&[1, 2, 3, 4]), image_hash(&[1, 2, 3, 4]));
    assert_ne!(image_hash(&[1, 2, 3, 4]), image_hash(&[1, 2, 3, 5]));
    assert_ne!(image_hash(&[0]), image_hash(&[0, 0]));
}

#[test]
fn a_png_gives_the_picture_back() {
    let file = encode_png(&checkered()).unwrap();
    assert_eq!(&file[..8], &[0x89, b'P', b'N', b'G', 0x0D, 0x0A, 0x1A, 0x0A]);
    let back = decode_image(&file).unwrap();
    assert_eq!((back.width, back.height), (2, 1));
    assert_eq!(back.rgba, checkered().rgba);
}

#[test]
fn a_short_buffer_does_not_encode() {
    assert!(encode_png(&Picture { width: 2, height: 2, rgba: vec![0; 15] }).is_none());
    assert!(encode_png(&Picture { width: 2, height: 2, rgba: vec![0; 16] }).is_some());
}

#[test]
fn dimensions_of_more_than_32_bits_do_not_encode() {
    let wide = Picture { width: 0x1_0000_0002, height: 1, rgba: checkered().rgba };
    assert!(encode_png(&wide).is_none());
    let flat = Picture { width: 0x1_0000_0000, height: 0, rgba: vec![] };
    assert!(encode_png(&flat).is_none());
}

#[test]
fn noise_does_not_decode() {
    assert!(decode_image(&[]).is_none());
    assert!(decode_image(b"not a picture").is_none());
}
