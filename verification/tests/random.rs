use guestrand::RandomSource;
use guestrand::SyscallError;

use rand::RngCore;
use rand::SeedableRng;

fn expected_stream(seed: u64, len: usize) -> Vec<u8> {
    let mut rng = rand::rngs::StdRng::seed_from_u64(seed);
    let mut out: Vec<u8> = Vec::new();
    while out.len() < len {
        let w = rng.next_u64();
        for b in w.to_le_bytes() {
            out.push(b);
        }
    }
    out.truncate(len);
    out
}

fn draw(src: &mut RandomSource, n: usize) -> Vec<u8> {
    let mut buf = vec![0u8; n];
    src.draw_bytes(&mut buf);
    buf
}

#[test]
fn draws_match_the_underlying_generator() {
    let mut src = RandomSource::new(2024);
    assert_eq!(draw(&mut src, 32), expected_stream(2024, 32));
}

#[test]
fn cursor_is_byte_granular_across_draw_sizes() {
    // Drawing 3 + 5 + 8 bytes sees exactly the same stream as 16 at once.
    let mut split = RandomSource::new(77);
    let mut joined: Vec<u8> = Vec::new();
    joined.extend(draw(&mut split, 3));
    joined.extend(draw(&mut split, 5));
    joined.extend(draw(&mut split, 8));
    let mut whole = RandomSource::new(77);
    assert_eq!(joined, draw(&mut whole, 16));
    assert_eq!(joined, expected_stream(77, 16));
}

#[test]
fn different_seeds_differ() {
    let mut a = RandomSource::new(1);
    let mut b = RandomSource::new(2);
    assert_ne!(draw(&mut a, 16), draw(&mut b, 16));
}

#[test]
fn empty_draw_leaves_the_stream_in_place() {
    let mut src = RandomSource::new(13);
    let mut empty: Vec<u8> = Vec::new();
    src.draw_bytes(&mut empty);
    assert!(empty.is_empty());
    assert_eq!(draw(&mut src, 8), expected_stream(13, 8));
}

#[test]
fn bad_address_maps_to_negative_efault() {
    assert_eq!(SyscallError::BadAddress.to_retval(), -14);
}
