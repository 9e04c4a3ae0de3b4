use cert_materializer::nul::{find_nul, read_through_nul, read_until_nul, NUL};

#[test]
fn nul_is_the_zero_byte() {
    assert_eq!(NUL, 0u8);
}

#[test]
fn find_nul_in_empty_slice() {
    let bytes: [u8; 0] = [];
    assert_eq!(find_nul(&bytes), None);
}

#[test]
fn find_nul_without_zero() {
    assert_eq!(find_nul(&[1u8, 2u8, 255u8]), None);
}

#[test]
fn find_nul_gives_first_of_several() {
    assert_eq!(find_nul(&[5u8, 0u8, 6u8, 0u8, 0u8]), Some(1usize));
}

#[test]
fn find_nul_at_start_and_end() {
    assert_eq!(find_nul(&[0u8, 1u8, 2u8]), Some(0usize));
    assert_eq!(find_nul(&[1u8, 2u8, 0u8]), Some(2usize));
    assert_eq!(find_nul(&[0u8]), Some(0usize));
}

#[test]
fn read_until_nul_stops_before_first_zero() {
    assert_eq!(read_until_nul(&[b'p', b'e', b'm', 0u8, b'x', 0u8]), &[b'p', b'e', b'm'][..]);
    assert_eq!(read_until_nul(&[0u8, b'x']), &[0u8; 0][..]);
}

#[test]
fn read_until_nul_without_zero_gives_all() {
    assert_eq!(read_until_nul(&[b'p', b'e', b'm']), &[b'p', b'e', b'm'][..]);
    let empty: [u8; 0] = [];
    assert_eq!(read_until_nul(&empty), &empty[..]);
}

#[test]
fn read_through_nul_keeps_the_first_zero() {
    assert_eq!(
        read_through_nul(&[b'p', b'e', b'm', 0u8, b'x', 0u8]),
        Some(&[b'p', b'e', b'm', 0u8][..])
    );
    assert_eq!(read_through_nul(&[0u8, 0u8]), Some(&[0u8][..]));
}

#[test]
fn read_through_nul_without_zero_gives_none() {
    assert_eq!(read_through_nul(&[b'p', b'e', b'm']), None);
    let empty: [u8; 0] = [];
    assert_eq!(read_through_nul(&empty), None);
}
