use lib::{cstr_len, pack_inline, unpack_inline, INLINE_BYTES};

#[test]
fn pack_short_path_fills_words_little_endian() {
    let mut payload: [u64; 6] = [7, 9, 0xFFFF, 0xFFFF, 0xFFFF, 0xFFFF];
    let n = pack_inline(&mut payload, b"abc");
    assert_eq!(n, 3);
    assert_eq!(payload, [7, 9, 0x0063_6261, 0, 0, 0]);
}

#[test]
fn pack_empty_clears_inline_words() {
    let mut payload: [u64; 6] = [1, 2, 3, 4, 5, 6];
    let n = pack_inline(&mut payload, b"");
    assert_eq!(n, 0);
    assert_eq!(payload, [1, 2, 0, 0, 0, 0]);
}

#[test]
fn pack_truncates_long_input() {
    let bytes: Vec<u8> = (1u8..=40).collect();
    let mut payload: [u64; 6] = [0; 6];
    let n = pack_inline(&mut payload, &bytes);
    assert_eq!(n, INLINE_BYTES);
    assert!(n < bytes.len());
    assert_eq!(payload[2], 0x0807_0605_0403_0201);
    assert_eq!(payload[3], 0x100F_0E0D_0C0B_0A09);
    assert_eq!(payload[4], 0x1817_1615_1413_1211);
    assert_eq!(payload[5], 0x201F_1E1D_1C1B_1A19);
}

#[test]
fn pack_exactly_thirty_two_bytes() {
    let bytes = [0xABu8; 32];
    let mut payload: [u64; 6] = [0; 6];
    assert_eq!(pack_inline(&mut payload, &bytes), 32);
    assert_eq!(payload[2..], [0xABAB_ABAB_ABAB_ABAB; 4]);
}

#[test]
fn unpack_reads_words_little_endian() {
    let payload: [u64; 6] = [11, 12, 0x0807_0605_0403_0201, 0, 0xFF, 0x0100_0000_0000_0000];
    let buf = unpack_inline(&payload);
    let mut want = [0u8; 32];
    for i in 0..8 {
        want[i] = (i + 1) as u8;
    }
    want[16] = 0xFF;
    want[31] = 1;
    assert_eq!(buf, want);
}

#[test]
fn unpack_after_pack_gives_packed_bytes_then_zeros() {
    let mut payload: [u64; 6] = [5, 6, 1, 2, 3, 4];
    let data = b"hello, inline world";
    let n = pack_inline(&mut payload, data);
    let buf = unpack_inline(&payload);
    assert_eq!(&buf[..n], &data[..]);
    assert!(buf[n..].iter().all(|&b| b == 0));
    assert_eq!(payload[0], 5);
    assert_eq!(payload[1], 6);
}

#[test]
fn unpack_after_pack_of_long_input_keeps_first_thirty_two() {
    let data: Vec<u8> = (100u8..150).collect();
    let mut payload: [u64; 6] = [0; 6];
    pack_inline(&mut payload, &data);
    assert_eq!(&unpack_inline(&payload)[..], &data[..32]);
}

#[test]
fn pack_after_unpack_restores_payload() {
    let original: [u64; 6] = [1, 2, 0xDEAD_BEEF_0000_0001, u64::MAX, 0, 0x0102_0304_0506_0708];
    let buf = unpack_inline(&original);
    let mut payload = original;
    payload[2] = 0;
    payload[5] = 77;
    let n = pack_inline(&mut payload, &buf);
    assert_eq!(n, 32);
    assert_eq!(payload, original);
}

#[test]
fn path_roundtrip_through_payload() {
    let path = b"/bin/sh";
    let mut payload: [u64; 6] = [0; 6];
    pack_inline(&mut payload, path);
    let buf = unpack_inline(&payload);
    let len = cstr_len(&buf);
    assert_eq!(len, path.len());
    assert_eq!(&buf[..len], &path[..]);
}

#[test]
fn path_of_thirty_two_bytes_has_no_terminator() {
    let path = [b'x'; 32];
    let mut payload: [u64; 6] = [0; 6];
    pack_inline(&mut payload, &path);
    assert_eq!(cstr_len(&unpack_inline(&payload)), 32);
}

#[test]
fn cstr_len_stops_at_first_nul() {
    assert_eq!(cstr_len(b"abc\0def\0"), 3);
    assert_eq!(cstr_len(b"\0abc"), 0);
}

#[test]
fn cstr_len_without_nul_is_length() {
    assert_eq!(cstr_len(b"abc"), 3);
    assert_eq!(cstr_len(b""), 0);
}
