use yorunix::kernel::support::{bcmp, memcmp, memcpy, memmove, memset};

#[test]
fn support_memcpy_copies_prefix() {
    let mut d = [9u8; 6];
    memcpy(&mut d, &[1, 2, 3, 4], 3);
    assert_eq!(d, [1, 2, 3, 9, 9, 9]);
    memcpy(&mut d, &[7], 0);
    assert_eq!(d, [1, 2, 3, 9, 9, 9]);
}

#[test]
fn support_memmove_forward_overlap() {
    let mut b = [1u8, 2, 3, 4, 5, 6, 7];
    memmove(&mut b, 0, 2, 4);
    assert_eq!(b, [3, 4, 5, 6, 5, 6, 7]);
}

#[test]
fn support_memmove_backward_overlap() {
    let mut b = [1u8, 2, 3, 4, 5, 6, 7];
    memmove(&mut b, 2, 0, 4);
    assert_eq!(b, [1, 2, 1, 2, 3, 4, 7]);
}

#[test]
fn support_memmove_same_place_and_disjoint() {
    let mut b = [1u8, 2, 3, 4];
    memmove(&mut b, 1, 1, 3);
    assert_eq!(b, [1, 2, 3, 4]);
    memmove(&mut b, 0, 3, 1);
    assert_eq!(b, [4, 2, 3, 4]);
}

#[test]
fn support_memset_uses_low_byte() {
    let mut s = [0u8; 5];
    memset(&mut s, 0x1AB, 3);
    assert_eq!(s, [0xAB, 0xAB, 0xAB, 0, 0]);
    memset(&mut s, -1, 1);
    assert_eq!(s, [0xFF, 0xAB, 0xAB, 0, 0]);
}

#[test]
fn support_memcmp_first_difference() {
    assert_eq!(memcmp(b"abc", b"abc", 3), 0);
    assert_eq!(memcmp(b"abd", b"abc", 3), 1);
    assert_eq!(memcmp(b"abc", b"abd", 3), -1);
    assert_eq!(memcmp(&[0, 255], &[0, 0], 2), 255);
    assert_eq!(memcmp(&[0, 0], &[0, 255], 2), -255);
    assert_eq!(memcmp(b"abX", b"abY", 2), 0);
    assert_eq!(memcmp(b"", b"", 0), 0);
}

#[test]
fn support_bcmp_matches_memcmp() {
    assert_eq!(bcmp(b"xyz", b"xya", 3), memcmp(b"xyz", b"xya", 3));
    assert_eq!(bcmp(b"same", b"same", 4), 0);
}

#[test]
fn support_memcmp_antisymmetric_and_zero_iff_equal() {
    let pairs: [(&[u8], &[u8]); 4] = [
        (b"abcd", b"abce"),
        (b"zz", b"aa"),
        (b"\x00\xff", b"\x00\xff"),
        (b"k", b"k"),
    ];
    for (a, b) in pairs {
        assert_eq!(memcmp(a, b, a.len()), -memcmp(b, a, a.len()));
        assert_eq!(memcmp(a, b, a.len()) == 0, a == b);
    }
}
