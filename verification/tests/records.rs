use lib::{
    rec_len, Dirent, Stat, StatFs, TrashEntry, DIRENT_HEADER, O_ACCESS, O_MANAGE, O_READ,
    O_WRITE, O_WRITE_ATTR, SERVICE, SNAPSHOT_DIR, TRASH_HEADER,
};

#[test]
fn rec_len_rounds_up_to_eight() {
    assert_eq!(rec_len(DIRENT_HEADER, 0), 24);
    assert_eq!(rec_len(DIRENT_HEADER, 1), 32);
    assert_eq!(rec_len(DIRENT_HEADER, 8), 32);
    assert_eq!(rec_len(DIRENT_HEADER, 9), 40);
    assert_eq!(rec_len(TRASH_HEADER, 3), 56);
    assert_eq!(rec_len(0, 0), 0);
    assert_eq!(rec_len(1, 0), 8);
}

#[test]
fn rec_len_is_aligned_and_holds_the_name() {
    for header in [0usize, 5, DIRENT_HEADER, TRASH_HEADER] {
        for n in 0usize..64 {
            let r = rec_len(header, n);
            assert_eq!(r % 8, 0);
            assert!(header + n <= r && r < header + n + 8);
        }
    }
}

#[test]
fn header_constants_match_record_sizes() {
    assert_eq!(std::mem::size_of::<Dirent>(), DIRENT_HEADER);
    assert_eq!(std::mem::size_of::<TrashEntry>(), TRASH_HEADER);
    assert_eq!(std::mem::size_of::<Stat>(), 88);
    assert_eq!(std::mem::size_of::<StatFs>(), 64);
}

#[test]
fn records_default_to_zero() {
    let s = Stat::default();
    assert_eq!(s, Stat { _pad: [0; 6], ..s });
    assert_eq!(s.size, 0);
    assert_eq!(Dirent::default().rec_len, 0);
    assert_eq!(TrashEntry::default().path_len, 0);
    assert_eq!(StatFs::default().features, 0);
}

#[test]
fn access_bits_and_names() {
    assert_eq!(O_ACCESS, O_READ | O_WRITE | O_WRITE_ATTR | O_MANAGE);
    assert_eq!(O_ACCESS, 0x303);
    assert_eq!(&SERVICE[..], b"vfs");
    assert_eq!(&SNAPSHOT_DIR[..], b".snapshots");
}
