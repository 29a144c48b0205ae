use lib::{volume_dev, volume_source, VOLUME_DEV};

#[test]
fn volume_dev_packs_disk_and_start() {
    assert_eq!(volume_dev(1, 2048), 0x8001_0000_0000_0800);
    assert_eq!(volume_dev(0, 0), VOLUME_DEV);
    assert_eq!(volume_dev(0x7FFF, 0xFFFF_FFFF_FFFF), u64::MAX);
}

#[test]
fn volume_dev_cuts_oversized_fields() {
    assert_eq!(volume_dev(0x8001, (1u64 << 48) | 5), 0x8001_0000_0000_0005);
    assert_eq!(volume_dev(u64::MAX, u64::MAX), u64::MAX);
}

#[test]
fn volume_source_of_other_file_systems_is_none() {
    assert_eq!(volume_source(0), None);
    assert_eq!(volume_source(5), None);
    assert_eq!(volume_source(VOLUME_DEV - 1), None);
}

#[test]
fn volume_source_splits_disk_and_start() {
    assert_eq!(volume_source(0x8001_0000_0000_0800), Some((1, 2048)));
    assert_eq!(volume_source(u64::MAX), Some((0x7FFF, 0xFFFF_FFFF_FFFF)));
    assert_eq!(volume_source(VOLUME_DEV), Some((0, 0)));
}

#[test]
fn volume_source_undoes_volume_dev() {
    for &(disk, start) in &[(0u64, 0u64), (3, 63), (0x7FFF, 1 << 40), (12, 0xFFFF_FFFF_FFFF)] {
        assert_eq!(volume_source(volume_dev(disk, start)), Some((disk, start)));
    }
    assert_eq!(volume_source(volume_dev(0x8002, (1u64 << 50) | 9)), Some((2, 9)));
}

#[test]
fn volume_dev_of_source_is_the_device() {
    for &dev in &[VOLUME_DEV, 0x8001_0000_0000_0800, u64::MAX, 0xC000_1234_5678_9ABC] {
        let (disk, start) = volume_source(dev).unwrap();
        assert_eq!(volume_dev(disk, start), dev);
    }
}
