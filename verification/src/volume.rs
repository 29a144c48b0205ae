//! Device numbers of volumes on disk partitions.
//!
//! `StatFs::dev` of a volume on a disk partition (every /volN) is
//! `VOLUME_DEV | disk << 48 | start`: `disk` the block slot index, `start`
//! the partition's first sector, so a tool can tell which partition a mount
//! point is. Other file systems (tmpfs, the boot archive) have small numbers
//! without the `VOLUME_DEV` bit.

use vstd::prelude::*;

verus! {

/// The bit that marks a device number as a volume on a disk partition.
pub const VOLUME_DEV: u64 = 0x8000_0000_0000_0000;

/// Disk numbers are kept to 15 bits, from bit 48 up.
pub const DISK_LIMIT: u64 = 0x8000;

/// Start sectors are kept to 48 bits, from bit 0 up.
pub const START_LIMIT: u64 = 0x1_0000_0000_0000;

/// The device number of the volume on disk `disk` that starts at sector
/// `start`: the volume bit, then the disk number modulo 2^15 times 2^48,
/// then the start sector modulo 2^48.
pub open spec fn volume_dev_value(disk: u64, start: u64) -> u64 {
    (0x8000_0000_0000_0000 + (disk % DISK_LIMIT) * START_LIMIT + start % START_LIMIT) as u64
}

/// The (disk, start) pair that a device number names, `None` for a number
/// without the volume bit.
pub open spec fn volume_source_value(dev: u64) -> Option<(u64, u64)> {
    if dev < VOLUME_DEV {
        None
    } else {
        Some(((dev / START_LIMIT) % DISK_LIMIT, dev % START_LIMIT))
    }
}

/// `StatFs::dev` of a volume on a disk partition: `VOLUME_DEV | disk << 48 |
/// start`, disk and start cut to their fields.
pub fn volume_dev(disk: u64, start: u64) -> (dev: u64)
    ensures
        dev == volume_dev_value(disk, start),
        dev & VOLUME_DEV != 0,
        (dev >> 48) & 0x7FFF == disk & 0x7FFF,
        dev & 0xFFFF_FFFF_FFFF == start & 0xFFFF_FFFF_FFFF,
{
    let dev: u64 = VOLUME_DEV | (disk & 0x7FFF) << 48 | (start & 0xFFFF_FFFF_FFFF);
    assert(dev == (0x8000_0000_0000_0000 + (disk % 0x8000) * 0x1_0000_0000_0000 + start
        % 0x1_0000_0000_0000) as u64) by (bit_vector)
        requires
            dev == 0x8000_0000_0000_0000u64 | (disk & 0x7FFF) << 48 | (start & 0xFFFF_FFFF_FFFF),
    ;
    assert({
        &&& dev & 0x8000_0000_0000_0000u64 != 0
        &&& (dev >> 48) & 0x7FFF == disk & 0x7FFF
        &&& dev & 0xFFFF_FFFF_FFFF == start & 0xFFFF_FFFF_FFFF
    }) by (bit_vector)
        requires
            dev == 0x8000_0000_0000_0000u64 | (disk & 0x7FFF) << 48 | (start & 0xFFFF_FFFF_FFFF),
    ;
    dev
}

/// (disk, start) of a volume's `dev`, `None` for other file systems.
pub fn volume_source(dev: u64) -> (source: Option<(u64, u64)>)
    ensures
        source == volume_source_value(dev),
        source is None <==> dev & VOLUME_DEV == 0,
        source matches Some((disk, start)) ==> disk == (dev >> 48) & 0x7FFF && start == dev
            & 0xFFFF_FFFF_FFFF,
{
    if dev & VOLUME_DEV == 0 {
        assert(dev & 0x8000_0000_0000_0000u64 == 0 ==> dev < 0x8000_0000_0000_0000u64)
            by (bit_vector);
        None
    } else {
        let disk: u64 = (dev >> 48) & 0x7FFF;
        let start: u64 = dev & 0xFFFF_FFFF_FFFF;
        assert(dev & 0x8000_0000_0000_0000u64 != 0 ==> dev >= 0x8000_0000_0000_0000u64)
            by (bit_vector);
        assert((dev >> 48) & 0x7FFF == (dev / 0x1_0000_0000_0000) % 0x8000) by (bit_vector);
        assert(dev & 0xFFFF_FFFF_FFFF == dev % 0x1_0000_0000_0000) by (bit_vector);
        Some((disk, start))
    }
}

/// Law: the source of a volume's device number is the disk and start it
/// was made from, each cut to its field; exactly, where they fit.
pub proof fn lemma_source_of_volume_dev(disk: u64, start: u64)
    ensures
        volume_source_value(volume_dev_value(disk, start)) == Some(
            (disk % DISK_LIMIT, start % START_LIMIT),
        ),
        disk < DISK_LIMIT && start < START_LIMIT ==> volume_source_value(
            volume_dev_value(disk, start),
        ) == Some((disk, start)),
{
    let d = disk % 0x8000;
    let s = start % 0x1_0000_0000_0000;
    let dev = volume_dev_value(disk, start);
    assert(dev == (0x8000_0000_0000_0000 + d * 0x1_0000_0000_0000 + s) as u64);
    assert(d < 0x8000 && s < 0x1_0000_0000_0000 ==> {
        let v = (0x8000_0000_0000_0000 + d * 0x1_0000_0000_0000 + s) as u64;
        &&& v >= 0x8000_0000_0000_0000u64
        &&& (v / 0x1_0000_0000_0000) % 0x8000 == d
        &&& v % 0x1_0000_0000_0000 == s
    }) by (bit_vector);
}

/// Law: a device number with the volume bit is the one `volume_dev` makes
/// from its source.
pub proof fn lemma_volume_dev_of_source(dev: u64)
    ensures
        volume_source_value(dev) matches Some((disk, start)) ==> volume_dev_value(disk, start)
            == dev,
{
    assert(dev >= 0x8000_0000_0000_0000u64 ==> dev == 0x8000_0000_0000_0000u64 + ((dev
        / 0x1_0000_0000_0000) % 0x8000) * 0x1_0000_0000_0000u64 + dev % 0x1_0000_0000_0000)
        by (bit_vector);
}

/// Law: the device number `volume_dev` makes has the volume bit set, the
/// disk's low 15 bits in bits 48..63 and the start's low 48 bits in bits
/// 0..48.
pub proof fn lemma_volume_dev_fields(disk: u64, start: u64)
    ensures
        volume_dev_value(disk, start) & VOLUME_DEV != 0,
        (volume_dev_value(disk, start) >> 48) & 0x7FFF == disk & 0x7FFF,
        volume_dev_value(disk, start) & 0xFFFF_FFFF_FFFF == start & 0xFFFF_FFFF_FFFF,
{
    let v = volume_dev_value(disk, start);
    assert(v == (0x8000_0000_0000_0000 + (disk % 0x8000) * 0x1_0000_0000_0000 + start
        % 0x1_0000_0000_0000) as u64);
    assert({
        &&& v & 0x8000_0000_0000_0000u64 != 0
        &&& (v >> 48) & 0x7FFF == disk & 0x7FFF
        &&& v & 0xFFFF_FFFF_FFFF == start & 0xFFFF_FFFF_FFFF
    }) by (bit_vector)
        requires
            v == (0x8000_0000_0000_0000 + (disk % 0x8000) * 0x1_0000_0000_0000 + start
                % 0x1_0000_0000_0000) as u64,
    ;
}

/// Law: `volume_source` gives `None` exactly for a device number without
/// the volume bit (tmpfs, the boot archive), and otherwise the disk from
/// bits 48..63 and the start sector from bits 0..48.
pub proof fn lemma_volume_source_fields(dev: u64)
    ensures
        volume_source_value(dev) is None <==> dev & VOLUME_DEV == 0,
        volume_source_value(dev) matches Some((disk, start)) ==> disk == (dev >> 48) & 0x7FFF
            && start == dev & 0xFFFF_FFFF_FFFF,
{
    assert({
        &&& (dev & 0x8000_0000_0000_0000u64 == 0 <==> dev < 0x8000_0000_0000_0000u64)
        &&& (dev >> 48) & 0x7FFF == (dev / 0x1_0000_0000_0000) % 0x8000
        &&& dev & 0xFFFF_FFFF_FFFF == dev % 0x1_0000_0000_0000
    }) by (bit_vector);
}

} // verus!
