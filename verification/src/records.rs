//! Records that replies place in the window: object metadata, volume
//! statistics, directory entries and trash entries, and the length of a
//! header followed by a name, padded to 8 bytes.

use vstd::prelude::*;

verus! {

/// Not listed by default (`ls` without -a, file dialogs); like a name
/// starting with '.', but set on the object (FAT/exFAT: the hidden
/// attribute).
pub const FLAG_HIDDEN: u8 = 1 << 0;

pub const KIND_FILE: u8 = 1;
pub const KIND_DIR: u8 = 2;
pub const KIND_SYMLINK: u8 = 3;
pub const KIND_FIFO: u8 = 4;

/// Metadata of a file system object.
#[derive(Copy, Clone, Debug, Default, PartialEq, Eq)]
pub struct Stat {
    pub ino: u64,
    pub dev: u64,
    pub size: u64,
    /// Bytes of storage actually allocated (sparse files use less).
    pub allocated: u64,
    pub atime_ns: u64,
    pub mtime_ns: u64,
    pub ctime_ns: u64,
    pub btime_ns: u64,
    pub mode: u32,
    pub nlink: u32,
    pub uid: u32,
    pub gid: u32,
    pub kind: u8,
    /// FLAG_*.
    pub flags: u8,
    pub _pad: [u8; 6],
}

/// Volume statistics.
#[derive(Copy, Clone, Debug, Default)]
pub struct StatFs {
    pub block_size: u64,
    pub total_blocks: u64,
    pub free_blocks: u64,
    pub total_inodes: u64,
    pub free_inodes: u64,
    pub name_max: u64,
    /// FEATURE_* bits.
    pub features: u64,
    pub dev: u64,
}

pub const FEATURE_REFLINK: u64 = 1 << 0;
pub const FEATURE_TRASH: u64 = 1 << 1;
pub const FEATURE_HARDLINKS: u64 = 1 << 2;
pub const FEATURE_SYMLINKS: u64 = 1 << 3;
pub const FEATURE_SPARSE: u64 = 1 << 4;
pub const FEATURE_PERSISTENT: u64 = 1 << 5;
pub const FEATURE_READONLY: u64 = 1 << 6;
pub const FEATURE_XATTR: u64 = 1 << 7;
pub const FEATURE_SNAPSHOTS: u64 = 1 << 8;
pub const FEATURE_QUOTA: u64 = 1 << 9;
pub const FEATURE_SCRUB: u64 = 1 << 10;
pub const FEATURE_SUBVOLUMES: u64 = 1 << 11;

/// One directory entry in a READDIR batch: this header, then `name_len`
/// bytes of name, padded so the next record is 8-aligned (`rec_len`).
#[derive(Copy, Clone, Debug, Default)]
pub struct Dirent {
    pub ino: u64,
    /// Cookie that resumes the listing after this entry.
    pub next: u64,
    pub kind: u8,
    pub _pad: u8,
    pub name_len: u16,
    pub rec_len: u32,
}

/// Bytes of a `Dirent` header in the window: two 8-byte words, then kind,
/// pad, name length (2) and record length (4).
pub const DIRENT_HEADER: usize = 24;

/// One trashed item in a TRASH_LIST batch: header, then the original
/// path (`path_len` bytes), padded to 8 (`rec_len`).
#[derive(Copy, Clone, Debug, Default)]
pub struct TrashEntry {
    pub id: u64,
    pub deleted_ns: u64,
    pub size: u64,
    pub next: u64,
    pub kind: u8,
    pub _pad: [u8; 3],
    pub path_len: u32,
    pub rec_len: u32,
    pub _pad2: u32,
}

/// Bytes of a `TrashEntry` header in the window: four 8-byte words, then
/// kind, three pad bytes, path length, record length and a pad word (4
/// each).
pub const TRASH_HEADER: usize = 48;

/// `x` rounded up to the next multiple of 8.
pub open spec fn align8(x: int) -> int {
    ((x + 7) / 8) * 8
}

/// Record length for a header of `header` bytes plus `n` bytes, 8-aligned.
pub fn rec_len(header: usize, n: usize) -> (len: usize)
    requires
        header + n + 7 <= usize::MAX,
    ensures
        len == align8(header + n),
        len % 8 == 0,
        header + n <= len < header + n + 8,
{
    let y: usize = header + n + 7;
    let len: usize = y & !7;
    assert(y & !7usize == (y / 8) * 8) by (bit_vector);
    len
}

/// Law: the record length of a header and a name is the least multiple of
/// 8 that holds both.
pub proof fn lemma_align8(x: int, m: int)
    requires
        x >= 0,
    ensures
        align8(x) % 8 == 0,
        x <= align8(x) < x + 8,
        x <= m && m % 8 == 0 ==> align8(x) <= m,
{
    if x <= m && m % 8 == 0 {
        assert(((x + 7) / 8) * 8 <= m) by (nonlinear_arith)
            requires
                x <= m,
                m % 8 == 0,
                x >= 0,
        ;
    }
    assert(((x + 7) / 8) * 8 % 8 == 0 && x <= ((x + 7) / 8) * 8 < x + 8) by (nonlinear_arith)
        requires
            x >= 0,
    ;
}

} // verus!
