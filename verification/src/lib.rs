//! The VFS protocol shared between the VFS server and every client.
//!
//! Sessions run over IPC channels with a shared-memory window for paths and
//! bulk data. Requests carry integer arguments in the message payload; short
//! paths and data may instead travel inline in `payload[2..6]`.
//!
//! Reply: `payload[0]` = status (0 or a negative `facility:code`), then
//! operation-specific results.

pub mod inline;
pub mod records;
pub mod volume;

pub use inline::{cstr_len, pack_inline, unpack_inline, INLINE_BYTES};
pub use records::{
    rec_len, Dirent, Stat, StatFs, TrashEntry, DIRENT_HEADER, FEATURE_HARDLINKS, FEATURE_PERSISTENT,
    FEATURE_QUOTA, FEATURE_READONLY, FEATURE_REFLINK, FEATURE_SCRUB, FEATURE_SNAPSHOTS,
    FEATURE_SPARSE, FEATURE_SUBVOLUMES, FEATURE_SYMLINKS, FEATURE_TRASH, FEATURE_XATTR, FLAG_HIDDEN,
    KIND_DIR, KIND_FIFO, KIND_FILE, KIND_SYMLINK, TRASH_HEADER,
};
pub use volume::{volume_dev, volume_source, VOLUME_DEV};

use vstd::prelude::*;

verus! {

// ── open modes (bitfield) ───────────────────────────────────────────────
pub const MODE_READ: u64 = 1 << 0;
pub const MODE_WRITE: u64 = 1 << 1;
pub const MODE_TRUNCATE: u64 = 1 << 2;
pub const MODE_CREATE: u64 = 1 << 3;
/// open() asserts the entry is a directory.
pub const MODE_DIR: u64 = 1 << 4;

/// Service-directory name.
pub const SERVICE: &'static [u8; 3] = &[0x76, 0x66, 0x73];
pub const VERSION: u64 = 2;

/// Longest path, in bytes (NUL not included).
pub const PATH_MAX: usize = 32768;
/// Longest name of one path component.
pub const NAME_MAX: usize = 255;
/// Window size clients create by default (paths + one 1 MiB transfer).
pub const WINDOW_DEFAULT: usize = 1 << 20;
/// Smallest window the server accepts (must hold a PATH_MAX path).
pub const WINDOW_MIN: usize = 64 * 1024;
/// Most symbolic links followed while resolving one path.
pub const SYMLINK_MAX: usize = 40;
/// Directory handle meaning "the root" for *at-style operations.
pub const ROOT: u64 = 0xFFFF_FFFF_FFFF_FFFF;

// ── operations ──────────────────────────────────────────────────────────
/// HELLO: window handle moved in slot 0.
/// reply: [status, VERSION, window bytes]
pub const HELLO: u32 = 0x200;
/// OPEN(dir, path_len, flags, mode): path at window[0..path_len].
/// reply: [status, handle]; Stat of the opened object at window[0].
pub const OPEN: u32 = 0x201;
/// CLOSE(h). reply: [status]
pub const CLOSE: u32 = 0x202;
/// READ(h, offset, len): len <= window. reply: [status, n]; data at window[0..n].
pub const READ: u32 = 0x203;
/// WRITE(h, offset, len, flags): data at window[0..len]; WRITE_APPEND
/// ignores offset. reply: [status, n, new offset]
pub const WRITE: u32 = 0x204;
/// STAT(dir, path_len, flags=AT_NOFOLLOW?). reply: [status]; Stat at window[0].
pub const STAT: u32 = 0x205;
/// FSTAT(h). reply: [status]; Stat at window[0].
pub const FSTAT: u32 = 0x206;
/// TRUNCATE(h, size). reply: [status]
pub const TRUNCATE: u32 = 0x207;
/// FSYNC(h, flags=FSYNC_DATA?). reply: [status]
pub const FSYNC: u32 = 0x208;
/// MKDIR(dir, path_len, mode). reply: [status]
pub const MKDIR: u32 = 0x209;
/// UNLINK(dir, path_len, flags=AT_REMOVEDIR?). reply: [status]
pub const UNLINK: u32 = 0x20A;
/// RENAME(olddir, old_len, newdir, new_len, flags): old path at
/// window[0..old_len], new path right after it. reply: [status]
pub const RENAME: u32 = 0x20B;
/// LINK(olddir, old_len, newdir, new_len, flags): layout as RENAME.
pub const LINK: u32 = 0x20C;
/// SYMLINK(dir, path_len, target_len): path, then target. reply: [status]
pub const SYMLINK: u32 = 0x20D;
/// READLINK(dir, path_len). reply: [status, n]; target at window[0..n].
pub const READLINK: u32 = 0x20E;
/// READDIR(h, cookie): a batch of `Dirent` records filling the window.
/// Cookie 0 = start. reply: [status, count, next cookie, eof]
pub const READDIR: u32 = 0x20F;
/// SETATTR(h, mask, flags<<32|mode, uid<<32|gid, atime_ns, mtime_ns).
/// reply: [status]
pub const SETATTR: u32 = 0x210;
/// STATFS(dir). reply: [status]; StatFs at window[0].
pub const STATFS: u32 = 0x211;
/// FALLOCATE(h, offset, len, flags). reply: [status]
pub const FALLOCATE: u32 = 0x212;
/// COPY_RANGE(src, src_off, dst, dst_off, len, flags): copy inside the
/// server; shares extents (reflink) where the filesystem can.
/// reply: [status, bytes copied]
pub const COPY_RANGE: u32 = 0x213;
/// XATTR_GET(dir, path_len, name_len, flags=AT_NOFOLLOW?): path, then
/// name. reply: [status, n]; value at window[0..n].
pub const XATTR_GET: u32 = 0x214;
/// XATTR_SET(dir, path_len, name_len, value_len, flags): path, name,
/// value. flags: XATTR_CREATE / XATTR_REPLACE. reply: [status]
pub const XATTR_SET: u32 = 0x215;
/// XATTR_LIST(dir, path_len). reply: [status, n]; names, each
/// followed by NUL, at window[0..n].
pub const XATTR_LIST: u32 = 0x216;
/// XATTR_REMOVE(dir, path_len, name_len). reply: [status]
pub const XATTR_REMOVE: u32 = 0x217;
/// SYNC(volume dir): everything written so far becomes durable.
/// reply: [status]
pub const SYNC: u32 = 0x218;
/// TRASH(dir, path_len): move to the volume's trash. reply: [status, id]
pub const TRASH: u32 = 0x220;
/// TRASH_LIST(cookie, volume dir): `TrashEntry` records filling the
/// window. reply: [status, count, next cookie, eof]
pub const TRASH_LIST: u32 = 0x221;
/// TRASH_RESTORE(id, volume dir, dest dir, dest_len): dest_len 0 =
/// the original path. reply: [status]
pub const TRASH_RESTORE: u32 = 0x222;
/// TRASH_PURGE(id, volume dir). reply: [status]
pub const TRASH_PURGE: u32 = 0x223;
/// TRASH_EMPTY(volume dir). reply: [status, entries removed]
pub const TRASH_EMPTY: u32 = 0x224;
/// SNAPSHOT(volume dir, op, name_len): name at window. Snapshots are
/// read-only views listed in the volume's `/.snapshots` directory.
/// reply: [status, id]
pub const SNAPSHOT: u32 = 0x230;
/// QUOTA(volume dir, op, uid, limit_blocks, limit_inodes): QUOTA_GET or
/// QUOTA_SET (limits in blocks of StatFs::block_size; 0 = none).
/// reply: [status, used_blocks, limit_blocks, used_inodes, limit_inodes]
pub const QUOTA: u32 = 0x231;
/// SCRUB(volume dir, cursor, budget blocks): verify checksums from the
/// device; cursor 0 starts (with all metadata), continue with `next`.
/// reply: [status, next (0 = done), data blocks checked, bad nodes,
/// bad blocks]; bad block numbers (u64) at window, as many as fit.
pub const SCRUB: u32 = 0x232;
/// FSCK(volume dir, flags=FSCK_REPAIR?): check the volume (and repair
/// it). reply: [status, problems found (0 = clean), items dropped,
/// objects moved to /lost+found]; a message at window, NUL-terminated.
pub const FSCK: u32 = 0x233;
/// SUBVOLUME_CREATE(dir, path_len): a new, empty subvolume at the path (a
/// directory that is a tree of its own: snapshots can be taken of it).
/// reply: [status]
pub const SUBVOLUME_CREATE: u32 = 0x234;
/// SNAPSHOT_AT(src dir, src_len, dst dir, dst_len, flags=SNAPSHOT_READONLY?):
/// snapshot of the subvolume (or volume root, or snapshot) at the source
/// path, created at the destination path (layout as RENAME); writable
/// unless SNAPSHOT_READONLY. reply: [status]
pub const SNAPSHOT_AT: u32 = 0x235;
/// SUBVOLUME_DELETE(dir, path_len): delete the subvolume or snapshot at
/// the path with everything in it. reply: [status]
pub const SUBVOLUME_DELETE: u32 = 0x236;

// ── OPEN flags ──────────────────────────────────────────────────────────
// Access: every OPEN says what the handle is for -- at least one of
// O_READ, O_WRITE, O_WRITE_ATTR (EINVAL otherwise) -- and a handle does
// only that (EBADF otherwise). Asking for write access to something on a
// read-only file system fails at OPEN with EROFS.

/// Read data; list a directory.
pub const O_READ: u64 = 1 << 0;
/// Write data, truncate.
pub const O_WRITE: u64 = 1 << 1;
pub const O_CREATE: u64 = 1 << 2;
pub const O_EXCL: u64 = 1 << 3;
pub const O_TRUNC: u64 = 1 << 4;
pub const O_APPEND: u64 = 1 << 5;
pub const O_DIRECTORY: u64 = 1 << 6;
pub const O_NOFOLLOW: u64 = 1 << 7;
/// Change attributes (SETATTR: mode, owner, times, flags), also of a
/// directory. The owner's right.
pub const O_WRITE_ATTR: u64 = 1 << 8;
/// Manage the volume the directory is on: snapshots, quotas, repair,
/// restoring and purging the trash. The owner's right.
pub const O_MANAGE: u64 = 1 << 9;
/// The access bits: an OPEN needs at least one. Permissions are checked
/// once, at OPEN (EACCES: no handle). When they change (or the volume
/// turns read-only), every open handle loses at once the rights they no
/// longer give: calls needing a lost right fail with EACCES; a handle
/// left with none can only be closed.
pub const O_ACCESS: u64 = O_READ | O_WRITE | O_WRITE_ATTR | O_MANAGE;

pub const AT_NOFOLLOW: u64 = 1 << 0;
pub const AT_REMOVEDIR: u64 = 1 << 1;

pub const RENAME_NOREPLACE: u64 = 1 << 0;
pub const RENAME_EXCHANGE: u64 = 1 << 1;

pub const WRITE_APPEND: u64 = 1 << 0;
pub const FSYNC_DATA: u64 = 1 << 0;
/// COPY_RANGE: fail with EOPNOTSUPP rather than copy the bytes.
pub const COPY_REFLINK_ONLY: u64 = 1 << 0;

pub const XATTR_CREATE: u64 = 1 << 0;
pub const XATTR_REPLACE: u64 = 1 << 1;
/// Longest attribute name and value.
pub const XATTR_NAME_MAX: usize = 255;
pub const XATTR_SIZE_MAX: usize = 65536;

pub const SNAPSHOT_CREATE: u64 = 1;
pub const SNAPSHOT_DELETE: u64 = 2;
pub const SNAPSHOT_READONLY: u64 = 1 << 0;
/// Name of the snapshot directory at a volume's root.
pub const SNAPSHOT_DIR: &'static [u8; 10] = &[0x2e, 0x73, 0x6e, 0x61, 0x70, 0x73, 0x68, 0x6f, 0x74, 0x73];

pub const QUOTA_GET: u64 = 1;
pub const QUOTA_SET: u64 = 2;

pub const FSCK_REPAIR: u64 = 1 << 0;

pub const SETATTR_MODE: u64 = 1 << 0;
pub const SETATTR_UID: u64 = 1 << 1;
pub const SETATTR_GID: u64 = 1 << 2;
pub const SETATTR_ATIME: u64 = 1 << 3;
pub const SETATTR_MTIME: u64 = 1 << 4;
/// `Stat::flags` (FLAG_*), in bits 32..40 of the mode word.
pub const SETATTR_FLAGS: u64 = 1 << 5;

} // verus!
