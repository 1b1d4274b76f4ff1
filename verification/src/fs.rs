//! The filesystem bridge: capability-path resolution and the pure decisions
//! behind the synchronous and asynchronous file operations.
//!
//! The sandboxed platform opens no path directly: every operation must go
//! through one of a fixed set of directory descriptors granted at startup,
//! each covering a path prefix.  `open_parent` resolves an absolute-looking
//! path against that set.  The rest of the module computes, from plain
//! values, what each operation hands to the platform (flags, rights,
//! timestamps, the directories a recursive create must make) and how its
//! outcome is judged (which errors a `force` or `recursive` flag absorbs),
//! and parses the packed directory-entry records a directory read returns.

use vstd::bytes::{spec_u32_from_le_bytes, spec_u64_from_le_bytes, u32_from_le_bytes, u64_from_le_bytes};
use vstd::prelude::*;
use vstd::slice::{slice_subrange, slice_to_vec};

verus! {

/// The platform's code for "no such file or directory".
pub const ERRNO_NOENT: u16 = 44;

/// The platform's code for "file exists".
pub const ERRNO_EXIST: u16 = 20;

/// The byte value of the path separator `/`.
pub const SLASH: u8 = 47;

/// The byte value of `.`, the relative path naming a root itself.
pub const DOT: u8 = 46;

/// One directory capability granted to the process at startup: a directory
/// descriptor and the absolute path prefix it covers.
pub struct Preopen {
    pub fd: u32,
    pub prefix: Vec<u8>,
}

#[verifier::external_type_specification]
#[verifier::external_body]
pub struct ExErrno(wasi::Errno);

/// The symbolic name of the platform error with numeric code `code`.
pub uninterp spec fn errno_name_of(code: u16) -> Seq<char>;

/// The human-readable message of the platform error with numeric code
/// `code`.
pub uninterp spec fn errno_message_of(code: u16) -> Seq<char>;

/// Relies on wasi::Errno::raw, Errno::name and Errno::message: the numeric
/// code a platform error value carries, and the fixed name and message
/// tables keyed by that code.  The three reads must come from one value, or
/// nothing would tie the name and message to the code, so they share this
/// body.
#[verifier::external_body]
fn errno_parts(e: wasi::Errno) -> (r: (u16, String, String))
    ensures
        r.1@ == errno_name_of(r.0),
        r.2@ == errno_message_of(r.0),
{
    (e.raw(), e.name().to_string(), e.message().to_string())
}

/// The structured error handed to the engine boundary: the platform's
/// numeric code, its symbolic name, and its human-readable message.
pub struct ErrorObject {
    pub errno: u16,
    pub code: String,
    pub message: String,
}

/// Build the engine-facing error object for a platform error: its name and
/// message are the platform's own, keyed by the numeric code reported.
pub fn errno_to_error(e: wasi::Errno) -> (r: ErrorObject)
    ensures
        r.code@ == errno_name_of(r.errno),
        r.message@ == errno_message_of(r.errno),
{
    let (errno, code, message) = errno_parts(e);
    ErrorObject { errno, code, message }
}

/// Resolution failure: no granted capability root covers the path.  This is
/// a distinct error domain from a platform error on an existing path.
#[derive(Debug)]
pub struct NoCapability;

/// Whether a capability root with path `prefix` covers path `p`: `p` starts
/// with `prefix`, and the match ends at a component boundary — at the end of
/// `p`, before a `/` in `p`, or after a `/` that `prefix` itself ends with
/// (so the root `/` covers everything under it).
pub open spec fn covers(prefix: Seq<u8>, p: Seq<u8>) -> bool {
    &&& prefix.len() <= p.len()
    &&& p.take(prefix.len() as int) == prefix
    &&& {
        ||| prefix.len() == p.len()
        ||| p[prefix.len() as int] == SLASH
        ||| prefix.len() == 0
        ||| prefix.last() == SLASH
    }
}

/// The root chosen for `p` is the first of the longest covering prefixes.
pub open spec fn is_best_root(preopens: Seq<Preopen>, p: Seq<u8>, i: int) -> bool {
    &&& 0 <= i < preopens.len()
    &&& covers(preopens[i].prefix@, p)
    &&& forall|j: int|
        0 <= j < preopens.len() && covers(#[trigger] preopens[j].prefix@, p)
            ==> preopens[j].prefix@.len() <= preopens[i].prefix@.len()
    &&& forall|j: int|
        0 <= j < i && covers(#[trigger] preopens[j].prefix@, p) ==> preopens[j].prefix@.len()
            < preopens[i].prefix@.len()
}

/// `s` with every leading `/` removed.
pub open spec fn strip_slashes(s: Seq<u8>) -> Seq<u8>
    decreases s.len(),
{
    if s.len() > 0 && s[0] == SLASH {
        strip_slashes(s.drop_first())
    } else {
        s
    }
}

/// The path relative to a covering root: what follows the prefix, less its
/// leading separators; `.` when nothing follows, naming the root itself.
pub open spec fn rel_of(prefix: Seq<u8>, p: Seq<u8>) -> Seq<u8> {
    let rest = strip_slashes(p.skip(prefix.len() as int));
    if rest.len() == 0 {
        seq![DOT]
    } else {
        rest
    }
}

proof fn lemma_strip_slashes_at(s: Seq<u8>, j: int)
    requires
        0 <= j <= s.len(),
        forall|m: int| 0 <= m < j ==> s[m] == SLASH,
        j < s.len() ==> s[j] != SLASH,
    ensures
        strip_slashes(s) == s.skip(j),
    decreases j,
{
    if j == 0 {
        assert(s.skip(0) =~= s);
    } else {
        assert(s[0] == SLASH);
        lemma_strip_slashes_at(s.drop_first(), j - 1);
        assert(s.drop_first().skip(j - 1) =~= s.skip(j));
    }
}

/// Whether the root at `prefix` covers `p`; the executable form of `covers`.
#[verifier::loop_isolation(false)]
fn prefix_covers(prefix: &Vec<u8>, p: &[u8]) -> (r: bool)
    ensures
        r == covers(prefix@, p@),
{
    let n = prefix.len();
    if n > p.len() {
        return false;
    }
    let mut i: usize = 0;
    while i < n
        invariant
            i <= n <= p@.len(),
            forall|m: int| 0 <= m < i ==> p@[m] == prefix@[m],
        decreases n - i,
    {
        if p[i] != prefix[i] {
            proof {
                assert(p@.take(n as int)[i as int] != prefix@[i as int]);
            }
            return false;
        }
        i += 1;
    }
    proof {
        assert(p@.take(n as int) =~= prefix@);
    }
    if n == p.len() {
        true
    } else if p[n] == SLASH {
        true
    } else if n == 0 {
        true
    } else {
        prefix[n - 1] == SLASH
    }
}

/// Resolve an absolute-looking path against the granted capability roots:
/// find the first longest root whose prefix covers `p`, and return its
/// descriptor with the remaining relative path (`.` for the root itself).
/// The pair is derived afresh on every call and never cached.  Fails with
/// `NoCapability` exactly when no root covers `p`.
#[verifier::loop_isolation(false)]
pub fn open_parent(preopens: &Vec<Preopen>, p: &[u8]) -> (r: Result<(u32, Vec<u8>), NoCapability>)
    ensures
        r matches Ok(pair) ==> exists|i: int|
            is_best_root(preopens@, p@, i) && pair.0 == preopens@[i].fd && pair.1@ == rel_of(
                preopens@[i].prefix@,
                p@,
            ),
        r is Err <==> (forall|j: int|
            0 <= j < preopens@.len() ==> !covers(#[trigger] preopens@[j].prefix@, p@)),
{
    let mut best: usize = 0;
    let mut found = false;
    let mut k: usize = 0;
    while k < preopens.len()
        invariant
            k <= preopens@.len(),
            found ==> best < k && covers(preopens@[best as int].prefix@, p@),
            found ==> forall|j: int|
                0 <= j < k && covers(#[trigger] preopens@[j].prefix@, p@)
                    ==> preopens@[j].prefix@.len() <= preopens@[best as int].prefix@.len(),
            found ==> forall|j: int|
                0 <= j < best && covers(#[trigger] preopens@[j].prefix@, p@)
                    ==> preopens@[j].prefix@.len() < preopens@[best as int].prefix@.len(),
            !found ==> forall|j: int|
                0 <= j < k ==> !covers(#[trigger] preopens@[j].prefix@, p@),
        decreases preopens@.len() - k,
    {
        if prefix_covers(&preopens[k].prefix, p) {
            if !found {
                best = k;
                found = true;
            } else if preopens[k].prefix.len() > preopens[best].prefix.len() {
                best = k;
            }
        }
        k += 1;
    }
    if !found {
        return Err(NoCapability);
    }
    let prefix_len = preopens[best].prefix.len();
    let mut start = prefix_len;
    while start < p.len() && p[start] == SLASH
        invariant
            prefix_len <= start <= p@.len(),
            forall|m: int| prefix_len <= m < start ==> p@[m] == SLASH,
        decreases p@.len() - start,
    {
        start += 1;
    }
    proof {
        lemma_strip_slashes_at(p@.skip(prefix_len as int), start - prefix_len);
        assert(p@.skip(prefix_len as int).skip(start - prefix_len) =~= p@.skip(start as int));
    }
    let rel = if start == p.len() {
        let mut dot: Vec<u8> = Vec::new();
        dot.push(DOT);
        proof {
            assert(dot@ =~= seq![DOT]);
        }
        dot
    } else {
        let rest = slice_to_vec(slice_subrange(p, start, p.len()));
        proof {
            assert(rest@ =~= p@.skip(start as int));
        }
        rest
    };
    proof {
        assert(is_best_root(preopens@, p@, best as int));
        assert(rel@ == rel_of(preopens@[best as int].prefix@, p@));
    }
    Ok((preopens[best].fd, rel))
}

/// Platform file-type codes, as a directory read or a stat reports them.
pub const FILETYPE_BLOCK_DEVICE: u8 = 1;

pub const FILETYPE_CHARACTER_DEVICE: u8 = 2;

pub const FILETYPE_DIRECTORY: u8 = 3;

pub const FILETYPE_REGULAR_FILE: u8 = 4;

pub const FILETYPE_SOCKET_DGRAM: u8 = 5;

pub const FILETYPE_SOCKET_STREAM: u8 = 6;

pub const FILETYPE_SYMBOLIC_LINK: u8 = 7;

/// A raw platform stat result: file type code, size in bytes, timestamps in
/// nanoseconds, and identity fields, exactly as the syscall reports them.
pub struct RawFilestat {
    pub dev: u64,
    pub ino: u64,
    pub filetype: u8,
    pub nlink: u64,
    pub size: u64,
    pub atim: u64,
    pub mtim: u64,
    pub ctim: u64,
}

/// The stat record handed to the engine: type flags, millisecond epoch
/// times, and fixed placeholder permission and ownership fields — the
/// sandboxed platform exposes no real mode, owner or group.
pub struct StatRecord {
    pub is_file: bool,
    pub is_directory: bool,
    pub is_symlink: bool,
    pub is_block_device: bool,
    pub is_char_device: bool,
    pub is_socket: bool,
    pub size: u64,
    pub mtime: u64,
    pub atime: u64,
    pub birthtime: u64,
    pub dev: u64,
    pub ino: u64,
    pub mode: i32,
    pub nlink: u64,
    pub uid: i32,
    pub gid: i32,
    pub rdev: i32,
    pub blksize: i32,
    pub blocks: i32,
}

/// Shape a raw stat into the engine-facing record: each type flag compares
/// the platform code, times shrink from nanoseconds to milliseconds, and the
/// permission and ownership fields take their fixed placeholder values.
pub fn stat_to_record(stat: &RawFilestat) -> (r: StatRecord)
    ensures
        r.is_file == (stat.filetype == FILETYPE_REGULAR_FILE),
        r.is_directory == (stat.filetype == FILETYPE_DIRECTORY),
        r.is_symlink == (stat.filetype == FILETYPE_SYMBOLIC_LINK),
        r.is_block_device == (stat.filetype == FILETYPE_BLOCK_DEVICE),
        r.is_char_device == (stat.filetype == FILETYPE_CHARACTER_DEVICE),
        r.is_socket == (stat.filetype == FILETYPE_SOCKET_DGRAM || stat.filetype
            == FILETYPE_SOCKET_STREAM),
        r.size == stat.size,
        r.mtime == stat.mtim / 1000000,
        r.atime == stat.atim / 1000000,
        r.birthtime == stat.ctim / 1000000,
        r.dev == stat.dev,
        r.ino == stat.ino,
        r.mode == 0o666,
        r.nlink == stat.nlink,
        r.uid == 0 && r.gid == 0 && r.rdev == 0 && r.blksize == 0 && r.blocks == 0,
{
    StatRecord {
        is_file: stat.filetype == FILETYPE_REGULAR_FILE,
        is_directory: stat.filetype == FILETYPE_DIRECTORY,
        is_symlink: stat.filetype == FILETYPE_SYMBOLIC_LINK,
        is_block_device: stat.filetype == FILETYPE_BLOCK_DEVICE,
        is_char_device: stat.filetype == FILETYPE_CHARACTER_DEVICE,
        is_socket: stat.filetype == FILETYPE_SOCKET_DGRAM || stat.filetype
            == FILETYPE_SOCKET_STREAM,
        size: stat.size,
        mtime: stat.mtim / 1000000,
        atime: stat.atim / 1000000,
        birthtime: stat.ctim / 1000000,
        dev: stat.dev,
        ino: stat.ino,
        mode: 0o666,
        nlink: stat.nlink,
        uid: 0,
        gid: 0,
        rdev: 0,
        blksize: 0,
        blocks: 0,
    }
}

/// The access-bit triple reported for a file: read and execute always, write
/// unless the file is read-only, replicated to owner, group and world.
pub fn permissions_to_mode(readonly: bool) -> (r: i32)
    ensures
        r == if readonly {
            0o555i32
        } else {
            0o777i32
        },
{
    let p: i32 = if readonly {
        0o5
    } else {
        0o7
    };
    proof {
        assert(0o5i32 | 0o5i32 << 3 | 0o5i32 << 6 == 0o555) by (bit_vector);
        assert(0o7i32 | 0o7i32 << 3 | 0o7i32 << 6 == 0o777) by (bit_vector);
    }
    p | p << 3 | p << 6
}

/// Platform descriptor-flag bits.
pub const FDFLAGS_APPEND: u16 = 1;

pub const FDFLAGS_NONBLOCK: u16 = 4;

/// Platform open-flag bits.
pub const OFLAGS_CREAT: u16 = 1;

pub const OFLAGS_EXCL: u16 = 4;

pub const OFLAGS_TRUNC: u16 = 8;

/// The rights every opened descriptor gets: stat, seek, poll, read and
/// directory listing.
pub const RIGHTS_OPEN_BASE: u64 = (1u64 << 21) | (1u64 << 2) | (1u64 << 27) | (1u64 << 1) | (1u64
    << 14);

/// The additional rights a descriptor opened for writing gets: write,
/// advise, allocate, sync variants, and size and time updates.
pub const RIGHTS_OPEN_WRITE: u64 = (1u64 << 6) | (1u64 << 7) | (1u64 << 8) | (1u64 << 0) | (1u64
    << 3) | (1u64 << 22) | (1u64 << 23) | (1u64 << 4);

/// What an open handed the numeric POSIX-style flag word asks of the
/// platform: descriptor flags, open flags and rights.
pub struct OpenOpts {
    pub fdflags: u16,
    pub oflags: u16,
    pub rights: u64,
}

/// Decode the engine's numeric open flags: bit 8 (`0o10`) appends, bit 128
/// non-blocking, bits 512/1024/2048 create/truncate/exclusive, and bits 1
/// or 2 (write-only or read-write) add the write rights to the base rights.
pub fn open_flags(flag: i32) -> (r: OpenOpts)
    ensures
        r.fdflags == (if flag & 128 == 128 {
            FDFLAGS_NONBLOCK
        } else {
            0
        }) | (if flag & 8 == 8 {
            FDFLAGS_APPEND
        } else {
            0
        }),
        r.oflags == (if flag & 512 == 512 {
            OFLAGS_CREAT
        } else {
            0
        }) | (if flag & 2048 == 2048 {
            OFLAGS_EXCL
        } else {
            0
        }) | (if flag & 1024 == 1024 {
            OFLAGS_TRUNC
        } else {
            0
        }),
        r.rights == (if flag & 1 == 1 || flag & 2 == 2 {
            RIGHTS_OPEN_WRITE
        } else {
            0
        }) | RIGHTS_OPEN_BASE,
{
    let fdflags = (if flag & 128 == 128 {
        FDFLAGS_NONBLOCK
    } else {
        0
    }) | (if flag & 8 == 8 {
        FDFLAGS_APPEND
    } else {
        0
    });
    let oflags = (if flag & 512 == 512 {
        OFLAGS_CREAT
    } else {
        0
    }) | (if flag & 2048 == 2048 {
        OFLAGS_EXCL
    } else {
        0
    }) | (if flag & 1024 == 1024 {
        OFLAGS_TRUNC
    } else {
        0
    });
    let rights = (if flag & 1 == 1 || flag & 2 == 2 {
        RIGHTS_OPEN_WRITE
    } else {
        0
    }) | RIGHTS_OPEN_BASE;
    OpenOpts { fdflags, oflags, rights }
}

/// How a removal proceeds: a file is unlinked; a directory is removed
/// recursively only when asked, else it must already be empty.
pub enum RemoveOp {
    File,
    DirRecursive,
    Dir,
}

/// Choose the removal syscall from what the path is and the recursive flag.
pub fn rm_plan(is_file: bool, recursive: bool) -> (r: RemoveOp)
    ensures
        r == if is_file {
            RemoveOp::File
        } else if recursive {
            RemoveOp::DirRecursive
        } else {
            RemoveOp::Dir
        },
{
    if is_file {
        RemoveOp::File
    } else if recursive {
        RemoveOp::DirRecursive
    } else {
        RemoveOp::Dir
    }
}

/// Whether a removal error is absorbed: the force flag suppresses exactly
/// the not-found error, so removing a missing path succeeds with force and
/// raises without it.  Every other error always surfaces.
pub fn rm_suppresses(force: bool, errno: u16) -> (r: bool)
    ensures
        r == (force && errno == ERRNO_NOENT),
{
    force && errno == ERRNO_NOENT
}

/// The directories a create must make, in creation order: just the path
/// itself, or, recursively, each ancestor at a component boundary first.
pub open spec fn mkdir_steps_spec(p: Seq<u8>, recursive: bool) -> Seq<Seq<u8>> {
    if !recursive {
        seq![p]
    } else {
        ancestors(p, p.len() as int) + if p.len() > 0 && p.last() != SLASH {
            seq![p]
        } else {
            Seq::empty()
        }
    }
}

/// Whether index `i` of `p` ends a proper path component: a `/` that is not
/// the leading one and not doubled.
pub open spec fn is_boundary(p: Seq<u8>, i: int) -> bool {
    0 < i < p.len() && p[i] == SLASH && p[i - 1] != SLASH
}

/// The proper ancestors of `p` among its first `n` positions, shortest
/// first: `p` cut at each component boundary.
pub open spec fn ancestors(p: Seq<u8>, n: int) -> Seq<Seq<u8>>
    decreases n,
{
    if n <= 0 {
        Seq::empty()
    } else {
        ancestors(p, n - 1) + if is_boundary(p, n - 1) {
            seq![p.take(n - 1)]
        } else {
            Seq::empty()
        }
    }
}

/// The directories a create of `p` must make, in order.  Non-recursive, the
/// path alone: its parent must already exist or the platform reports
/// not-found.  Recursive, every missing ancestor is created first, shortest
/// prefix to longest, then the path itself.
#[verifier::loop_isolation(false)]
pub fn mkdir_steps(p: &[u8], recursive: bool) -> (r: Vec<Vec<u8>>)
    ensures
        r.deep_view() == mkdir_steps_spec(p@, recursive),
{
    let mut steps: Vec<Vec<u8>> = Vec::new();
    if !recursive {
        steps.push(slice_to_vec(slice_subrange(p, 0, p.len())));
        proof {
            assert(p@.subrange(0, p@.len() as int) =~= p@);
            assert(steps.deep_view() =~~= seq![p@]);
        }
        return steps;
    }
    let mut i: usize = 0;
    while i < p.len()
        invariant
            i <= p@.len(),
            steps.deep_view() == ancestors(p@, i as int),
        decreases p@.len() - i,
    {
        let bound = i > 0 && p[i] == SLASH && p[i - 1] != SLASH;
        if bound {
            steps.push(slice_to_vec(slice_subrange(p, 0, i)));
            proof {
                assert(steps.deep_view() =~~= ancestors(p@, i as int) + seq![p@.take(i as int)]);
                assert(steps.deep_view() =~~= ancestors(p@, i + 1));
            }
        } else {
            proof {
                assert(steps.deep_view() =~~= ancestors(p@, i + 1));
            }
        }
        i += 1;
    }
    if p.len() > 0 && p[p.len() - 1] != SLASH {
        steps.push(slice_to_vec(slice_subrange(p, 0, p.len())));
        proof {
            assert(p@.subrange(0, p@.len() as int) =~= p@);
            assert(steps.deep_view() =~~= mkdir_steps_spec(p@, true));
        }
    } else {
        proof {
            assert(steps.deep_view() =~~= mkdir_steps_spec(p@, true));
        }
    }
    steps
}

/// Whether an error from one step of a recursive create is absorbed: only
/// "file exists", since an ancestor (or the path itself) may already be
/// there.  The non-recursive form absorbs nothing.
pub fn mkdir_step_may_exist(recursive: bool, errno: u16) -> (r: bool)
    ensures
        r == (recursive && errno == ERRNO_EXIST),
{
    recursive && errno == ERRNO_EXIST
}

/// The platform timestamp pair for a set-times call: millisecond epoch
/// times widened to nanoseconds.
pub fn utime_timestamps(atime_ms: i64, mtime_ms: i64) -> (r: (u64, u64))
    requires
        0 <= atime_ms,
        0 <= mtime_ms,
        atime_ms * 1000000 <= u64::MAX,
        mtime_ms * 1000000 <= u64::MAX,
    ensures
        r.0 == atime_ms * 1000000,
        r.1 == mtime_ms * 1000000,
{
    ((atime_ms as u64) * 1000000, (mtime_ms as u64) * 1000000)
}

/// The bytes a link-target read produced: the first `size` bytes of the
/// buffer the platform filled.
pub fn realpath_contents(buf: &[u8], size: usize) -> (r: Vec<u8>)
    requires
        size <= buf@.len(),
    ensures
        r@ == buf@.subrange(0, size as int),
{
    slice_to_vec(slice_subrange(buf, 0, size))
}

/// One parsed directory entry: the platform file-type code and the name
/// bytes.
pub struct DirEntry {
    pub filetype: u8,
    pub name: Vec<u8>,
}

/// One page of a directory listing: the entries parsed from the buffer, the
/// continuation cookie (the last entry's next-offset), and whether the
/// stream is exhausted.
pub struct DirBatch {
    pub entries: Vec<DirEntry>,
    pub cookie: u64,
    pub fin: bool,
}

/// The number of bytes the listing syscall actually filled, capped at the
/// buffer's length.
pub open spec fn dirents_cap(b: Seq<u8>, len: int) -> int {
    if len < b.len() {
        len
    } else {
        b.len() as int
    }
}

/// The entries packed in `b` from byte `idx` up to `cap`, with the cookie
/// reached after them.  A record is 24 bytes, little-endian: the next-entry
/// cookie at offset 0, the entry's serial number at 8, the name length at
/// 16, the file-type code at 20; the name bytes follow the record.  Parsing
/// stops before a record header or name that does not fit entirely below
/// `cap`.
pub open spec fn dirents_parsed(b: Seq<u8>, cap: int, idx: int, cookie: u64) -> (Seq<(u8, Seq<u8>)>, u64)
    decreases cap - idx,
{
    if idx + 24 < cap {
        let next = spec_u64_from_le_bytes(b.subrange(idx, idx + 8));
        let namlen = spec_u32_from_le_bytes(b.subrange(idx + 16, idx + 20)) as int;
        if idx + 24 + namlen >= cap {
            (Seq::empty(), cookie)
        } else {
            let rest = dirents_parsed(b, cap, idx + 24 + namlen, next);
            (seq![(b[idx + 20], b.subrange(idx + 24, idx + 24 + namlen))] + rest.0, rest.1)
        }
    } else {
        (Seq::empty(), cookie)
    }
}

/// The pair (file-type code, name bytes) of each parsed entry, in order.
pub open spec fn entries_view(entries: Seq<DirEntry>) -> Seq<(u8, Seq<u8>)> {
    entries.map_values(|e: DirEntry| (e.filetype, e.name@))
}

/// Parse one page of packed directory entries: `buf` as the listing syscall
/// left it, `len` the byte count it reported.  Yields the entries below the
/// cap, the last entry's next-offset as the continuation cookie (`0` when
/// no entry was parsed), and the end-of-stream flag — the platform filling
/// less than the whole buffer means the directory is exhausted.
#[verifier::loop_isolation(false)]
pub fn parse_dirents(buf: &[u8], len: usize) -> (r: DirBatch)
    ensures
        entries_view(r.entries@) == dirents_parsed(buf@, dirents_cap(buf@, len as int), 0, 0).0,
        r.cookie == dirents_parsed(buf@, dirents_cap(buf@, len as int), 0, 0).1,
        r.fin == (len < buf@.len()),
{
    let cap = if len < buf.len() {
        len
    } else {
        buf.len()
    };
    let fin = len < buf.len();
    let mut entries: Vec<DirEntry> = Vec::new();
    let mut cookie: u64 = 0;
    let mut idx: usize = 0;
    let mut done = false;
    let ghost total = dirents_parsed(buf@, cap as int, 0, 0);
    while !done && cap - idx > 24
        invariant
            idx <= cap <= buf@.len(),
            cap == dirents_cap(buf@, len as int),
            total.0 == entries_view(entries@) + dirents_parsed(
                buf@,
                cap as int,
                idx as int,
                cookie,
            ).0,
            total.1 == dirents_parsed(buf@, cap as int, idx as int, cookie).1,
            done ==> dirents_parsed(buf@, cap as int, idx as int, cookie).0 == Seq::<(
                u8,
                Seq<u8>,
            )>::empty() && dirents_parsed(buf@, cap as int, idx as int, cookie).1 == cookie,
        decreases cap - idx, 1int - if done {
            1int
        } else {
            0int
        },
    {
        let next = u64_from_le_bytes(slice_subrange(buf, idx, idx + 8));
        let namlen32 = u32_from_le_bytes(slice_subrange(buf, idx + 16, idx + 20));
        let ftype = buf[idx + 20];
        let idx2 = idx + 24;
        let namlen = namlen32 as usize;
        if namlen >= cap - idx2 {
            done = true;
        } else {
            let name = slice_to_vec(slice_subrange(buf, idx2, idx2 + namlen));
            let ghost before = entries@;
            entries.push(DirEntry { filetype: ftype, name });
            proof {
                assert(entries_view(entries@) =~~= entries_view(before) + seq![
                    (ftype, buf@.subrange(idx2 as int, idx2 + namlen)),
                ]);
                assert(entries_view(before) + dirents_parsed(
                    buf@,
                    cap as int,
                    idx as int,
                    cookie,
                ).0 =~~= entries_view(entries@) + dirents_parsed(
                    buf@,
                    cap as int,
                    idx2 + namlen,
                    next,
                ).0);
            }
            cookie = next;
            idx = idx2 + namlen;
        }
    }
    proof {
        assert(total.0 =~~= entries_view(entries@));
    }
    DirBatch { entries, cookie, fin }
}

/// The name the engine imports the filesystem module under, and the
/// operations it exports, in registration order.
pub struct ModuleDef {
    pub name: String,
    pub exports: Vec<String>,
}

/// The export names of the filesystem module, in registration order:
/// the synchronous operations, then the asynchronous read and write.
pub open spec fn fs_module_exports() -> Seq<Seq<char>> {
    seq![
        "statSync"@,
        "lstatSync"@,
        "fstatSync"@,
        "mkdirSync"@,
        "rmdirSync"@,
        "rmSync"@,
        "renameSync"@,
        "truncateSync"@,
        "ftruncateSync"@,
        "realpathSync"@,
        "copyFileSync"@,
        "linkSync"@,
        "symlinkSync"@,
        "utimeSync"@,
        "lutimeSync"@,
        "futimeSync"@,
        "fcloseSync"@,
        "fsyncSync"@,
        "fdatasyncSync"@,
        "freadSync"@,
        "fread"@,
        "openSync"@,
        "readlinkSync"@,
        "fwriteSync"@,
        "fwrite"@,
        "freaddirSync"@,
    ]
}

/// The filesystem module's definition: its import name and its exports,
/// exactly the names of `fs_module_exports`, in order.
pub fn init_module() -> (r: ModuleDef)
    ensures
        r.name@ == "_node:fs"@,
        r.exports.deep_view() == fs_module_exports(),
{
    let name = "_node:fs".to_owned();
    let mut exports: Vec<String> = Vec::new();
    exports.push("statSync".to_owned());
    exports.push("lstatSync".to_owned());
    exports.push("fstatSync".to_owned());
    exports.push("mkdirSync".to_owned());
    exports.push("rmdirSync".to_owned());
    exports.push("rmSync".to_owned());
    exports.push("renameSync".to_owned());
    exports.push("truncateSync".to_owned());
    exports.push("ftruncateSync".to_owned());
    exports.push("realpathSync".to_owned());
    exports.push("copyFileSync".to_owned());
    exports.push("linkSync".to_owned());
    exports.push("symlinkSync".to_owned());
    exports.push("utimeSync".to_owned());
    exports.push("lutimeSync".to_owned());
    exports.push("futimeSync".to_owned());
    exports.push("fcloseSync".to_owned());
    exports.push("fsyncSync".to_owned());
    exports.push("fdatasyncSync".to_owned());
    exports.push("freadSync".to_owned());
    exports.push("fread".to_owned());
    exports.push("openSync".to_owned());
    exports.push("readlinkSync".to_owned());
    exports.push("fwriteSync".to_owned());
    exports.push("fwrite".to_owned());
    exports.push("freaddirSync".to_owned());
    proof {
        assert(exports.deep_view() =~~= fs_module_exports());
    }
    ModuleDef { name, exports }
}

} // verus!
