use event_loop::fs::{
    errno_to_error, init_module, mkdir_step_may_exist, mkdir_steps, open_flags, open_parent,
    parse_dirents, permissions_to_mode, realpath_contents, rm_plan, rm_suppresses,
    stat_to_record, utime_timestamps, Preopen, RawFilestat, RemoveOp, ERRNO_EXIST, ERRNO_NOENT,
};

fn roots() -> Vec<Preopen> {
    vec![
        Preopen { fd: 3, prefix: b"/".to_vec() },
        Preopen { fd: 4, prefix: b"/a".to_vec() },
    ]
}

#[test]
fn path_resolves_against_longest_covering_root() {
    let (fd, rel) = open_parent(&roots(), b"/a/b").unwrap();
    assert_eq!(fd, 4);
    assert_eq!(rel, b"b".to_vec());
}

#[test]
fn prefix_match_respects_component_boundaries() {
    // "/ab" is not under the root "/a": the match must end at a separator
    let (fd, rel) = open_parent(&roots(), b"/ab").unwrap();
    assert_eq!(fd, 3);
    assert_eq!(rel, b"ab".to_vec());
}

#[test]
fn root_itself_resolves_to_dot() {
    let (fd, rel) = open_parent(&roots(), b"/a").unwrap();
    assert_eq!(fd, 4);
    assert_eq!(rel, b".".to_vec());
}

#[test]
fn uncovered_path_is_a_resolution_error() {
    let preopens = vec![Preopen { fd: 5, prefix: b"/x".to_vec() }];
    assert!(open_parent(&preopens, b"/y/z").is_err());
}

#[test]
fn deeper_root_wins_over_shallower() {
    let preopens = vec![
        Preopen { fd: 3, prefix: b"/a".to_vec() },
        Preopen { fd: 4, prefix: b"/a/b".to_vec() },
    ];
    let (fd, rel) = open_parent(&preopens, b"/a/b/c").unwrap();
    assert_eq!(fd, 4);
    assert_eq!(rel, b"c".to_vec());
}

#[test]
fn stat_record_flags_times_and_placeholders() {
    let stat = RawFilestat {
        dev: 11,
        ino: 22,
        filetype: 4, // regular file
        nlink: 2,
        size: 1234,
        atim: 2_500_000,
        mtim: 7_999_999,
        ctim: 1_000_000,
    };
    let r = stat_to_record(&stat);
    assert!(r.is_file);
    assert!(!r.is_directory && !r.is_symlink && !r.is_block_device);
    assert!(!r.is_char_device && !r.is_socket);
    assert_eq!(r.size, 1234);
    assert_eq!(r.atime, 2); // nanoseconds to milliseconds
    assert_eq!(r.mtime, 7);
    assert_eq!(r.birthtime, 1);
    assert_eq!((r.dev, r.ino, r.nlink), (11, 22, 2));
    assert_eq!(r.mode, 0o666);
    assert_eq!((r.uid, r.gid, r.rdev, r.blksize, r.blocks), (0, 0, 0, 0, 0));
}

#[test]
fn stat_record_directory_and_socket_flags() {
    let mut stat = RawFilestat {
        dev: 0,
        ino: 0,
        filetype: 3, // directory
        nlink: 1,
        size: 0,
        atim: 0,
        mtim: 0,
        ctim: 0,
    };
    assert!(stat_to_record(&stat).is_directory);
    stat.filetype = 5; // datagram socket
    assert!(stat_to_record(&stat).is_socket);
    stat.filetype = 6; // stream socket
    assert!(stat_to_record(&stat).is_socket);
    stat.filetype = 7; // symbolic link
    assert!(stat_to_record(&stat).is_symlink);
}

#[test]
fn mode_replicates_access_bits() {
    assert_eq!(permissions_to_mode(true), 0o555);
    assert_eq!(permissions_to_mode(false), 0o777);
}

#[test]
fn open_flags_decode_creation_and_rights() {
    // read-only, no creation bits
    let r = open_flags(0);
    assert_eq!(r.fdflags, 0);
    assert_eq!(r.oflags, 0);
    assert_eq!(r.rights, (1 << 21) | (1 << 2) | (1 << 27) | (1 << 1) | (1 << 14));

    // write + create + truncate + append + non-blocking
    let w = open_flags(2 | 512 | 1024 | 8 | 128);
    assert_eq!(w.fdflags, 4 | 1); // non-blocking | append
    assert_eq!(w.oflags, 1 | 8); // create | truncate
    assert_ne!(w.rights & (1 << 6), 0); // write right granted
    assert_ne!(w.rights & (1 << 1), 0); // read right kept

    // exclusive creation
    let x = open_flags(512 | 2048);
    assert_eq!(x.oflags, 1 | 4); // create | exclusive
}

#[test]
fn removal_chooses_the_matching_syscall() {
    assert!(matches!(rm_plan(true, false), RemoveOp::File));
    assert!(matches!(rm_plan(true, true), RemoveOp::File));
    assert!(matches!(rm_plan(false, true), RemoveOp::DirRecursive));
    assert!(matches!(rm_plan(false, false), RemoveOp::Dir));
}

#[test]
fn force_suppresses_only_not_found() {
    // removing a missing path: force resolves, no force raises
    assert!(rm_suppresses(true, ERRNO_NOENT));
    assert!(!rm_suppresses(false, ERRNO_NOENT));
    // any other error always surfaces
    assert!(!rm_suppresses(true, ERRNO_EXIST));
}

#[test]
fn recursive_mkdir_creates_missing_ancestors_first() {
    let steps = mkdir_steps(b"/a/b", true);
    assert_eq!(steps, vec![b"/a".to_vec(), b"/a/b".to_vec()]);
    // the non-recursive form touches only the path itself, so a missing
    // parent surfaces as the platform's not-found error
    let single = mkdir_steps(b"/a/b", false);
    assert_eq!(single, vec![b"/a/b".to_vec()]);
    assert!(!mkdir_step_may_exist(false, ERRNO_NOENT));
    assert!(!mkdir_step_may_exist(false, ERRNO_EXIST));
}

#[test]
fn recursive_mkdir_tolerates_existing_ancestors() {
    assert!(mkdir_step_may_exist(true, ERRNO_EXIST));
    assert!(!mkdir_step_may_exist(true, ERRNO_NOENT));
}

#[test]
fn mkdir_steps_skip_doubled_and_trailing_separators() {
    let steps = mkdir_steps(b"a//b/", true);
    assert_eq!(steps, vec![b"a".to_vec(), b"a//b".to_vec()]);
}

#[test]
fn utime_widens_milliseconds_to_nanoseconds() {
    assert_eq!(utime_timestamps(2, 3), (2_000_000, 3_000_000));
    assert_eq!(utime_timestamps(0, 0), (0, 0));
}

#[test]
fn realpath_keeps_only_reported_bytes() {
    let buf = [b'/', b'x', b'y', 0, 0, 0];
    assert_eq!(realpath_contents(&buf, 3), b"/xy".to_vec());
}

fn dirent_record(next: u64, ino: u64, name: &[u8], filetype: u8) -> Vec<u8> {
    let mut rec = Vec::new();
    rec.extend_from_slice(&next.to_le_bytes());
    rec.extend_from_slice(&ino.to_le_bytes());
    rec.extend_from_slice(&(name.len() as u32).to_le_bytes());
    rec.push(filetype);
    rec.extend_from_slice(&[0, 0, 0]); // record padding to 24 bytes
    rec.extend_from_slice(name);
    rec
}

#[test]
fn directory_page_parses_records_and_cookie() {
    let mut buf = dirent_record(42, 1, b"foo", 4);
    buf.extend_from_slice(&dirent_record(43, 2, b"sub", 3));
    buf.push(0); // an entry ending exactly at the reported count is dropped
    let used = buf.len();
    buf.resize(4096, 0);
    let batch = parse_dirents(&buf, used);
    assert_eq!(batch.entries.len(), 2);
    assert_eq!(batch.entries[0].name, b"foo".to_vec());
    assert_eq!(batch.entries[0].filetype, 4);
    assert_eq!(batch.entries[1].name, b"sub".to_vec());
    assert_eq!(batch.entries[1].filetype, 3);
    assert_eq!(batch.cookie, 43);
    // the platform filled less than the buffer: the stream is done
    assert!(batch.fin);
}

#[test]
fn truncated_name_ends_the_page() {
    let buf = dirent_record(42, 1, b"foo", 4);
    // the header fits below the reported count but the name does not
    let batch = parse_dirents(&buf, 26);
    assert!(batch.entries.is_empty());
    assert_eq!(batch.cookie, 0);
}

#[test]
fn full_buffer_means_more_entries_remain() {
    let mut buf = dirent_record(7, 1, b"entry", 4);
    let used = buf.len();
    buf.resize(used, 0);
    let batch = parse_dirents(&buf, used);
    assert!(!batch.fin);
}

#[test]
fn error_object_carries_code_name_and_message() {
    let e = errno_to_error(wasi::ERRNO_NOENT);
    assert_eq!(e.errno, ERRNO_NOENT);
    assert_eq!(e.code, "NOENT");
    assert_eq!(e.message, "No such file or directory.");
}

#[test]
fn error_object_distinguishes_error_codes() {
    let e = errno_to_error(wasi::ERRNO_EXIST);
    assert_eq!(e.errno, ERRNO_EXIST);
    assert_eq!(e.code, "EXIST");
    assert_eq!(e.message, "File exists.");
}

#[test]
fn module_exports_every_operation_in_order() {
    let m = init_module();
    assert_eq!(m.name, "_node:fs");
    assert_eq!(m.exports.len(), 26);
    assert_eq!(m.exports[0], "statSync");
    assert_eq!(m.exports[3], "mkdirSync");
    assert_eq!(m.exports[20], "fread");
    assert_eq!(m.exports[24], "fwrite");
    assert_eq!(m.exports[25], "freaddirSync");
}
