use wasmer_wasi::arena::{Inode, InodeArena};
use wasmer_wasi::inode::{DirEntry, InodeVal, Kind, WasiFile};
use wasmer_wasi::state::{FlushAction, InitError, Preopen, WasiFs, WasiState};
use wasmer_wasi::types::{
    Errno, FileType, Filestat, PreopenType, Prestat, DEFAULT_PREOPEN_RIGHTS, LOOKUP_SYMLINK_FOLLOW,
    RIGHT_FD_DATASYNC,
};

fn stat_with_ino(ino: u64) -> Filestat {
    Filestat {
        st_dev: 0,
        st_ino: ino,
        st_filetype: FileType::Unknown,
        st_nlink: 0,
        st_size: 0,
        st_atim: 0,
        st_mtim: 0,
        st_ctim: 0,
    }
}

fn inode_val(ino: u64, kind: Kind) -> InodeVal {
    InodeVal {
        stat: stat_with_ino(ino),
        is_preopened: false,
        name: String::from("node"),
        kind,
    }
}

fn empty_fs() -> WasiFs {
    WasiFs::new(&Vec::new()).expect("empty preopen list must succeed")
}

#[test]
fn preopen_sandbox_creates_descriptor_three() {
    let preopens = vec![Preopen {
        name: String::from("/sandbox"),
        is_dir: true,
        handle: WasiFile::HostFile(0),
    }];
    let fs = WasiFs::new(&preopens).expect("a preopened directory must succeed");
    assert_eq!(fs.fd_map.len(), 1);
    assert_eq!(fs.fd_map.next_fd(), 4);
    assert_eq!(
        fs.prestat_fd(3),
        Ok(Prestat { pr_type: PreopenType::Dir, pr_name_len: 8 })
    );
    assert_eq!(fs.prestat_fd(4), Err(Errno::Badf));
    let st = fs.fdstat(3).expect("descriptor 3 must exist");
    assert_eq!(st.fs_filetype, FileType::Directory);
    assert_eq!(st.fs_rights_base, DEFAULT_PREOPEN_RIGHTS);
    assert_eq!(st.fs_rights_inheriting, DEFAULT_PREOPEN_RIGHTS);
    assert_eq!(st.fs_flags, 0);
}

#[test]
fn prestat_name_length_is_in_bytes() {
    let preopens = vec![Preopen {
        name: String::from("/\u{fc}"),
        is_dir: true,
        handle: WasiFile::HostFile(0),
    }];
    let fs = WasiFs::new(&preopens).expect("preopened directory");
    // "/ü" is two characters but three bytes of UTF-8.
    let p = fs.prestat_fd(3).expect("descriptor 3 is preopened");
    assert_eq!(p.pr_name_len, 3);
}

#[test]
fn preopen_regular_file_fails_init() {
    let preopens = vec![Preopen {
        name: String::from("/notes.txt"),
        is_dir: false,
        handle: WasiFile::HostFile(0),
    }];
    match WasiFs::new(&preopens) {
        Ok(_) => panic!("a non-directory preopen must fail initialization"),
        Err(InitError::PreopenNotDirectory { name }) => assert_eq!(name, "/notes.txt"),
    }
}

#[test]
fn preopen_stops_at_first_non_directory() {
    let preopens = vec![
        Preopen {
            name: String::from("/a"),
            is_dir: true,
            handle: WasiFile::HostFile(0),
        },
        Preopen {
            name: String::from("/b.txt"),
            is_dir: false,
            handle: WasiFile::HostFile(1),
        },
    ];
    match WasiFs::new(&preopens) {
        Ok(_) => panic!("initialization must abort on the non-directory"),
        Err(InitError::PreopenNotDirectory { name }) => assert_eq!(name, "/b.txt"),
    }
}

#[test]
fn descriptor_allocation_starts_at_three_and_is_injective() {
    let mut fs = empty_fs();
    let inode = fs.inodes.insert(inode_val(1, Kind::Buffer { buffer: Vec::new() }));
    let mut ids = Vec::new();
    for _ in 0..5 {
        ids.push(fs.create_fd(0, 0, 0, inode).expect("allocation always succeeds"));
    }
    assert_eq!(ids, vec![3, 4, 5, 6, 7]);
    for i in 0..ids.len() {
        for j in 0..ids.len() {
            if i != j {
                assert_ne!(ids[i], ids[j]);
            }
        }
    }
}

#[test]
fn flush_standard_streams_needs_no_rights() {
    let fs = empty_fs();
    assert_eq!(fs.flush(0), Ok(FlushAction::Nothing));
    assert_eq!(fs.flush(1), Ok(FlushAction::Stdout));
    assert_eq!(fs.flush(2), Ok(FlushAction::Stderr));
}

#[test]
fn flush_unknown_descriptor_is_bad() {
    let fs = empty_fs();
    assert_eq!(fs.flush(3), Err(Errno::Badf));
}

#[test]
fn flush_without_datasync_is_denied_without_io() {
    let mut fs = empty_fs();
    let inode = fs
        .inodes
        .insert(inode_val(7, Kind::File { handle: WasiFile::HostFile(9) }));
    let rights = DEFAULT_PREOPEN_RIGHTS & !RIGHT_FD_DATASYNC;
    let fd = fs.create_fd(rights, rights, 0, inode).expect("allocation");
    let r = fs.flush(fd);
    assert_eq!(r, Err(Errno::Acces));
    // In particular no flush of the backing handle was requested.
    assert!(!matches!(r, Ok(FlushAction::File(_))));
}

#[test]
fn flush_with_datasync_reaches_the_handle() {
    let mut fs = empty_fs();
    let inode = fs
        .inodes
        .insert(inode_val(7, Kind::File { handle: WasiFile::HostFile(9) }));
    let fd = fs
        .create_fd(RIGHT_FD_DATASYNC, 0, 0, inode)
        .expect("allocation");
    assert_eq!(fs.flush(fd), Ok(FlushAction::File(WasiFile::HostFile(9))));
}

#[test]
fn flush_directory_is_isdir() {
    let mut fs = empty_fs();
    let inode = fs.inodes.insert(inode_val(
        3,
        Kind::Dir { handle: WasiFile::HostFile(0), entries: Vec::new() },
    ));
    let fd = fs
        .create_fd(RIGHT_FD_DATASYNC, 0, 0, inode)
        .expect("allocation");
    assert_eq!(fs.flush(fd), Err(Errno::Isdir));
}

#[test]
fn flush_buffer_is_a_no_op() {
    let mut fs = empty_fs();
    let inode = fs
        .inodes
        .insert(inode_val(4, Kind::Buffer { buffer: vec![1, 2, 3] }));
    let fd = fs
        .create_fd(RIGHT_FD_DATASYNC, 0, 0, inode)
        .expect("allocation");
    assert_eq!(fs.flush(fd), Ok(FlushAction::Nothing));
}

#[test]
fn flush_symlink_is_flagged_as_defect() {
    let mut fs = empty_fs();
    let target = fs.inodes.insert(inode_val(5, Kind::Buffer { buffer: Vec::new() }));
    let link = fs
        .inodes
        .insert(inode_val(6, Kind::Symlink { forwarded: target }));
    let fd = fs
        .create_fd(RIGHT_FD_DATASYNC, 0, 0, link)
        .expect("allocation");
    assert_eq!(fs.flush(fd), Ok(FlushAction::SymlinkDefect));
}

#[test]
fn fdstat_filetype_matches_inode_kind() {
    let mut fs = empty_fs();
    let file = fs
        .inodes
        .insert(inode_val(1, Kind::File { handle: WasiFile::HostFile(0) }));
    let dir = fs.inodes.insert(inode_val(
        2,
        Kind::Dir { handle: WasiFile::HostFile(1), entries: Vec::new() },
    ));
    let link = fs.inodes.insert(inode_val(3, Kind::Symlink { forwarded: file }));
    let buf = fs.inodes.insert(inode_val(4, Kind::Buffer { buffer: Vec::new() }));
    let fd_file = fs.create_fd(1, 2, 5, file).expect("allocation");
    let fd_dir = fs.create_fd(0, 0, 0, dir).expect("allocation");
    let fd_link = fs.create_fd(0, 0, 0, link).expect("allocation");
    let fd_buf = fs.create_fd(0, 0, 0, buf).expect("allocation");
    assert_eq!(fs.fdstat(fd_file).unwrap().fs_filetype, FileType::RegularFile);
    assert_eq!(fs.fdstat(fd_dir).unwrap().fs_filetype, FileType::Directory);
    assert_eq!(fs.fdstat(fd_link).unwrap().fs_filetype, FileType::SymbolicLink);
    assert_eq!(fs.fdstat(fd_buf).unwrap().fs_filetype, FileType::Unknown);
    let st = fs.fdstat(fd_file).unwrap();
    assert_eq!(st.fs_rights_base, 1);
    assert_eq!(st.fs_rights_inheriting, 2);
    assert_eq!(st.fs_flags, 5);
    assert_eq!(fs.fdstat(9), Err(Errno::Badf));
}

#[test]
fn filestat_fd_returns_the_inode_stat() {
    let mut fs = empty_fs();
    let inode = fs
        .inodes
        .insert(inode_val(42, Kind::Buffer { buffer: Vec::new() }));
    let fd = fs.create_fd(0, 0, 0, inode).expect("allocation");
    assert_eq!(fs.filestat_fd(fd).unwrap().st_ino, 42);
    assert_eq!(fs.filestat_fd(99), Err(Errno::Badf));
}

#[test]
fn prestat_fails_for_non_preopened_inodes() {
    let mut fs = empty_fs();
    let inode = fs
        .inodes
        .insert(inode_val(1, Kind::Buffer { buffer: Vec::new() }));
    let fd = fs
        .create_fd(DEFAULT_PREOPEN_RIGHTS, 0, 0, inode)
        .expect("allocation");
    assert_eq!(fs.prestat_fd(fd), Err(Errno::Badf));
    assert_eq!(fs.prestat_fd(17), Err(Errno::Badf));
}

#[test]
fn symlink_chain_resolves_to_final_inode() {
    let mut fs = empty_fs();
    let file = fs
        .inodes
        .insert(inode_val(42, Kind::File { handle: WasiFile::HostFile(0) }));
    let b = fs.inodes.insert(inode_val(2, Kind::Symlink { forwarded: file }));
    let a = fs.inodes.insert(inode_val(1, Kind::Symlink { forwarded: b }));
    let followed = fs.filestat_inode(a, LOOKUP_SYMLINK_FOLLOW).unwrap();
    assert_eq!(followed.st_ino, 42);
    // Without the follow flag the symlink's own stat comes back.
    let unfollowed = fs.filestat_inode(a, 0).unwrap();
    assert_eq!(unfollowed.st_ino, 1);
}

fn chain_of_symlinks(fs: &mut WasiFs, links: u64) -> Inode {
    let mut cur = fs
        .inodes
        .insert(inode_val(1000, Kind::File { handle: WasiFile::HostFile(0) }));
    for i in 0..links {
        cur = fs.inodes.insert(inode_val(i, Kind::Symlink { forwarded: cur }));
    }
    cur
}

#[test]
fn symlink_chain_at_the_hop_bound_still_resolves() {
    let mut fs = empty_fs();
    // 101 symlinks in front of the file: the resolver's loop admits the
    // bound plus the initial hop, so this still terminates with the file.
    let head = chain_of_symlinks(&mut fs, 101);
    assert_eq!(
        fs.filestat_inode(head, LOOKUP_SYMLINK_FOLLOW).unwrap().st_ino,
        1000
    );
}

#[test]
fn symlink_chain_past_the_hop_bound_fails() {
    let mut fs = empty_fs();
    let head = chain_of_symlinks(&mut fs, 102);
    assert_eq!(
        fs.filestat_inode(head, LOOKUP_SYMLINK_FOLLOW),
        Err(Errno::Mlink)
    );
}

#[test]
fn self_referential_symlink_fails_with_too_many_links() {
    let mut fs = empty_fs();
    let a = fs.inodes.insert(inode_val(1, Kind::Buffer { buffer: Vec::new() }));
    // Rewrite the freshly inserted node into a symlink that forwards to
    // itself: the classic cycle of length one.
    let v = fs.inodes.get_mut(a);
    v.kind = Kind::Symlink { forwarded: a };
    assert_eq!(
        fs.filestat_inode(a, LOOKUP_SYMLINK_FOLLOW),
        Err(Errno::Mlink)
    );
    // Without following, the symlink inode itself is reported.
    assert_eq!(fs.filestat_inode(a, 0).unwrap().st_ino, 1);
}

#[test]
fn stale_references_are_detected_everywhere() {
    let mut fs = empty_fs();
    let forged = Inode { index: 0, generation: 99 };
    assert_eq!(fs.filestat_inode(forged, 0), Err(Errno::Inval));
    let fd = fs
        .create_fd(DEFAULT_PREOPEN_RIGHTS, 0, 0, forged)
        .expect("allocation stores the reference as given");
    assert_eq!(fs.fdstat(fd), Err(Errno::Inval));
    assert_eq!(fs.filestat_fd(fd), Err(Errno::Inval));
    assert_eq!(fs.prestat_fd(fd), Err(Errno::Inval));
    assert_eq!(fs.flush(fd), Err(Errno::Inval));
}

#[test]
fn filestat_path_uses_the_name_cache() {
    let mut fs = empty_fs();
    let file = fs
        .inodes
        .insert(inode_val(7, Kind::File { handle: WasiFile::HostFile(0) }));
    let link = fs.inodes.insert(inode_val(8, Kind::Symlink { forwarded: file }));
    fs.name_map.push(DirEntry { name: String::from("/sandbox/log"), inode: link });
    assert_eq!(fs.get_inode("/sandbox/log"), Some(link));
    assert_eq!(fs.get_inode("/other"), None);
    assert_eq!(
        fs.filestat_path(3, LOOKUP_SYMLINK_FOLLOW, "/sandbox/log")
            .unwrap()
            .st_ino,
        7
    );
    assert_eq!(fs.filestat_path(3, 0, "/sandbox/log").unwrap().st_ino, 8);
    assert_eq!(fs.filestat_path(3, 0, "/missing"), Err(Errno::Noent));
}

#[test]
fn arena_issues_live_distinct_references() {
    let mut arena = InodeArena::new();
    let a = arena.insert(inode_val(1, Kind::Buffer { buffer: Vec::new() }));
    let b = arena.insert(inode_val(2, Kind::Buffer { buffer: Vec::new() }));
    assert_ne!(a, b);
    assert_eq!(arena.get(a).unwrap().stat.st_ino, 1);
    assert_eq!(arena.get(b).unwrap().stat.st_ino, 2);
    assert!(arena.get(Inode { index: 0, generation: 1 }).is_none());
    assert!(arena.get(Inode { index: 2, generation: 0 }).is_none());
    let v = arena.get_mut(a);
    v.stat.st_ino = 10;
    assert_eq!(arena.get(a).unwrap().stat.st_ino, 10);
    assert_eq!(arena.get(b).unwrap().stat.st_ino, 2);
}

#[test]
fn default_filestat_is_zeroed() {
    let st = Filestat::default();
    assert_eq!(st, stat_with_ino(0));
    assert_eq!(st.st_filetype, FileType::Unknown);
}

#[test]
fn wasi_state_bundles_fs_with_args_and_envs() {
    let fs = empty_fs();
    let args = vec![b"prog".to_vec(), b"--help".to_vec()];
    let envs = vec![b"HOME=/sandbox".to_vec()];
    let state = WasiState { fs, args: &args, envs: &envs };
    assert_eq!(state.args.len(), 2);
    assert_eq!(state.envs.len(), 1);
    assert_eq!(state.fs.fd_map.len(), 0);
}

#[test]
fn descriptors_may_alias_one_inode_and_keep_their_own_cursor() {
    let mut fs = empty_fs();
    let inode = fs
        .inodes
        .insert(inode_val(7, Kind::File { handle: WasiFile::HostFile(0) }));
    let fd_a = fs.create_fd(1, 1, 0, inode).expect("allocation");
    let fd_b = fs.create_fd(2, 2, 0, inode).expect("allocation");
    assert_ne!(fd_a, fd_b);
    // Advance one cursor through the table's exclusive access; the alias
    // keeps its own offset.
    fs.fd_map.get_mut(fd_a).offset = 16;
    assert_eq!(fs.fd_map.get(fd_a).unwrap().offset, 16);
    assert_eq!(fs.fd_map.get(fd_b).unwrap().offset, 0);
    assert_eq!(fs.filestat_fd(fd_a).unwrap().st_ino, 7);
    assert_eq!(fs.filestat_fd(fd_b).unwrap().st_ino, 7);
}
