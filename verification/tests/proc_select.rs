//! Tests of the process- and module-selection logic.

use injector::proc::{
    find_libc, path_is_libc, pid_from_fname, pid_from_name, MapsEntry, Perms, ProcExe, ProcName,
};

fn entry(base: usize, path: &[u8]) -> MapsEntry {
    MapsEntry {
        base,
        end: base + 0x1000,
        flags: Perms { read: true, write: false, execute: true },
        path: path.to_vec(),
    }
}

#[test]
fn libc_paths_are_recognized() {
    assert!(path_is_libc(&b"/usr/lib/libc.so.6".to_vec()));
    assert!(path_is_libc(&b"/lib/x86_64-linux-gnu/libc-2.31.so".to_vec()));
    assert!(!path_is_libc(&b"/usr/lib/libcrypt.so".to_vec()));
    assert!(!path_is_libc(&b"/usr/lib/liblibc".to_vec()));
    assert!(!path_is_libc(&b"libc.so".to_vec())); // no slash before it
    assert!(!path_is_libc(&b"".to_vec()));
}

#[test]
fn find_libc_picks_the_first_matching_module() {
    let maps = vec![
        entry(0x1000, b"/usr/bin/target"),
        entry(0x2000, b"/usr/lib/libm.so.6"),
        entry(0x3000, b"/usr/lib/libc.so.6"),
        entry(0x4000, b"/usr/lib/libc-2.31.so"),
    ];
    assert_eq!(find_libc(&maps), Some(2));
    assert_eq!(maps[2].base, 0x3000);
    let none = vec![entry(0x1000, b"/usr/bin/target")];
    assert_eq!(find_libc(&none), None);
}

#[test]
fn pid_is_found_by_exact_name() {
    let procs = vec![
        ProcName { pid: 10, name: b"bash".to_vec() },
        ProcName { pid: 20, name: b"target".to_vec() },
        ProcName { pid: 30, name: b"target".to_vec() },
    ];
    assert_eq!(pid_from_name(&procs, &b"target".to_vec()), Some(20));
    assert_eq!(pid_from_name(&procs, &b"bash".to_vec()), Some(10));
    assert_eq!(pid_from_name(&procs, &b"tar".to_vec()), None);
}

#[test]
fn pid_is_found_by_executable_filename() {
    let procs = vec![
        ProcExe { pid: 10, path: b"/usr/bin/bash".to_vec() },
        ProcExe { pid: 20, path: b"/opt/app/target".to_vec() },
        ProcExe { pid: 30, path: b"/usr/bin/mytarget".to_vec() },
    ];
    assert_eq!(pid_from_fname(&procs, &b"target".to_vec()), Some(20));
    assert_eq!(pid_from_fname(&procs, &b"bash".to_vec()), Some(10));
    // the component must match whole: "mytarget" is not "target"
    assert_eq!(pid_from_fname(&procs, &b"ytarget".to_vec()), None);
    assert_eq!(pid_from_fname(&procs, &b"nothing".to_vec()), None);
}
