//! Selection logic over process metadata: picking a process id by name or by
//! executable filename, and picking the loaded module that is the target's
//! libc out of its memory map.
//!
//! Listing process ids and reading the metadata itself are OS-listing
//! utilities outside this library; callers hand the collected records in.

use vstd::prelude::*;

verus! {

/// Permission flags of one mapped region.
#[derive(PartialEq, Eq, Structural, Clone, Copy, Debug)]
pub struct Perms {
    pub read: bool,
    pub write: bool,
    pub execute: bool,
}

/// One record of a process's memory-mapping table: the address range of a
/// loaded module, its permissions and its backing file path.
pub struct MapsEntry {
    pub base: usize,
    pub end: usize,
    pub flags: Perms,
    pub path: Vec<u8>,
}

/// A process id together with the process's name.
pub struct ProcName {
    pub pid: i32,
    pub name: Vec<u8>,
}

/// A process id together with the process's executable path.
pub struct ProcExe {
    pub pid: i32,
    pub path: Vec<u8>,
}

/// The six bytes `/libc` plus `.` or `-` start at index `i` of `p`: the mark
/// of a libc module path.
pub open spec fn libc_marker_at(p: Seq<u8>, i: int) -> bool {
    &&& 0 <= i
    &&& i + 6 <= p.len()
    &&& p[i] == 47
    &&& p[i + 1] == 108
    &&& p[i + 2] == 105
    &&& p[i + 3] == 98
    &&& p[i + 4] == 99
    &&& (p[i + 5] == 46 || p[i + 5] == 45)
}

/// The path names a libc module: some component starts with `libc.`/`libc-`.
pub open spec fn is_libc_path(p: Seq<u8>) -> bool {
    exists|i: int| libc_marker_at(p, i)
}

/// Scans the path for the libc mark.
pub fn path_is_libc(p: &Vec<u8>) -> (r: bool)
    ensures
        r == is_libc_path(p@),
{
    let n: usize = p.len();
    if n < 6 {
        assert(forall|i: int| !libc_marker_at(p@, i));
        return false;
    }
    let mut i: usize = 0;
    while i <= n - 6
        invariant
            n == p@.len(),
            6 <= n,
            i <= n - 5,
            forall|j: int| 0 <= j < i ==> !libc_marker_at(p@, j),
        decreases n - i,
    {
        if p[i] == 47 && p[i + 1] == 108 && p[i + 2] == 105 && p[i + 3] == 98 && p[i + 4] == 99 && (
        p[i + 5] == 46 || p[i + 5] == 45) {
            assert(libc_marker_at(p@, i as int));
            return true;
        }
        i = i + 1;
    }
    assert(forall|j: int| !libc_marker_at(p@, j));
    false
}

/// Picks the first mapped module whose backing path names a libc: the entry
/// whose base address is the libc load base.
pub fn find_libc(maps: &Vec<MapsEntry>) -> (r: Option<usize>)
    ensures
        match r {
            Some(i) => i < maps@.len() && is_libc_path(maps@[i as int].path@) && (forall|j: int|
                0 <= j < i ==> !is_libc_path(#[trigger] maps@[j].path@)),
            None => forall|j: int| 0 <= j < maps@.len() ==> !is_libc_path(#[trigger] maps@[j].path@),
        },
{
    let mut i: usize = 0;
    while i < maps.len()
        invariant
            i <= maps@.len(),
            forall|j: int| 0 <= j < i ==> !is_libc_path(#[trigger] maps@[j].path@),
        decreases maps@.len() - i,
    {
        if path_is_libc(&maps[i].path) {
            return Some(i);
        }
        i = i + 1;
    }
    None
}

/// The path ends in `/` followed exactly by `fname`.
pub open spec fn path_matches_fname(path: Seq<u8>, fname: Seq<u8>) -> bool {
    &&& path.len() >= fname.len() + 1
    &&& path[path.len() - fname.len() - 1] == 47
    &&& path.subrange(path.len() - fname.len(), path.len() as int) == fname
}

/// Tests whether the executable path's final component is exactly `fname`.
pub fn path_ends_with_fname(path: &Vec<u8>, fname: &Vec<u8>) -> (r: bool)
    ensures
        r == path_matches_fname(path@, fname@),
{
    let plen: usize = path.len();
    let flen: usize = fname.len();
    if plen <= flen {
        return false;
    }
    let start = plen - flen;
    if path[start - 1] != 47 {
        return false;
    }
    let mut k: usize = 0;
    while k < flen
        invariant
            k <= flen,
            plen == path@.len(),
            flen == fname@.len(),
            plen >= flen + 1,
            start == plen - flen,
            forall|m: int| 0 <= m < k ==> path@[start + m] == fname@[m],
        decreases flen - k,
    {
        if path[start + k] != fname[k] {
            assert(path@.subrange(start as int, plen as int) != fname@) by {
                assert(path@.subrange(start as int, plen as int)[k as int] != fname@[k as int]);
            }
            return false;
        }
        k = k + 1;
    }
    proof {
        assert(path@.subrange(start as int, plen as int) =~= fname@);
    }
    true
}

/// The pid of the first record whose process name equals `name` exactly.
pub fn pid_from_name(procs: &Vec<ProcName>, name: &Vec<u8>) -> (r: Option<i32>)
    ensures
        r is Some <==> exists|i: int|
            0 <= i < procs@.len() && (#[trigger] procs@[i].name@) == name@,
        r matches Some(p) ==> exists|i: int|
            {
                &&& 0 <= i < procs@.len()
                &&& (#[trigger] procs@[i].name@) == name@
                &&& procs@[i].pid == p
                &&& forall|j: int| 0 <= j < i ==> (#[trigger] procs@[j].name@) != name@
            },
{
    let mut i: usize = 0;
    while i < procs.len()
        invariant
            i <= procs@.len(),
            forall|j: int| 0 <= j < i ==> (#[trigger] procs@[j].name@) != name@,
        decreases procs@.len() - i,
    {
        if crate::bytes::bytes_eq(&procs[i].name, name) {
            return Some(procs[i].pid);
        }
        i = i + 1;
    }
    None
}

/// The pid of the first record whose executable path's final component is
/// exactly `fname`.
pub fn pid_from_fname(procs: &Vec<ProcExe>, fname: &Vec<u8>) -> (r: Option<i32>)
    ensures
        r is Some <==> exists|i: int|
            0 <= i < procs@.len() && path_matches_fname(#[trigger] procs@[i].path@, fname@),
        r matches Some(p) ==> exists|i: int|
            {
                &&& 0 <= i < procs@.len()
                &&& path_matches_fname(#[trigger] procs@[i].path@, fname@)
                &&& procs@[i].pid == p
                &&& forall|j: int|
                    0 <= j < i ==> !path_matches_fname(#[trigger] procs@[j].path@, fname@)
            },
{
    let mut i: usize = 0;
    while i < procs.len()
        invariant
            i <= procs@.len(),
            forall|j: int| 0 <= j < i ==> !path_matches_fname(#[trigger] procs@[j].path@, fname@),
        decreases procs@.len() - i,
    {
        if path_ends_with_fname(&procs[i].path, fname) {
            return Some(procs[i].pid);
        }
        i = i + 1;
    }
    None
}

} // verus!
