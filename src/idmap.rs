//! The user-namespace identity map the supervisor writes for the child:
//! in-container root maps to the supervisor's effective user and group.
use crate::config::{decimal, decimal_text};
use crate::filesystem::{join, join_path};
use vstd::prelude::*;
use vstd::string::*;

verus! {

/// `/proc/<pid>`.
pub open spec fn proc_dir(pid: u32) -> Seq<char> {
    join_path("/proc"@, decimal(pid as nat))
}

/// One map line: inside id 0 is outside id `outer`, for a range of one.
pub open spec fn map_line(outer: u32) -> Seq<char> {
    "0 "@ + decimal(outer as nat) + " 1"@
}

/// A file to write and what to write into it.
#[derive(Debug, Clone)]
pub struct FileWrite {
    pub path: String,
    pub content: String,
}

/// The writes, in order: `setgroups` gets `deny`, then `uid_map` maps 0 to
/// `euid`, then `gid_map` maps 0 to `egid`.
pub open spec fn id_map_spec(pid: u32, euid: u32, egid: u32) -> Seq<(Seq<char>, Seq<char>)> {
    seq![
        (join_path(proc_dir(pid), "setgroups"@), "deny"@),
        (join_path(proc_dir(pid), "uid_map"@), map_line(euid)),
        (join_path(proc_dir(pid), "gid_map"@), map_line(egid)),
    ]
}

pub open spec fn writes_view(v: Seq<FileWrite>) -> Seq<(Seq<char>, Seq<char>)> {
    v.map_values(|w: FileWrite| (w.path@, w.content@))
}

fn map_line_text(outer: u32) -> (r: String)
    ensures
        r@ == map_line(outer),
{
    String::from_str("0 ").concat(decimal_text(outer as u64).as_str()).concat(" 1")
}

/// What `map_to_root` writes for child `pid`, the supervisor's effective
/// user `euid` and group `egid`.
pub fn map_to_root(pid: u32, euid: u32, egid: u32) -> (r: Vec<FileWrite>)
    ensures
        writes_view(r@) == id_map_spec(pid, euid, egid),
{
    let dir = join(&String::from_str("/proc"), &decimal_text(pid as u64));
    let mut r: Vec<FileWrite> = Vec::new();
    r.push(
        FileWrite {
            path: join(&dir, &String::from_str("setgroups")),
            content: String::from_str("deny"),
        },
    );
    r.push(FileWrite { path: join(&dir, &String::from_str("uid_map")), content: map_line_text(euid) });
    r.push(FileWrite { path: join(&dir, &String::from_str("gid_map")), content: map_line_text(egid) });
    proof {
        assert(writes_view(r@) =~= id_map_spec(pid, euid, egid));
    }
    r
}

} // verus!
