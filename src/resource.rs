//! The cgroup of a container, in the unified (v2) hierarchy: its directory
//! is named by the container's `uid`, and every operation is a short list
//! of file writes into it.
use crate::config::{decimal, decimal_text, CGroupLimitPolicy};
use crate::filesystem::{join, join_path};
use crate::idmap::{writes_view, FileWrite};
use vstd::prelude::*;
use vstd::string::*;

verus! {

/// Where the containers' cgroups are created.
pub open spec fn cgroup_parent() -> Seq<char> {
    "/sys/fs/cgroup/ssandbox"@
}

/// The cgroup directory of container `uid`.
pub open spec fn cgroup_path(uid: u64) -> Seq<char> {
    join_path(cgroup_parent(), decimal(uid as nat))
}

/// One write of `value` into file `name` of the cgroup, if there is a value.
pub open spec fn limit_write(dir: Seq<char>, name: Seq<char>, value: Option<Seq<char>>) -> Seq<
    (Seq<char>, Seq<char>),
> {
    match value {
        Some(v) => seq![(join_path(dir, name), v)],
        None => seq![],
    }
}

pub open spec fn opt_decimal(v: Option<u64>) -> Option<Seq<char>> {
    match v {
        Some(n) => Some(decimal(n as nat)),
        None => None,
    }
}

/// `cpu.max` holds the quota and the period, one second here.
pub open spec fn cpu_max(v: Option<u64>) -> Option<Seq<char>> {
    match v {
        Some(n) => Some(decimal(n as nat) + " 1000000"@),
        None => None,
    }
}

/// What `apply` writes: each configured limit, then the PID into
/// `cgroup.procs`, which moves the child in.
pub open spec fn apply_spec(p: CGroupLimitPolicy, uid: u64, pid: u32) -> Seq<
    (Seq<char>, Seq<char>),
> {
    let dir = cgroup_path(uid);
    limit_write(dir, "memory.max"@, opt_decimal(p.memory_bytes)) + limit_write(
        dir,
        "pids.max"@,
        opt_decimal(p.max_pids),
    ) + limit_write(dir, "cpu.max"@, cpu_max(p.cpu_quota_us)) + seq![
        (join_path(dir, "cgroup.procs"@), decimal(pid as nat)),
    ]
}

/// The directory of container `uid`'s cgroup.
pub fn cgroup_dir(uid: u64) -> (r: String)
    ensures
        r@ == cgroup_path(uid),
{
    join(&String::from_str("/sys/fs/cgroup/ssandbox"), &decimal_text(uid))
}

fn push_limit(out: &mut Vec<FileWrite>, dir: &String, name: &str, value: Option<String>)
    ensures
        writes_view(final(out)@) == writes_view(old(out)@) + limit_write(
            dir@,
            name@,
            match value {
                Some(v) => Some(v@),
                None => None,
            },
        ),
{
    let ghost before = out@;
    if let Some(v) = value {
        out.push(FileWrite { path: join(dir, &String::from_str(name)), content: v });
    }
    proof {
        assert(writes_view(out@) =~= writes_view(before) + limit_write(
            dir@,
            name@,
            match value {
                Some(v) => Some(v@),
                None => None,
            },
        ));
    }
}

fn decimal_opt(v: Option<u64>) -> (r: Option<String>)
    ensures
        (match r {
            Some(s) => Some(s@),
            None => None,
        }) == opt_decimal(v),
{
    match v {
        Some(n) => Some(decimal_text(n)),
        None => None,
    }
}

impl CGroupLimitPolicy {
    /// The writes that put child `pid` of container `uid` under these
    /// limits; the cgroup directory is created first.
    pub fn apply(&self, uid: u64, pid: u32) -> (r: Vec<FileWrite>)
        ensures
            writes_view(r@) == apply_spec(*self, uid, pid),
    {
        let dir = cgroup_dir(uid);
        let mut out: Vec<FileWrite> = Vec::new();
        push_limit(&mut out, &dir, "memory.max", decimal_opt(self.memory_bytes));
        push_limit(&mut out, &dir, "pids.max", decimal_opt(self.max_pids));
        let cpu = match self.cpu_quota_us {
            Some(n) => Some(decimal_text(n).concat(" 1000000")),
            None => None,
        };
        push_limit(&mut out, &dir, "cpu.max", cpu);
        let ghost before = out@;
        out.push(
            FileWrite {
                path: join(&dir, &String::from_str("cgroup.procs")),
                content: decimal_text(pid as u64),
            },
        );
        proof {
            assert(writes_view(out@) =~= writes_view(before).push(
                (join_path(dir@, "cgroup.procs"@), decimal(pid as nat)),
            ));
            assert(writes_view(out@) =~= apply_spec(*self, uid, pid));
        }
        out
    }
}

/// Freezing (`true`) or thawing (`false`) writes `1` or `0` into
/// `cgroup.freeze`.
pub open spec fn freezer_spec(uid: u64, frozen: bool) -> (Seq<char>, Seq<char>) {
    (join_path(cgroup_path(uid), "cgroup.freeze"@), if frozen { "1"@ } else { "0"@ })
}

/// The write that freezes or thaws container `uid`.
pub fn freezer_write(uid: u64, frozen: bool) -> (r: FileWrite)
    ensures
        (r.path@, r.content@) == freezer_spec(uid, frozen),
{
    let path = join(&cgroup_dir(uid), &String::from_str("cgroup.freeze"));
    let content = if frozen {
        String::from_str("1")
    } else {
        String::from_str("0")
    };
    FileWrite { path, content }
}

/// Freezing then thawing leaves the freezer as it was before: both write
/// the same file of the same cgroup, the first `1` and the second `0`,
/// which is the value of a cgroup that was never frozen.
pub proof fn lemma_freeze_then_thaw(uid: u64)
    ensures
        freezer_spec(uid, true).0 == freezer_spec(uid, false).0,
        freezer_spec(uid, false).1 == "0"@,
        freezer_spec(uid, true).1 != freezer_spec(uid, false).1,
{
    reveal_strlit("0");
    reveal_strlit("1");
    assert("1"@[0] != "0"@[0]);
}

} // verus!
