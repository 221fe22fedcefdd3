//! The configuration of one container.
use crate::filesystem::{join, join_path, MountStep};
use vstd::prelude::*;
use vstd::string::*;

verus! {

/// Restricts the permitted, effective, inheritable and bounding capability
/// sets to `keep` (a bit per capability number).
#[derive(Debug, Clone, Copy, PartialEq, Eq, Structural)]
pub struct CapabilityPolicy {
    pub keep: u64,
}

impl CapabilityPolicy {
    /// Keeps no capability.
    pub fn new() -> (r: Self)
        ensures
            r.keep == 0,
    {
        CapabilityPolicy { keep: 0 }
    }
}

/// A default-deny syscall filter that lets the listed syscall numbers
/// through. With an empty list no filter is loaded.
#[derive(Debug, Clone)]
pub struct SeccompPolicy {
    pub allowed: Vec<u32>,
}

impl SeccompPolicy {
    /// An empty allowlist: no filter.
    pub fn new() -> (r: Self)
        ensures
            r.allowed@.len() == 0,
    {
        SeccompPolicy { allowed: Vec::new() }
    }
}

/// A policy that narrows the child's privileges just before `exec`.
#[derive(Debug, Clone)]
pub enum SecurityPolicy {
    Capability(CapabilityPolicy),
    Seccomp(SeccompPolicy),
}

/// Resource caps written into the container's cgroup; `None` leaves a
/// controller at its default.
#[derive(Debug, Clone, Copy, PartialEq, Eq, Structural)]
pub struct CGroupLimitPolicy {
    pub memory_bytes: Option<u64>,
    pub max_pids: Option<u64>,
    pub cpu_quota_us: Option<u64>,
}

impl CGroupLimitPolicy {
    /// No cap on any controller.
    pub fn new() -> (r: Self)
        ensures
            r.memory_bytes.is_none(),
            r.max_pids.is_none(),
            r.cpu_quota_us.is_none(),
    {
        CGroupLimitPolicy { memory_bytes: None, max_pids: None, cpu_quota_us: None }
    }
}

/// The configuration of a container, fixed once the container is built.
#[derive(Debug, Clone)]
pub struct Config {
    /// Names the cgroup and the workspace directory.
    pub uid: u64,
    /// Host directory under which each container's workspace is created.
    pub working_path: String,
    pub hostname: String,
    /// Absolute path of the program inside the container.
    pub target_executable: String,
    /// Arguments handed to the program after its own path.
    pub args: Vec<String>,
    pub fs: Vec<MountStep>,
    pub security_policies: Vec<SecurityPolicy>,
    pub cgroup_limits: CGroupLimitPolicy,
    pub inner_uid: u32,
    pub inner_gid: u32,
    /// Wall-clock deadline in milliseconds, counted from readiness.
    pub time_limit_ms: u64,
    pub stdin: Option<String>,
    pub stdout: Option<String>,
    pub stderr: Option<String>,
}

/// Relies on rand::random: a uniformly drawn `u64`; nothing is known of it.
#[verifier::external_body]
fn random_uid() -> (r: u64) {
    rand::random::<u64>()
}

/// The decimal digit `d`.
pub open spec fn digit(d: nat) -> char {
    seq!['0', '1', '2', '3', '4', '5', '6', '7', '8', '9'][d as int]
}

/// The decimal form of `n`, without leading zeros.
pub open spec fn decimal(n: nat) -> Seq<char>
    decreases n,
{
    if n < 10 {
        seq![digit(n)]
    } else {
        decimal(n / 10).push(digit(n % 10))
    }
}

/// The decimal digit `d`, as a string.
fn digit_text(d: u64) -> (r: String)
    requires
        d < 10,
    ensures
        r@ == seq![digit(d as nat)],
{
    let t = if d == 0 {
        "0"
    } else if d == 1 {
        "1"
    } else if d == 2 {
        "2"
    } else if d == 3 {
        "3"
    } else if d == 4 {
        "4"
    } else if d == 5 {
        "5"
    } else if d == 6 {
        "6"
    } else if d == 7 {
        "7"
    } else if d == 8 {
        "8"
    } else {
        "9"
    };
    proof {
        reveal_strlit("0");
        reveal_strlit("1");
        reveal_strlit("2");
        reveal_strlit("3");
        reveal_strlit("4");
        reveal_strlit("5");
        reveal_strlit("6");
        reveal_strlit("7");
        reveal_strlit("8");
        reveal_strlit("9");
        assert(t@ =~= seq![digit(d as nat)]);
    }
    String::from_str(t)
}

/// The decimal form of `n`.
pub(crate) fn decimal_text(n: u64) -> (r: String)
    ensures
        r@ == decimal(n as nat),
    decreases n,
{
    if n < 10 {
        digit_text(n)
    } else {
        let head = decimal_text(n / 10);
        let last = digit_text(n % 10);
        let r = head.concat(last.as_str());
        proof {
            assert(r@ =~= decimal((n / 10) as nat).push(digit((n % 10) as nat)));
        }
        r
    }
}

/// `<working_path>/<uid>`.
pub open spec fn workspace_path(working_path: Seq<char>, uid: u64) -> Seq<char> {
    join_path(working_path, decimal(uid as nat))
}

/// `<working_path>/<uid>/root`.
pub open spec fn root_path(working_path: Seq<char>, uid: u64) -> Seq<char> {
    join_path(workspace_path(working_path, uid), "root"@)
}

/// The values of the default configuration, all but the random `uid`.
pub open spec fn is_default_config(r: Config) -> bool {
    &&& r.working_path@ == "/tmp/ssandbox-rs.workspace/"@
    &&& r.hostname@ == "container"@
    &&& r.target_executable@ == "/bin/sh"@
    &&& r.args@.len() == 0
    &&& r.fs@.len() == 0
    &&& r.security_policies@.len() == 2
    &&& (r.security_policies@[0] matches SecurityPolicy::Capability(p) && p.keep == 0)
    &&& (r.security_policies@[1] matches SecurityPolicy::Seccomp(p) && p.allowed@.len() == 0)
    &&& r.cgroup_limits.memory_bytes.is_none()
    &&& r.cgroup_limits.max_pids.is_none()
    &&& r.cgroup_limits.cpu_quota_us.is_none()
    &&& r.inner_uid == 0
    &&& r.inner_gid == 0
    &&& r.time_limit_ms == 1000
    &&& r.stdin.is_none()
    &&& r.stdout.is_none()
    &&& r.stderr.is_none()
}

impl Config {
    /// A configuration with a fresh random `uid`: workspace under
    /// `/tmp/ssandbox-rs.workspace/`, hostname `container`, target
    /// `/bin/sh`, no mount step, capability then seccomp policy, no cgroup
    /// cap, inner identity 0, a one second deadline, no redirection.
    pub fn default() -> (r: Self)
        ensures
            is_default_config(r),
    {
        let mut security_policies: Vec<SecurityPolicy> = Vec::new();
        security_policies.push(SecurityPolicy::Capability(CapabilityPolicy::new()));
        security_policies.push(SecurityPolicy::Seccomp(SeccompPolicy::new()));
        Config {
            uid: random_uid(),
            working_path: String::from_str("/tmp/ssandbox-rs.workspace/"),
            hostname: String::from_str("container"),
            target_executable: String::from_str("/bin/sh"),
            args: Vec::new(),
            fs: Vec::new(),
            security_policies,
            cgroup_limits: CGroupLimitPolicy::new(),
            inner_uid: 0,
            inner_gid: 0,
            time_limit_ms: 1000,
            stdin: None,
            stdout: None,
            stderr: None,
        }
    }

    /// The host directory of this container's workspace.
    pub fn workspace_dir(&self) -> (r: String)
        ensures
            r@ == workspace_path(self.working_path@, self.uid),
    {
        join(&self.working_path, &decimal_text(self.uid))
    }

    /// The host directory that becomes the container's root.
    pub fn root_dir(&self) -> (r: String)
        ensures
            r@ == root_path(self.working_path@, self.uid),
    {
        join(&self.workspace_dir(), &String::from_str("root"))
    }
}

} // verus!
