use ssandbox::config::CGroupLimitPolicy;
use ssandbox::resource::{cgroup_dir, freezer_write};

#[test]
fn cgroup_named_by_uid() {
    assert_eq!(cgroup_dir(12345), "/sys/fs/cgroup/ssandbox/12345");
}

#[test]
fn apply_without_limits_only_moves_pid() {
    let w = CGroupLimitPolicy::new().apply(9, 4242);
    assert_eq!(w.len(), 1);
    assert_eq!(w[0].path, "/sys/fs/cgroup/ssandbox/9/cgroup.procs");
    assert_eq!(w[0].content, "4242");
}

#[test]
fn apply_writes_limits_then_pid() {
    let p = CGroupLimitPolicy { memory_bytes: Some(67108864), max_pids: Some(16), cpu_quota_us: Some(500000) };
    let w = p.apply(3, 77);
    assert_eq!(w.len(), 4);
    assert_eq!((w[0].path.as_str(), w[0].content.as_str()), ("/sys/fs/cgroup/ssandbox/3/memory.max", "67108864"));
    assert_eq!((w[1].path.as_str(), w[1].content.as_str()), ("/sys/fs/cgroup/ssandbox/3/pids.max", "16"));
    assert_eq!((w[2].path.as_str(), w[2].content.as_str()), ("/sys/fs/cgroup/ssandbox/3/cpu.max", "500000 1000000"));
    assert_eq!((w[3].path.as_str(), w[3].content.as_str()), ("/sys/fs/cgroup/ssandbox/3/cgroup.procs", "77"));
}

#[test]
fn freeze_then_thaw_writes_freezer() {
    let f = freezer_write(5, true);
    let t = freezer_write(5, false);
    assert_eq!(f.path, "/sys/fs/cgroup/ssandbox/5/cgroup.freeze");
    assert_eq!(t.path, f.path);
    assert_eq!(f.content, "1");
    assert_eq!(t.content, "0");
}
