use ssandbox::config::{Config, SecurityPolicy};

#[test]
fn default_config() {
    let c = Config::default();
    assert_eq!(c.working_path, "/tmp/ssandbox-rs.workspace/");
    assert_eq!(c.hostname, "container");
    assert_eq!(c.target_executable, "/bin/sh");
    assert!(c.fs.is_empty());
    assert_eq!(c.security_policies.len(), 2);
    assert!(matches!(&c.security_policies[0], SecurityPolicy::Capability(p) if p.keep == 0));
    assert!(matches!(&c.security_policies[1], SecurityPolicy::Seccomp(p) if p.allowed.is_empty()));
    assert_eq!(c.inner_uid, 0);
    assert_eq!(c.inner_gid, 0);
    assert_eq!(c.time_limit_ms, 1000);
    assert!(c.stdin.is_none() && c.stdout.is_none() && c.stderr.is_none());
}

#[test]
fn workspace_paths_use_decimal_uid() {
    let mut c = Config::default();
    c.working_path = "/srv/ws".to_string();
    c.uid = 18446744073709551615;
    assert_eq!(c.workspace_dir(), "/srv/ws/18446744073709551615");
    assert_eq!(c.root_dir(), "/srv/ws/18446744073709551615/root");
    c.uid = 0;
    assert_eq!(c.workspace_dir(), "/srv/ws/0");
}
