use ssandbox::filesystem::{
    join, MountBindFs, MountExtraFs, MountNamespacedFs, MountProcFs, MountReadOnlyBindFs,
    MountStep, MountTmpFs,
};

#[test]
fn tmpfs_mounts_after_pivot() {
    let base = "/w/1/root".to_string();
    assert!(MountTmpFs.loading(&base).is_empty());
    let m = MountTmpFs.loaded();
    assert_eq!(m.len(), 1);
    assert_eq!(m[0].source.as_deref(), Some("tmpfs"));
    assert_eq!(m[0].target, "/tmp");
    assert_eq!(m[0].fstype.as_deref(), Some("tmpfs"));
    assert!(!m[0].flags.bind && !m[0].flags.read_only);
}

#[test]
fn procfs_mounts_after_pivot() {
    assert!(MountProcFs.loading(&"/r".to_string()).is_empty());
    let m = MountProcFs.loaded();
    assert_eq!(m.len(), 1);
    assert_eq!(m[0].source.as_deref(), Some("proc"));
    assert_eq!(m[0].target, "/proc");
    assert_eq!(m[0].fstype.as_deref(), Some("proc"));
}

#[test]
fn bind_mounts_before_pivot() {
    let step = MountBindFs::from("/images/base".to_string());
    let m = step.loading(&"/w/7/root".to_string());
    assert_eq!(m.len(), 1);
    assert_eq!(m[0].source.as_deref(), Some("/images/base"));
    assert_eq!(m[0].target, "/w/7/root");
    assert!(m[0].flags.bind && m[0].flags.recursive && !m[0].flags.read_only);
    assert!(step.loaded().is_empty());
}

#[test]
fn read_only_bind_remounts() {
    let step = MountReadOnlyBindFs::from("/images/alpine".to_string());
    let m = step.loading(&"/w/7/root".to_string());
    assert_eq!(m.len(), 2);
    assert_eq!(m[0].source.as_deref(), Some("/images/alpine"));
    assert!(m[0].flags.bind && m[0].flags.recursive);
    assert_eq!(m[1].source, None);
    assert_eq!(m[1].target, "/w/7/root");
    assert!(m[1].flags.remount && m[1].flags.read_only && m[1].flags.bind);
    assert!(step.loaded().is_empty());
}

#[test]
fn extra_binds_in_insertion_order() {
    let mut extra = MountExtraFs::new();
    assert!(extra.loading(&"/r".to_string()).is_empty());
    extra.add("/usr/lib".to_string(), "/lib".to_string());
    extra.add("/data".to_string(), "data".to_string());
    let m = MountStep::Extra(extra).loading(&"/r".to_string());
    assert_eq!(m.len(), 4);
    assert_eq!(m[0].source.as_deref(), Some("/usr/lib"));
    assert_eq!(m[0].target, "/r//lib");
    assert_eq!(m[1].target, "/r//lib");
    assert!(m[1].flags.read_only);
    assert_eq!(m[2].source.as_deref(), Some("/data"));
    assert_eq!(m[2].target, "/r/data");
}

#[test]
fn join_puts_one_separator() {
    assert_eq!(join(&"/a".to_string(), &"b".to_string()), "/a/b");
    assert_eq!(join(&String::new(), &"b".to_string()), "/b");
}
