use ssandbox::idmap::map_to_root;

#[test]
fn id_map_writes() {
    let w = map_to_root(4321, 1000, 100);
    assert_eq!(w.len(), 3);
    assert_eq!(w[0].path, "/proc/4321/setgroups");
    assert_eq!(w[0].content, "deny");
    assert_eq!(w[1].path, "/proc/4321/uid_map");
    assert_eq!(w[1].content, "0 1000 1");
    assert_eq!(w[2].path, "/proc/4321/gid_map");
    assert_eq!(w[2].content, "0 100 1");
}
