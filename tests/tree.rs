use std::collections::BTreeSet;

use nvmet::{Host, IoError, IoErrorKind, Port, Subsystem, CONFIGFS_DIR};

#[test]
fn paths_of_top_level_objects() {
    assert_eq!(CONFIGFS_DIR, "/sys/kernel/config/nvmet");
    let s = Subsystem::open("nqn.2014-08.org.example:sub".to_string());
    assert_eq!(s.nqn(), "nqn.2014-08.org.example:sub");
    assert_eq!(s.path(), "/sys/kernel/config/nvmet/subsystems/nqn.2014-08.org.example:sub");
    assert_eq!(Port::open(0).path(), "/sys/kernel/config/nvmet/ports/0");
    assert_eq!(Port::open(4294967295).path(), "/sys/kernel/config/nvmet/ports/4294967295");
    let h = Host::open("nqn.host-a".to_string());
    assert_eq!(h.nqn(), "nqn.host-a");
    assert_eq!(h.path(), "/sys/kernel/config/nvmet/hosts/nqn.host-a");
}

#[test]
fn namespace_directory_of_an_id() {
    let s = Subsystem::open("nqn.test-1".to_string());
    assert_eq!(s.namespaces_dir(), "/sys/kernel/config/nvmet/subsystems/nqn.test-1/namespaces");
    assert_eq!(s.namespace(0).path(), "/sys/kernel/config/nvmet/subsystems/nqn.test-1/namespaces/0");
    assert_eq!(s.namespace(10).path(), "/sys/kernel/config/nvmet/subsystems/nqn.test-1/namespaces/10");
    assert_eq!(
        s.namespace(u32::MAX).attribute("enable"),
        "/sys/kernel/config/nvmet/subsystems/nqn.test-1/namespaces/4294967295/enable"
    );
}

#[test]
fn enumerated_namespaces_are_the_created_ones() {
    let s = Subsystem::open("nqn.test-1".to_string());
    let created: BTreeSet<String> = [1u32, 2, 5].iter().map(|&id| s.namespace(id).path().to_string()).collect();
    let entries = vec!["5".to_string(), "1".to_string(), "2".to_string()];
    let listed = s.namespaces(&entries);
    assert_eq!(listed.len(), 3);
    let found: BTreeSet<String> = listed.iter().map(|n| n.path().to_string()).collect();
    assert_eq!(found, created);
    let ids: BTreeSet<String> = listed.iter().map(|n| n.path().rsplit('/').next().unwrap().to_string()).collect();
    let expected: BTreeSet<String> = ["1", "2", "5"].iter().map(|s| s.to_string()).collect();
    assert_eq!(ids, expected);
}

#[test]
fn no_entries_no_handles() {
    let s = Subsystem::open("nqn.empty".to_string());
    assert!(s.namespaces(&Vec::new()).is_empty());
    assert!(Subsystem::list_all(&Vec::new()).is_empty());
    assert!(Port::open(1).subsystems(&Vec::new()).is_empty());
}

#[test]
fn listing_subsystems_keeps_names() {
    let entries = vec!["nqn.a".to_string(), "nqn.b".to_string()];
    let all = Subsystem::list_all(&entries);
    assert_eq!(all.iter().map(|s| s.nqn().to_string()).collect::<Vec<_>>(), entries);
    let through_port = Port::open(3).subsystems(&entries);
    assert_eq!(through_port[1].path(), "/sys/kernel/config/nvmet/subsystems/nqn.b");
}

#[test]
fn exporting_a_subsystem_links_it_by_name() {
    let p = Port::open(7);
    let s = Subsystem::open("nqn.test-1".to_string());
    let link = p.add_subsystem(&s);
    assert_eq!(link.target, "/sys/kernel/config/nvmet/subsystems/nqn.test-1");
    assert_eq!(link.link, "/sys/kernel/config/nvmet/ports/7/subsystems/nqn.test-1");
    assert_eq!(p.subsystem_link(s.nqn()), link.link);
    assert_eq!(p.remove_subsystem("nqn.test-1"), link.link);
    assert_eq!(p.subsystems_dir(), "/sys/kernel/config/nvmet/ports/7/subsystems");
}

#[test]
fn missing_link_is_absent_not_an_error() {
    let p = Port::open(7);
    assert_eq!(p.has_subsystem(Ok(())), Ok(true));
    let missing = IoError { kind: IoErrorKind::NotFound, os_code: Some(2) };
    assert_eq!(p.has_subsystem(Err(missing)), Ok(false));
    let denied = IoError { kind: IoErrorKind::PermissionDenied, os_code: Some(13) };
    assert_eq!(p.has_subsystem(Err(denied)), Err(denied));
    let other = IoError { kind: IoErrorKind::Other, os_code: None };
    assert_eq!(p.has_subsystem(Err(other)), Err(other));
}

#[test]
fn serial_of_a_new_subsystem() {
    let s = Subsystem::open("nqn.test-1".to_string());
    assert_eq!(s.path(), "/sys/kernel/config/nvmet/subsystems/nqn.test-1");
    let w = s.set_attr_serial("SER123");
    assert_eq!(w.path, "/sys/kernel/config/nvmet/subsystems/nqn.test-1/attr_serial");
    assert_eq!(w.text, "SER123\n");
    assert_eq!(s.attr_serial(Ok(w.text)), Ok("SER123".to_string()));
}

#[test]
fn roots_of_the_tree() {
    assert_eq!(nvmet::subsystems_root(), "/sys/kernel/config/nvmet/subsystems");
    assert_eq!(nvmet::ports_root(), "/sys/kernel/config/nvmet/ports");
    assert_eq!(nvmet::hosts_root(), "/sys/kernel/config/nvmet/hosts");
}
