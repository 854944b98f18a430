use nsproxy::bytesutil::{parse_u32, u32_decimal};
use nsproxy::errors::Error;
use nsproxy::ns::{classify_entry, kind_name, kind_of_name, mount_single, proc_ns_path,
    rmall_failure_is_fatal, umount_failure_is_fatal, EntryClass, NSGroup, NSKind, NSSlot,
    NSSource, PidPath};
use nsproxy::osops::MountEntry;
use nsproxy::paths::PathState;
use nsproxy::probe::{PassFD, TunLayer, TUNC, DEFAULT_MTU};
use nsproxy::sysutil::{capsys_verdict, ping_range_gid_content, single_map_line, what_uid};
use nsproxy::userns::{child_steps, full_map_line, gid_map_path, uid_map_path, ChildStep,
    ParentStep, UserNS};
use nsproxy::veth::{alloc_v4, alloc_v6, link_name, Ipv4Net, VethConn};

fn mkdir_ok(path: &[u8]) {
    // EEXIST is fine: the fixture may be left over from an earlier run.
    let _ = nix::unistd::mkdir(path, nix::sys::stat::Mode::from_bits_truncate(0o755));
}

fn touch(path: &[u8]) {
    let fd = nix::fcntl::open(
        path,
        nix::fcntl::OFlag::O_CREAT | nix::fcntl::OFlag::O_WRONLY,
        nix::sys::stat::Mode::from_bits_truncate(0o644),
    )
    .unwrap();
    let _ = nix::unistd::close(fd);
}

fn tmp_store(tag: &str) -> PathState {
    let state = format!("/tmp/nsproxy_test_{tag}").into_bytes();
    let root_state = format!("/tmp/nsproxy_test_{tag}_root").into_bytes();
    PathState { state, root_state }
}

// -- decimal rendering and parsing ------------------------------------------

#[test]
fn decimal_round_trip() {
    assert_eq!(u32_decimal(0), b"0".to_vec());
    assert_eq!(u32_decimal(1000), b"1000".to_vec());
    assert_eq!(u32_decimal(4294967295), b"4294967295".to_vec());
    assert_eq!(parse_u32(&b"1000".to_vec()), Some(1000));
    assert_eq!(parse_u32(&b"4294967295".to_vec()), Some(4294967295));
    assert_eq!(parse_u32(&b"4294967296".to_vec()), None);
    assert_eq!(parse_u32(&b"12a".to_vec()), None);
    assert_eq!(parse_u32(&b"".to_vec()), None);
}

// -- the persistence store ---------------------------------------------------

#[test]
fn store_layout() {
    let p = PathState::default(1000).unwrap();
    assert_eq!(p.state, b"/run/user/1000/nsproxy".to_vec());
    assert_eq!(p.binds(false), b"/run/user/1000/nsproxy/binds".to_vec());
    assert_eq!(p.mount(3, false), b"/run/user/1000/nsproxy/binds/3".to_vec());
    assert_eq!(p.user(), b"/run/user/1000/nsproxy/user".to_vec());
    let usern = UserNS(&p);
    let (user, mnt) = usern.paths();
    assert_eq!(user, b"/run/user/1000/nsproxy/user".to_vec());
    assert_eq!(mnt, b"/run/user/1000/nsproxy/private/mnt".to_vec());
}

#[test]
fn show_userns_path() {
    let path = PathState::default(1000).unwrap();
    let usern = UserNS(&path);
    let (user, mnt) = usern.paths();
    println!(
        "{} {}",
        String::from_utf8(user).unwrap(),
        String::from_utf8(mnt).unwrap()
    );
}

// -- namespace kinds and discovery -------------------------------------------

#[test]
fn kind_names_round_trip() {
    let kinds = [
        NSKind::User,
        NSKind::Mnt,
        NSKind::Net,
        NSKind::Pid,
        NSKind::Uts,
        NSKind::Ipc,
        NSKind::Cgroup,
    ];
    for k in kinds {
        assert_eq!(kind_of_name(&kind_name(k)), Some(k));
    }
    assert_eq!(kind_of_name(&b"time".to_vec()), None);
}

#[test]
fn classify_recovers_mounted_kind() {
    let node_dir = b"/run/user/1000/nsproxy/binds/3".to_vec();
    let nsfs = b"nsfs".to_vec();
    for k in [NSKind::User, NSKind::Mnt, NSKind::Net, NSKind::Cgroup] {
        let mut source = node_dir.clone();
        source.push(b'/');
        source.extend_from_slice(&kind_name(k));
        assert_eq!(classify_entry(&source, &nsfs, &node_dir), EntryClass::Kind(k));
    }
    let source = b"/run/user/1000/nsproxy/binds/3/net".to_vec();
    assert_eq!(
        classify_entry(&source, &b"tmpfs".to_vec(), &node_dir),
        EntryClass::Irrelevant
    );
    let elsewhere = b"/run/user/1000/other/net".to_vec();
    assert_eq!(classify_entry(&elsewhere, &nsfs, &node_dir), EntryClass::Irrelevant);
    // An nsfs mount under the node's directory with an unknown kind name
    // or a nested path indicates on-disk corruption: malformed, fatal.
    let unknown = b"/run/user/1000/nsproxy/binds/3/time".to_vec();
    assert_eq!(classify_entry(&unknown, &nsfs, &node_dir), EntryClass::Malformed);
    let nested = b"/run/user/1000/nsproxy/binds/3/sub/net".to_vec();
    assert_eq!(classify_entry(&nested, &nsfs, &node_dir), EntryClass::Malformed);
}

#[test]
fn discovery_assembles_groups_and_rejects_malformed_entries() {
    let node_dir = b"/tmp/nsproxy_test_disc/binds/3".to_vec();
    let entry = |source: &[u8], fstype: &[u8]| MountEntry {
        source: source.to_vec(),
        dest: b"/somewhere".to_vec(),
        fstype: fstype.to_vec(),
    };
    // no matching entry: no group
    let none = vec![entry(b"/dev/sda", b"ext4")];
    assert!(NSGroup::from_entries(&none, &node_dir).unwrap().is_none());
    // a malformed nsfs entry under the node directory is fatal
    let bad = vec![entry(b"/tmp/nsproxy_test_disc/binds/3/sub/net", b"nsfs")];
    match NSGroup::from_entries(&bad, &node_dir) {
        Err(Error::Parse) => (),
        other => panic!("a malformed entry must be fatal, got {other:?}"),
    }
    // a matching entry provides its kind's slot with the entry's source
    mkdir_ok(b"/tmp/nsproxy_test_disc");
    mkdir_ok(b"/tmp/nsproxy_test_disc/binds");
    mkdir_ok(&node_dir);
    touch(b"/tmp/nsproxy_test_disc/binds/3/net");
    let one = vec![entry(b"/tmp/nsproxy_test_disc/binds/3/net", b"nsfs")];
    let g = NSGroup::from_entries(&one, &node_dir).unwrap().unwrap();
    assert!(!g.net.absent());
    assert!(g.user.absent() && g.mnt.absent());
    match &g.net {
        NSSlot::Provided(e) => match &e.source {
            NSSource::Path(p) => assert_eq!(p, &b"/tmp/nsproxy_test_disc/binds/3/net".to_vec()),
            _ => panic!("expected a path source"),
        },
        NSSlot::Absent => panic!("net slot must be provided"),
    }
}

#[test]
fn proc_paths() {
    assert_eq!(
        proc_ns_path(PidPath::Selfproc, NSKind::Net),
        b"/proc/self/ns/net".to_vec()
    );
    assert_eq!(
        proc_ns_path(PidPath::N(42), NSKind::User),
        b"/proc/42/ns/user".to_vec()
    );
}

#[test]
fn identity_without_side_effects() {
    // `really == false`: the identity is computed and nothing is mounted.
    let node_dir = b"/tmp/nsproxy_test_identity".to_vec();
    let e = mount_single(PidPath::Selfproc, &node_dir, false, NSKind::Net).unwrap();
    match e.source {
        NSSource::Path(p) => assert_eq!(p, b"/tmp/nsproxy_test_identity/net".to_vec()),
        _ => panic!("expected a path source"),
    }
    let e2 = mount_single(PidPath::Selfproc, &node_dir, false, NSKind::Net).unwrap();
    assert_eq!(e.unique, e2.unique);
}

#[test]
fn key_ident_is_net_identity() {
    let k = NSGroup::key_ident(PidPath::Selfproc).unwrap();
    match k.source {
        NSSource::Pid(p) => assert_eq!(p, PidPath::Selfproc),
        _ => panic!("expected a pid source"),
    }
    let direct = mount_single(PidPath::Selfproc, &b"/tmp/x".to_vec(), false, NSKind::Net).unwrap();
    assert_eq!(k.unique, direct.unique);
}

#[test]
fn slot_mount_source_absent() {
    let node_dir = b"/tmp/nsproxy_test_slot".to_vec();
    // really == false: a Provided slot is built without mounting anything.
    let slot = NSSlot::mount(PidPath::Selfproc, &node_dir, false, NSKind::Net).unwrap();
    assert!(!slot.absent());
    let replaced = slot.source(NSSource::Pid(PidPath::N(1)));
    match replaced {
        NSSlot::Provided(e) => match e.source {
            NSSource::Pid(p) => assert_eq!(p, PidPath::N(1)),
            _ => panic!("source was not replaced"),
        },
        NSSlot::Absent => panic!("slot lost its namespace"),
    }
    let absent = NSSlot::Absent;
    assert!(absent.absent());
    assert!(matches!(
        absent.source(NSSource::Pid(PidPath::N(1))),
        NSSlot::Absent
    ));
}

#[test]
fn mounted_scan_of_live_table() {
    // No nsfs mount lies under this fresh store, so discovery finds no node.
    let paths = tmp_store("mounted");
    let found = NSGroup::mounted(&paths, 3, false).unwrap();
    assert!(found.is_empty());
}

#[test]
fn object_node_is_free() {
    nsproxy::ObjectNode::this();
}

// -- teardown ----------------------------------------------------------------

#[test]
fn umount_swallows_not_mounted() {
    // A plain placeholder file inside the node's bind directory is not a
    // mount point; unmounting it reports "not mounted", which umount
    // treats as already done.
    let paths = tmp_store("umount");
    mkdir_ok(&paths.state);
    mkdir_ok(&paths.binds(false));
    mkdir_ok(&paths.mount(7, false));
    let mut placeholder = paths.mount(7, false);
    placeholder.extend_from_slice(b"/net");
    touch(&placeholder);
    // On a host that permits umount, the placeholder yields the
    // "not mounted" errno, which umount swallows: the call returns Ok. A
    // sandbox that forbids the umount syscall altogether reports the
    // permission errno instead, which is rightly fatal. Anything else —
    // in particular a propagated "not mounted" errno — is a fault.
    match NSGroup::umount(7, &paths, false) {
        Ok(()) => (),
        Err(Error::Os(1)) => (),
        Err(e) => panic!("umount reported {e:?}"),
    }
}

#[test]
fn umount_missing_dir_is_an_error() {
    let paths = tmp_store("umount_missing");
    match NSGroup::umount(99, &paths, false) {
        Err(Error::Os(e)) => assert_eq!(e, 2),
        other => panic!("expected a missing-directory errno, got {other:?}"),
    }
}

#[test]
fn rmall_skips_non_numeric_names() {
    let paths = tmp_store("rmall");
    mkdir_ok(&paths.state);
    mkdir_ok(&paths.binds(false));
    mkdir_ok(&paths.mount(4, false));
    let mut named = paths.binds(false);
    named.extend_from_slice(b"/current");
    mkdir_ok(&named);
    assert!(NSGroup::rmall(&paths, false).is_ok());
}

#[test]
fn umount_error_classification() {
    assert!(!umount_failure_is_fatal(22));
    assert!(umount_failure_is_fatal(13));
    assert!(!rmall_failure_is_fatal(20));
    assert!(rmall_failure_is_fatal(2));
}

#[test]
fn error_messages() {
    assert_eq!(Error::CapRequired.text(), b"requires CAP_SYS_ADMIN".to_vec());
    assert_eq!(Error::NoUid.text(), b"unable to find a non-root uid".to_vec());
    assert_eq!(Error::Exhausted.text(), b"address domain exhausted".to_vec());
}

// -- the user-namespace bootstrap --------------------------------------------

#[test]
fn userns_deinit() {
    let path = PathState::default(1000).unwrap();
    let usern = UserNS(&path);
    let (user, mnt) = usern.paths();
    println!(
        "{} {}",
        String::from_utf8(user).unwrap(),
        String::from_utf8(mnt).unwrap()
    );
    usern.deinit().unwrap();
}

#[test]
fn deinit_twice_succeeds() {
    let paths = tmp_store("deinit");
    let usern = UserNS(&paths);
    assert!(usern.deinit().is_ok());
    assert!(usern.deinit().is_ok());
}

#[test]
fn exist_is_false_without_mounts() {
    let paths = tmp_store("exist");
    let usern = UserNS(&paths);
    assert_eq!(usern.exist().unwrap(), false);
}

#[test]
fn exist_in_scans_mount_points() {
    let user = b"/tmp/s/user".to_vec();
    let mnt = b"/tmp/s/private/mnt".to_vec();
    let entry = |dest: &[u8]| MountEntry {
        source: b"nsfs".to_vec(),
        dest: dest.to_vec(),
        fstype: b"nsfs".to_vec(),
    };
    let both = vec![entry(b"/tmp/s/user"), entry(b"/tmp/s/private/mnt")];
    assert!(UserNS::exist_in(&both, &user, &mnt));
    let one = vec![entry(b"/tmp/s/user")];
    assert!(!UserNS::exist_in(&one, &user, &mnt));
    let none: Vec<MountEntry> = vec![];
    assert!(!UserNS::exist_in(&none, &user, &mnt));
}

#[test]
fn procns_yields_user_and_mnt_slots() {
    let paths = tmp_store("procns");
    mkdir_ok(&paths.state);
    mkdir_ok(&paths.private(false));
    let usern = UserNS(&paths);
    let (user, mnt) = usern.paths();
    touch(&user);
    touch(&mnt);
    let g = usern.procns().unwrap();
    assert!(!g.user.absent());
    assert!(!g.mnt.absent());
    assert!(g.net.absent());
    assert!(g.pid.absent());
    assert!(g.uts.absent());
    assert!(g.ipc.absent());
    assert!(g.cgroup.absent());
    match &g.user {
        NSSlot::Provided(e) => match &e.source {
            NSSource::Path(p) => assert_eq!(p, &user),
            _ => panic!("user slot lost its anchor path"),
        },
        NSSlot::Absent => panic!("user slot must be provided"),
    }
    let fresh = NSGroup::default();
    assert!(fresh.user.absent() && fresh.mnt.absent() && fresh.net.absent());
    // The anchors exist as plain files, but nothing is mounted on them:
    // the durability invariant does not hold.
    assert_eq!(usern.exist().unwrap(), false);
}

#[test]
fn bootstrap_plans() {
    assert_eq!(full_map_line(), b"0 0 4294967295".to_vec());
    assert_eq!(uid_map_path(42), b"/proc/42/uid_map".to_vec());
    assert_eq!(gid_map_path(42), b"/proc/42/gid_map".to_vec());
    let steps = child_steps(1000);
    assert_eq!(
        steps,
        vec![
            ChildStep::BecomeOwner { uid: 1000 },
            ChildStep::SetDumpable,
            ChildStep::UnshareUserMount,
            ChildStep::SignalReady,
            ChildStep::AwaitRelease,
            ChildStep::ExitZero,
        ]
    );
    let paths = tmp_store("plan");
    let usern = UserNS(&paths);
    let parent = usern.parent_steps(42);
    assert_eq!(parent.len(), 6);
    match &parent[1] {
        ParentStep::WriteFile { path, content } => {
            assert_eq!(path, &b"/proc/42/uid_map".to_vec());
            assert_eq!(content, &b"0 0 4294967295".to_vec());
        }
        _ => panic!("expected the uid map write"),
    }
    match &parent[3] {
        ParentStep::BindMount { src, dst } => {
            assert_eq!(src, &b"/proc/42/ns/user".to_vec());
            assert_eq!(dst, &usern.paths().0);
        }
        _ => panic!("expected the user anchor bind"),
    }
}

// -- subnet allocation and veth naming ----------------------------------------

#[test]
fn alloc_v4_avoids_used_addresses() {
    // 100.67.0.0 == 0x64430000
    let used = vec![0x6443_0000u32, 0x6443_0002u32];
    let n = alloc_v4(&used).unwrap();
    assert_eq!(n.addr, 0x6443_0004);
    assert_eq!(n.prefix, 30);
    for a in n.addr..n.addr + 4 {
        assert!(!used.contains(&a));
    }
}

#[test]
fn alloc_v4_fresh_domain_starts_at_base() {
    let n = alloc_v4(&vec![]).unwrap();
    assert_eq!(n.addr, 0x6443_0000);
}

#[test]
fn alloc_v6_avoids_used_addresses() {
    let base: u128 = 0xfe80_002e_0000_0000_0000_0000_0000_0000;
    let used = vec![base + 1];
    let n = alloc_v6(&used).unwrap();
    assert_eq!(n.addr, base + 4);
    assert_eq!(n.prefix, 126);
    for k in 0..4u128 {
        assert!(!used.contains(&(n.addr + k)));
    }
}

#[test]
fn veth_name_is_deterministic() {
    let n = Ipv4Net { addr: 0x6443_0004, prefix: 30 };
    assert_eq!(link_name(&n), b"nsproxy1".to_vec());
    assert_eq!(link_name(&n), link_name(&n));
    let base = Ipv4Net { addr: 0x6443_0000, prefix: 30 };
    assert_eq!(link_name(&base), b"nsproxy0".to_vec());
}

#[test]
fn veth_plan_wires_both_sides() {
    let vc = VethConn::plan(&vec![], &vec![], None).unwrap();
    assert_eq!(vc.subnet_veth.addr, 0x6443_0000);
    assert_eq!(vc.subnet_veth.prefix, 30);
    assert_eq!(vc.ip_va.addr, vc.subnet_veth.addr);
    assert_eq!(vc.ip_vb.addr, vc.subnet_veth.addr + 1);
    assert_eq!(vc.subnet6_veth.addr, 0xfe80_002e_0000_0000_0000_0000_0000_0000);
    assert_eq!(vc.subnet6_veth.prefix, 126);
    assert_eq!(vc.ip6_va.addr, vc.subnet6_veth.addr);
    assert_eq!(vc.ip6_vb.addr, vc.subnet6_veth.addr + 1);
    assert_eq!(vc.key, b"nsproxy0".to_vec());
    let named = VethConn::plan(&vec![], &vec![], Some(b"mylink".to_vec())).unwrap();
    assert_eq!(named.key, b"mylink".to_vec());
}

// -- uid resolution and small utilities ---------------------------------------

#[test]
fn what_uid_precedence() {
    assert_eq!(what_uid(Some(5), None, None, 0, None, false), Ok(5));
    assert_eq!(
        what_uid(None, Some(b"1000".to_vec()), None, 0, None, false),
        Ok(1000)
    );
    assert_eq!(
        what_uid(None, Some(b"abc".to_vec()), None, 0, None, false),
        Err(Error::Parse)
    );
    assert_eq!(
        what_uid(None, None, Some(b"1001".to_vec()), 0, None, false),
        Ok(1001)
    );
    assert_eq!(what_uid(None, None, None, 1000, None, false), Ok(1000));
    assert_eq!(
        what_uid(None, None, None, 0, Some(b"1002".to_vec()), false),
        Ok(1002)
    );
    // the session hint outranks the real-uid fallback
    assert_eq!(
        what_uid(None, None, None, 1000, Some(b"1002".to_vec()), false),
        Ok(1002)
    );
    assert_eq!(what_uid(None, None, None, 0, None, true), Ok(0));
    assert_eq!(what_uid(None, None, None, 0, None, false), Err(Error::NoUid));
}

#[test]
fn capability_verdict() {
    assert_eq!(capsys_verdict(true), Ok(()));
    assert_eq!(capsys_verdict(false), Err(Error::CapRequired));
}

#[test]
fn map_and_range_lines() {
    assert_eq!(single_map_line(1000), b"1000 1000 1".to_vec());
    assert_eq!(ping_range_gid_content(1000), b"1000 1000".to_vec());
}

#[test]
fn tun() {
    // The hand-off request for a device named "t0" on the link layer, as
    // the creating runner receives it: the plan asks for a persistent
    // device, which the runner applies after creation.
    let req = PassFD {
        creation: TUNC { layer: TunLayer::L2, tun_name: Some(b"t0".to_vec()), mtu: None },
        listener: b"/tmp/nsproxy_test_sock".to_vec(),
    };
    let plan = req.device_plan();
    assert_eq!(plan.tun_name, Some(b"t0".to_vec()));
    assert_eq!(plan.layer, TunLayer::L2);
    assert!(plan.persist);
}

// -- the hand-off plan ---------------------------------------------------------

#[test]
fn tun_plan_for_handoff() {
    let req = PassFD {
        creation: TUNC { layer: TunLayer::L2, tun_name: Some(b"t0".to_vec()), mtu: None },
        listener: b"/tmp/nsproxy_test_sock".to_vec(),
    };
    let plan = req.device_plan();
    assert_eq!(plan.layer, TunLayer::L2);
    assert_eq!(plan.tun_name, Some(b"t0".to_vec()));
    assert_eq!(plan.mtu, DEFAULT_MTU);
    assert!(plan.packet_information);
    assert!(!plan.apply_settings);
    assert!(plan.enabled);
    assert!(plan.nonblocking);
    assert!(plan.persist);
}
