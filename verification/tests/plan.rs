use sandbox::launch::{enter_new_root, id_map_writes};
use sandbox::sandbox::{FileSystemType, Mount};
use sandbox::setup::{
    bind_if_present, bind_mount, bind_mount_flags, create_dev, create_home, create_root,
    create_sys, home_bind, home_bind_source, SetupError,
};
use sandbox::steps::{MountFlags, MountRequest, SetupStep};

fn s(x: &str) -> String {
    x.to_string()
}

fn bind_request(from: &str, to: &str, readonly: bool) -> SetupStep {
    SetupStep::Mount(MountRequest {
        source: Some(s(from)),
        target: s(to),
        fstype: None,
        flags: bind_mount_flags(readonly),
        data: None,
    })
}

fn bind(from: &str, to: &str, readonly: bool) -> SetupStep {
    SetupStep::BindMount { from: s(from), to: s(to), readonly }
}

#[test]
fn bind_flags_read_only_and_writable() {
    let ro = bind_mount_flags(true);
    let rw = bind_mount_flags(false);
    let expected = MountFlags {
        rec: true,
        private: false,
        slave: false,
        silent: false,
        bind: true,
        nosuid: true,
        nodev: true,
        noexec: false,
        rdonly: true,
        mgc_val: false,
    };
    assert_eq!(ro, expected);
    assert_eq!(rw, MountFlags { rdonly: false, ..expected });
}

#[test]
fn bind_onto_existing_target_only_mounts() {
    let steps = bind_mount("/oldroot/usr", "/usr", true, true, true).unwrap();
    assert_eq!(steps, vec![bind_request("/oldroot/usr", "/usr", true)]);
}

#[test]
fn bind_of_file_creates_parent_and_file() {
    let steps = bind_mount("/oldroot/etc/hosts", "/etc/hosts", true, false, false).unwrap();
    assert_eq!(
        steps,
        vec![
            SetupStep::CreateDirAll(s("/etc")),
            SetupStep::CreateFile(s("/etc/hosts")),
            bind_request("/oldroot/etc/hosts", "/etc/hosts", true),
        ]
    );
}

#[test]
fn bind_of_file_into_nested_directory() {
    let steps = bind_mount(
        "/oldroot/etc/resolv.conf",
        "/run/host/monitor/resolv.conf",
        true,
        false,
        false,
    )
    .unwrap();
    assert_eq!(steps[0], SetupStep::CreateDirAll(s("/run/host/monitor")));
}

#[test]
fn bind_of_directory_creates_target_directory() {
    let steps = bind_mount("/oldroot/etc/ssl", "/etc/ssl", false, false, true).unwrap();
    assert_eq!(
        steps,
        vec![SetupStep::CreateDirAll(s("/etc/ssl")), bind_request("/oldroot/etc/ssl", "/etc/ssl", false)]
    );
}

#[test]
fn bind_of_file_onto_root_has_no_parent() {
    assert_eq!(bind_mount("/oldroot/x", "/", false, false, false), Err(SetupError::NoParentDirectory));
    assert_eq!(bind_mount("/oldroot/x", "", false, false, false), Err(SetupError::NoParentDirectory));
    assert_eq!(bind_mount("/oldroot/x", "//./", false, false, false), Err(SetupError::NoParentDirectory));
    assert!(bind_mount("/oldroot/x", "/..", false, false, false).is_ok());
    assert!(bind_mount("/oldroot/x", "file", false, false, false).is_ok());
}

#[test]
fn home_is_taken_from_old_root() {
    assert_eq!(home_bind_source("/home/user"), Ok(s("/oldroot/home/user")));
    assert_eq!(home_bind_source("/home/user/"), Ok(s("/oldroot/home/user")));
    assert_eq!(home_bind_source("/"), Ok(s("/oldroot/")));
}

#[test]
fn home_is_bound_writable_from_old_root() {
    assert_eq!(home_bind("/home/alice", "/home"), Ok(bind("/oldroot/home/alice", "/home", false)));
    assert_eq!(home_bind("home/alice", "/home"), Err(SetupError::RelativeHome));
}

#[test]
fn relative_home_is_refused() {
    assert_eq!(home_bind_source("home/user"), Err(SetupError::RelativeHome));
    assert_eq!(home_bind_source(""), Err(SetupError::RelativeHome));
}

#[test]
fn present_sys_tree_is_bound() {
    assert_eq!(
        bind_if_present("/oldroot/sys/bus", "/sys/bus", true),
        vec![SetupStep::CreateDirAll(s("/sys/bus")), bind("/oldroot/sys/bus", "/sys/bus", false)]
    );
    assert_eq!(bind_if_present("/oldroot/sys/bus", "/sys/bus", false), vec![]);
}

#[test]
fn sys_trees_of_new_root() {
    let steps = create_sys("/");
    let subs = ["sys/block", "sys/bus", "sys/class", "sys/dev", "sys/devices"];
    assert_eq!(steps.len(), 5);
    for (step, sub) in steps.iter().zip(subs.iter()) {
        assert_eq!(
            *step,
            SetupStep::BindIfPresent { from: format!("/oldroot/{}", sub), to: format!("/{}", sub) }
        );
    }
}

#[test]
fn dev_is_built_at_absolute_dev() {
    let steps = create_dev("/tmp/newroot");
    assert_eq!(steps.len(), 33);
    assert_eq!(steps[0], SetupStep::CreateDirAll(s("/dev")));
    assert_eq!(
        steps[1],
        SetupStep::Mount(MountRequest {
            source: Some(s("tmpfs")),
            target: s("/dev"),
            fstype: Some(s("tmpfs")),
            flags: MountFlags::none(),
            data: Some(s("mode=755")),
        })
    );
    assert_eq!(steps[2], SetupStep::CreateFile(s("/dev/null")));
    assert_eq!(steps[3], SetupStep::SetMode { path: s("/dev/null"), mode: 0o444 });
    assert_eq!(steps[4], bind("/oldroot/dev/null", "/dev/null", false));
    assert_eq!(steps[19], bind("/oldroot/dev/tty", "/dev/tty", false));
    assert_eq!(
        steps[20],
        SetupStep::Symlink { original: s("/proc/self/fd/0"), link: s("/dev/stdin") }
    );
    let devpts = &steps[29];
    match devpts {
        SetupStep::Mount(m) => {
            assert_eq!(m.target, "/dev/pts");
            assert_eq!(m.data, Some(s("newinstance,ptmxmode=0666,mode=620")));
            assert!(m.flags.nosuid && m.flags.noexec && !m.flags.nodev);
        }
        _ => panic!("expected the devpts mount"),
    }
    assert_eq!(steps[32], SetupStep::Symlink { original: s("/dev/pts/ptmx"), link: s("/dev/ptmx") });
}

#[test]
fn root_plan_of_slash() {
    let steps = create_root("/", "/home/user");
    assert_eq!(steps.len(), 83);
    assert_eq!(steps[1], SetupStep::CreateDirAll(s("/usr")));
    assert_eq!(steps[6], SetupStep::CreateDirAll(s("/proc")));
    assert_eq!(
        steps[13],
        SetupStep::WriteFile {
            path: s("/etc/passwd"),
            contents: s("root:x:0:0:root:/root:/bin/sh\nuser:x:1000:1000:user:/home/user:/bin/sh\n"),
        }
    );
    assert_eq!(steps[47], bind("/oldroot/srv", "/srv", true));
    assert_eq!(steps[51], bind("/oldroot/run/user/1000/wayland-1", "/run/user/1000/wayland-1", false));
    assert_eq!(steps[59], bind("/oldroot/etc/machine-id", "/etc/machine-id", true));
    assert_eq!(steps[60], bind("/oldroot/etc/resolv.conf", "/run/host/monitor/resolv.conf", true));
    assert_eq!(steps[69], SetupStep::BindHome { home: s("/home/user"), to: s("/home") });
    assert_eq!(steps[75], SetupStep::Symlink { original: s("/usr/bin"), link: s("/bin") });
    assert_eq!(steps[80], SetupStep::CreateDirAll(s("/var/tmp")));
    assert_eq!(steps[82], bind("/oldroot/tmp/.X11-unix", "/tmp/.X11-unix", false));
}

#[test]
fn root_plan_keeps_proc_absolute() {
    let steps = create_root("/tmp/newroot", "/home/user");
    assert_eq!(steps[1], SetupStep::CreateDirAll(s("/tmp/newroot/usr")));
    assert_eq!(steps[6], SetupStep::CreateDirAll(s("/proc")));
    assert_eq!(steps[14], SetupStep::CreateDirAll(s("/dev")));
}

#[test]
fn binds_asked_read_only_are_system_trees_and_etc_files() {
    let steps = create_root("/", "/home/user");
    let mut read_only = vec![];
    let mut writable = vec![];
    for step in &steps[47..69] {
        match step {
            SetupStep::BindMount { to, readonly: true, .. } => read_only.push(to.clone()),
            SetupStep::BindMount { to, readonly: false, .. } => writable.push(to.clone()),
            _ => panic!("expected a bind"),
        }
    }
    assert_eq!(
        read_only,
        vec![
            "/srv", "/opt", "/usr", "/tmp/.X11-unix", "/etc/machine-id",
            "/run/host/monitor/resolv.conf", "/etc/resolv.conf", "/etc/hosts", "/etc/pulse",
            "/etc/host.conf", "/etc/nsswitch.conf", "/etc/fonts",
        ]
    );
    assert_eq!(
        writable,
        vec![
            "/run/user/1000/wayland-1", "/run/user/1000/pulse", "/run/user/1000/speech-dispatcher",
            "/run/user/1000/keyring", "/run/user/1000/pipewire-0", "/run/user/1000/bus",
            "/run/dbus/system_bus_socket", "/run/user/1000/doc", "/etc/ca-certificates", "/etc/ssl",
        ]
    );
}

fn mount_targets_created_first(steps: &[SetupStep]) -> bool {
    steps.iter().enumerate().all(|(i, step)| match step {
        SetupStep::Mount(m) if m.fstype.is_some() => {
            steps[..i].contains(&SetupStep::CreateDirAll(m.target.clone()))
        }
        _ => true,
    })
}

#[test]
fn filesystems_mount_onto_created_directories() {
    assert!(mount_targets_created_first(&create_root("/", "/home/user")));
    assert!(mount_targets_created_first(&create_root("/srv/box", "/home/user")));
    assert!(mount_targets_created_first(&enter_new_root("/home/user")));
}

#[test]
fn host_paths_come_from_old_root() {
    for step in create_root("/", "/home/user") {
        match step {
            SetupStep::BindMount { from, .. } | SetupStep::BindIfPresent { from, .. } => {
                assert!(from.starts_with("/oldroot/"), "{}", from)
            }
            _ => {}
        }
    }
}

#[test]
fn new_root_sequence() {
    let steps = enter_new_root("/home/user");
    assert_eq!(steps.len(), 93);
    assert_eq!(steps[1], SetupStep::CreateDirAll(s("/tmp/newroot")));
    assert_eq!(
        steps[5],
        SetupStep::PivotRoot { new_root: s("/tmp/newroot"), put_old: s("/tmp/newroot/oldroot") }
    );
    assert_eq!(steps[6], SetupStep::Chdir(s("/")));
    assert_eq!(steps[7..90].to_vec(), create_root("/", "/home/user"));
    assert_eq!(steps[91], SetupStep::UnmountDetached(s("/oldroot")));
    assert_eq!(steps[92], SetupStep::RemoveDirAll(s("/oldroot")));
}

#[test]
fn identity_maps_deny_setgroups_first() {
    let steps = id_map_writes(4242, 1001, 100);
    assert_eq!(
        steps,
        vec![
            SetupStep::WriteFile { path: s("/proc/4242/setgroups"), contents: s("deny") },
            SetupStep::WriteFile { path: s("/proc/4242/uid_map"), contents: s("1000 1001 1\n") },
            SetupStep::WriteFile { path: s("/proc/4242/gid_map"), contents: s("1000 100 1\n") },
        ]
    );
}

#[test]
fn identity_maps_of_root_and_largest_ids() {
    let steps = id_map_writes(1, 0, u32::MAX);
    assert_eq!(steps[1], SetupStep::WriteFile { path: s("/proc/1/uid_map"), contents: s("1000 0 1\n") });
    assert_eq!(
        steps[2],
        SetupStep::WriteFile { path: s("/proc/1/gid_map"), contents: s("1000 4294967295 1\n") }
    );
}

#[test]
fn mount_and_home_construct() {
    let _m = Mount::new(s("/oldroot/usr"), s("/usr"), true);
    create_home("/home/user", FileSystemType::RawFolder);
    create_home("/home/user", FileSystemType::GoCryptFS);
}
