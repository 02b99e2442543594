use vstd::prelude::*;
use std::path::Path;
use crate::paths::{is_absolute, join_path, joined};
use crate::sandbox::FileSystemType;
use crate::steps::{
    MountFlags, MountRequest, MountSpec, SetupStep, StepSpec, append_steps, no_flags, opt_view,
    push_step, steps_view,
};

verus! {

/// What `Path::parent` gives for a path. Its text follows std's
/// normalisation of path components, so it is named here, not spelled out.
pub uninterp spec fn path_parent(p: Seq<char>) -> Option<Seq<char>>;

/// What `Path::strip_prefix("/")` leaves of an absolute path. Its text
/// follows std's normalisation of path components, so it is named here.
pub uninterp spec fn root_stripped(p: Seq<char>) -> Seq<char>;

/// Whether the components of `p` are the root alone: `p` begins with `/`,
/// and after it holds only separators and `.` components, which std's
/// component iteration skips.
pub open spec fn root_only(p: Seq<char>) -> bool {
    &&& p.len() > 0
    &&& p[0] == '/'
    &&& forall|i: int|
        1 <= i < p.len() ==> (#[trigger] p[i] == '/' || (p[i] == '.' && p[i - 1] == '/' && (i + 1
            == p.len() || p[i + 1] == '/')))
}

/// `Path::parent` on `p`: the path without its last component, named
/// `path_parent(p)`. As std documents it, there is none exactly when the
/// path is empty or ends in the root, that is when its only component is
/// the root.
#[verifier::external_body]
fn parent_dir(p: &str) -> (r: Option<String>)
    ensures
        opt_view(r) == path_parent(p@),
        r is None <==> (p@.len() == 0 || root_only(p@)),
{
    match Path::new(p).parent() {
        Some(q) => Some(q.to_string_lossy().into_owned()),
        None => None,
    }
}

/// `Path::strip_prefix` with the base `/`: it succeeds exactly on a path
/// whose first component is the root, that is one that begins with `/`, and
/// leaves the named `root_stripped(p)`: the components after the root, a
/// relative path (it has no root component, so it does not begin with `/`).
#[verifier::external_body]
fn strip_root(p: &str) -> (r: Option<String>)
    ensures
        r is Some <==> is_absolute(p@),
        r matches Some(s) ==> s@ == root_stripped(p@) && !is_absolute(s@),
{
    match Path::new(p).strip_prefix("/") {
        Ok(q) => Some(q.to_string_lossy().into_owned()),
        Err(_) => None,
    }
}

/// Whether `p` lies under the host's old root, `/oldroot/`.
pub open spec fn under_old_root(p: Seq<char>) -> bool {
    "/oldroot/"@.is_prefix_of(p)
}

/// Why a step of the setup cannot go on (the sandbox aborts there).
#[derive(Clone, Copy, PartialEq, Eq, Structural, Debug)]
pub enum SetupError {
    /// A file must be created at a bind target that has no parent directory.
    NoParentDirectory,
    /// The home directory to expose is not an absolute path.
    RelativeHome,
}

/// The flags of every bind mount: bind, recursive, no set-uid, no devices,
/// and the read-only flag exactly when asked. The bind is made by one mount
/// call with no remount, so the kernel, which applies these flags only on a
/// remount, leaves the bind writable even where the read-only flag is raised.
pub open spec fn bind_flags(readonly: bool) -> MountFlags {
    MountFlags { bind: true, rec: true, nosuid: true, nodev: true, rdonly: readonly, ..no_flags() }
}

pub open spec fn bind_request(from: Seq<char>, to: Seq<char>, readonly: bool) -> MountSpec {
    MountSpec {
        source: Some(from),
        target: to,
        fstype: None,
        flags: bind_flags(readonly),
        data: None,
    }
}

/// The steps of one bind mount, given whether its target exists, whether its
/// source is a directory, and the parent of its target: a missing target is
/// created first, as an empty file (inside its parent directory) when the
/// source is not a directory, else as a directory.
pub open spec fn bind_steps(
    from: Seq<char>,
    to: Seq<char>,
    readonly: bool,
    to_exists: bool,
    from_is_dir: bool,
    parent: Seq<char>,
) -> Seq<StepSpec> {
    let mount = StepSpec::Mount(bind_request(from, to, readonly));
    if to_exists {
        seq![mount]
    } else if !from_is_dir {
        seq![StepSpec::CreateDirAll(parent), StepSpec::CreateFile(to), mount]
    } else {
        seq![StepSpec::CreateDirAll(to), mount]
    }
}

/// The flags of a bind mount.
pub fn bind_mount_flags(readonly: bool) -> (r: MountFlags)
    ensures
        r == bind_flags(readonly),
{
    let mut f = MountFlags::none();
    f.bind = true;
    f.rec = true;
    f.nosuid = true;
    f.nodev = true;
    f.rdonly = readonly;
    f
}

fn bind_mount_request(from: &str, to: &str, readonly: bool) -> (r: MountRequest)
    ensures
        r@ == bind_request(from@, to@, readonly),
{
    MountRequest {
        source: Some(String::from_str(from)),
        target: String::from_str(to),
        fstype: None,
        flags: bind_mount_flags(readonly),
        data: None,
    }
}

/// Expands a bind mount of `from` onto `to`, given whether `to` exists and
/// whether `from` is a directory. It fails only where a file has to be made
/// at `to` and `to` has no parent directory.
pub fn bind_mount(from: &str, to: &str, readonly: bool, to_exists: bool, from_is_dir: bool) -> (r:
    Result<Vec<SetupStep>, SetupError>)
    ensures
        r is Err <==> (!to_exists && !from_is_dir && (to@.len() == 0 || root_only(to@))),
        r matches Err(e) ==> e == SetupError::NoParentDirectory,
        r matches Ok(v) ==> steps_view(v@) == bind_steps(
            from@,
            to@,
            readonly,
            to_exists,
            from_is_dir,
            path_parent(to@)->0,
        ),
{
    let mut steps: Vec<SetupStep> = Vec::new();
    if !to_exists {
        if !from_is_dir {
            match parent_dir(to) {
                Some(parent) => {
                    push_step(&mut steps, SetupStep::CreateDirAll(parent));
                    push_step(&mut steps, SetupStep::CreateFile(String::from_str(to)));
                },
                None => {
                    return Err(SetupError::NoParentDirectory);
                },
            }
        } else {
            push_step(&mut steps, SetupStep::CreateDirAll(String::from_str(to)));
        }
    }
    push_step(&mut steps, SetupStep::Mount(bind_mount_request(from, to, readonly)));
    assert(steps_view(steps@) =~= bind_steps(
        from@,
        to@,
        readonly,
        to_exists,
        from_is_dir,
        path_parent(to@)->0,
    ));
    Ok(steps)
}

/// Where the host's copy of a home directory is seen from inside the new
/// root: the path with its root stripped, under `/oldroot`.
pub fn home_bind_source(home: &str) -> (r: Result<String, SetupError>)
    ensures
        r is Err <==> !is_absolute(home@),
        r matches Err(e) ==> e == SetupError::RelativeHome,
        r matches Ok(s) ==> s@ == joined("/oldroot"@, root_stripped(home@)),
        r matches Ok(s) ==> under_old_root(s@),
{
    match strip_root(home) {
        Some(rest) => {
            let r = join_path("/oldroot", rest.as_str());
            proof {
                reveal_strlit("/oldroot");
                reveal_strlit("/oldroot/");
                assert(r@.subrange(0, 9) =~= "/oldroot/"@);
            }
            Ok(r)
        },
        None => Err(SetupError::RelativeHome),
    }
}

/// Expands the bind of the host's home directory `home` onto `to`: the host
/// copy, seen under `/oldroot`, bound writable. It fails where `home` is not
/// an absolute path.
pub fn home_bind(home: &str, to: &str) -> (r: Result<SetupStep, SetupError>)
    ensures
        r is Err <==> !is_absolute(home@),
        r matches Err(e) ==> e == SetupError::RelativeHome,
        r matches Ok(step) ==> step@ == (StepSpec::BindMount {
            from: joined("/oldroot"@, root_stripped(home@)),
            to: to@,
            readonly: false,
        }),
        r matches Ok(step) ==> (step matches SetupStep::BindMount { from, .. } && under_old_root(
            from@,
        )),
{
    match home_bind_source(home) {
        Ok(from) => Ok(SetupStep::BindMount { from, to: String::from_str(to), readonly: false }),
        Err(e) => Err(e),
    }
}

/// The steps of a bind that happens only where its source is present: the
/// target directory is made and the source bound onto it, writable.
pub open spec fn present_bind_steps(from: Seq<char>, to: Seq<char>, present: bool) -> Seq<
    StepSpec,
> {
    if present {
        seq![
            StepSpec::CreateDirAll(to),
            StepSpec::BindMount { from: from, to: to, readonly: false },
        ]
    } else {
        seq![]
    }
}

/// Expands a bind that is skipped where the host lacks its source.
pub fn bind_if_present(from: &str, to: &str, present: bool) -> (r: Vec<SetupStep>)
    ensures
        steps_view(r@) == present_bind_steps(from@, to@, present),
{
    let mut steps: Vec<SetupStep> = Vec::new();
    if present {
        push_step(&mut steps, SetupStep::CreateDirAll(String::from_str(to)));
        push_step(
            &mut steps,
            SetupStep::BindMount {
                from: String::from_str(from),
                to: String::from_str(to),
                readonly: false,
            },
        );
    }
    assert(steps_view(steps@) =~= present_bind_steps(from@, to@, present));
    steps
}

} // verus!

verus! {

/// A `tmpfs` mounted at `target` with the mount data `data`.
pub open spec fn tmpfs_request(target: Seq<char>, data: Seq<char>) -> MountSpec {
    MountSpec {
        source: Some("tmpfs"@),
        target: target,
        fstype: Some("tmpfs"@),
        flags: no_flags(),
        data: Some(data),
    }
}

fn tmpfs_mount(target: &str, data: &str) -> (r: SetupStep)
    ensures
        r@ == StepSpec::Mount(tmpfs_request(target@, data@)),
{
    SetupStep::Mount(
        MountRequest {
            source: Some(String::from_str("tmpfs")),
            target: String::from_str(target),
            fstype: Some(String::from_str("tmpfs")),
            flags: MountFlags::none(),
            data: Some(String::from_str(data)),
        },
    )
}

fn symlink_step(original: &str, link: &str) -> (r: SetupStep)
    ensures
        r@ == (StepSpec::Symlink { original: original@, link: link@ }),
{
    SetupStep::Symlink { original: String::from_str(original), link: String::from_str(link) }
}

fn bind_step(from: &str, to: &str, readonly: bool) -> (r: SetupStep)
    ensures
        r@ == (StepSpec::BindMount { from: from@, to: to@, readonly: readonly }),
{
    SetupStep::BindMount { from: String::from_str(from), to: String::from_str(to), readonly }
}

/// The host's `/sys` subtrees that the sandbox exposes, where the host has them.
pub open spec fn sys_bind(path: Seq<char>, sub: Seq<char>) -> StepSpec {
    StepSpec::BindIfPresent { from: joined("/oldroot/"@, sub), to: joined(path, sub) }
}

pub open spec fn sys_steps(path: Seq<char>) -> Seq<StepSpec> {
    seq![
        sys_bind(path, "sys/block"@),
        sys_bind(path, "sys/bus"@),
        sys_bind(path, "sys/class"@),
        sys_bind(path, "sys/dev"@),
        sys_bind(path, "sys/devices"@),
    ]
}

fn sys_bind_step(path: &str, sub: &str) -> (r: SetupStep)
    ensures
        r@ == sys_bind(path@, sub@),
{
    SetupStep::BindIfPresent { from: join_path("/oldroot/", sub), to: join_path(path, sub) }
}

/// The steps that expose the host's device, bus and class trees of `/sys`
/// under the new root `path`, each only where the host has it.
pub fn create_sys(path: &str) -> (r: Vec<SetupStep>)
    ensures
        steps_view(r@) == sys_steps(path@),
{
    let mut steps: Vec<SetupStep> = Vec::new();
    push_step(&mut steps, sys_bind_step(path, "sys/block"));
    push_step(&mut steps, sys_bind_step(path, "sys/bus"));
    push_step(&mut steps, sys_bind_step(path, "sys/class"));
    push_step(&mut steps, sys_bind_step(path, "sys/dev"));
    push_step(&mut steps, sys_bind_step(path, "sys/devices"));
    assert(steps_view(steps@) =~= sys_steps(path@));
    steps
}

/// One device node of `/dev`: an empty file, readable by all, onto which the
/// host's node of the same name is bound.
pub open spec fn dev_node_steps(dev: Seq<char>, name: Seq<char>) -> Seq<StepSpec> {
    let target = joined(dev, name);
    seq![
        StepSpec::CreateFile(target),
        StepSpec::SetMode { path: target, mode: 0o444 },
        StepSpec::BindMount { from: "/oldroot/dev/"@ + name, to: target, readonly: false },
    ]
}

fn dev_node(dev: &str, name: &str) -> (r: Vec<SetupStep>)
    ensures
        steps_view(r@) == dev_node_steps(dev@, name@),
{
    let target = join_path(dev, name);
    let source = String::from_str("/oldroot/dev/").concat(name);
    let mut steps: Vec<SetupStep> = Vec::new();
    push_step(&mut steps, SetupStep::CreateFile(target.clone()));
    push_step(&mut steps, SetupStep::SetMode { path: target.clone(), mode: 0o444 });
    push_step(&mut steps, SetupStep::BindMount { from: source, to: target, readonly: false });
    assert(steps_view(steps@) =~= dev_node_steps(dev@, name@));
    steps
}

/// The `devpts` instance of the sandbox, with its own pseudo-terminals.
pub open spec fn devpts_request(target: Seq<char>) -> MountSpec {
    MountSpec {
        source: Some("devpts"@),
        target: target,
        fstype: Some("devpts"@),
        flags: MountFlags { nosuid: true, noexec: true, ..no_flags() },
        data: Some("newinstance,ptmxmode=0666,mode=620"@),
    }
}

/// The steps that build `/dev` in the sandbox.
pub open spec fn dev_steps(path: Seq<char>) -> Seq<StepSpec> {
    let dev = joined(path, "/dev"@);
    seq![StepSpec::CreateDirAll(dev), StepSpec::Mount(tmpfs_request(dev, "mode=755"@))]
        + dev_node_steps(dev, "null"@) + dev_node_steps(dev, "zero"@) + dev_node_steps(
        dev,
        "full"@,
    ) + dev_node_steps(dev, "random"@) + dev_node_steps(dev, "urandom"@) + dev_node_steps(
        dev,
        "tty"@,
    ) + seq![
        StepSpec::Symlink { original: "/proc/self/fd/0"@, link: "/dev/stdin"@ },
        StepSpec::Symlink { original: "/proc/self/fd/1"@, link: "/dev/stdout"@ },
        StepSpec::Symlink { original: "/proc/self/fd/2"@, link: "/dev/stderr"@ },
        StepSpec::Symlink { original: "/proc/self/fd"@, link: "/dev/fd"@ },
        StepSpec::Symlink { original: "/proc/kcore"@, link: "/dev/core"@ },
    ] + seq![
        StepSpec::CreateDirAll(joined(dev, "shm"@)),
        StepSpec::SetMode { path: joined(dev, "shm"@), mode: 0o755 },
        StepSpec::CreateDirAll(joined(dev, "pts"@)),
        StepSpec::SetMode { path: joined(dev, "pts"@), mode: 0o755 },
        StepSpec::Mount(devpts_request(joined(dev, "pts"@))),
        StepSpec::CreateDirAll(joined(dev, "dri"@)),
        StepSpec::BindMount { from: "/oldroot/dev/dri"@, to: joined(dev, "dri"@), readonly: false },
        StepSpec::Symlink { original: "/dev/pts/ptmx"@, link: "/dev/ptmx"@ },
    ]
}

/// The steps that build the sandbox's `/dev` under the new root `path`.
pub fn create_dev(path: &str) -> (r: Vec<SetupStep>)
    ensures
        steps_view(r@) == dev_steps(path@),
{
    let dev = join_path(path, "/dev");
    let ghost d = dev@;
    let mut steps: Vec<SetupStep> = Vec::new();
    push_step(&mut steps, SetupStep::CreateDirAll(dev.clone()));
    push_step(&mut steps, tmpfs_mount(dev.as_str(), "mode=755"));
    assert(steps_view(steps@) =~= seq![
        StepSpec::CreateDirAll(d),
        StepSpec::Mount(tmpfs_request(d, "mode=755"@)),
    ]);
    append_steps(&mut steps, dev_node(dev.as_str(), "null"));
    append_steps(&mut steps, dev_node(dev.as_str(), "zero"));
    append_steps(&mut steps, dev_node(dev.as_str(), "full"));
    append_steps(&mut steps, dev_node(dev.as_str(), "random"));
    append_steps(&mut steps, dev_node(dev.as_str(), "urandom"));
    append_steps(&mut steps, dev_node(dev.as_str(), "tty"));

    let mut links: Vec<SetupStep> = Vec::new();
    push_step(&mut links, symlink_step("/proc/self/fd/0", "/dev/stdin"));
    push_step(&mut links, symlink_step("/proc/self/fd/1", "/dev/stdout"));
    push_step(&mut links, symlink_step("/proc/self/fd/2", "/dev/stderr"));
    push_step(&mut links, symlink_step("/proc/self/fd", "/dev/fd"));
    push_step(&mut links, symlink_step("/proc/kcore", "/dev/core"));
    assert(steps_view(links@) =~= seq![
        StepSpec::Symlink { original: "/proc/self/fd/0"@, link: "/dev/stdin"@ },
        StepSpec::Symlink { original: "/proc/self/fd/1"@, link: "/dev/stdout"@ },
        StepSpec::Symlink { original: "/proc/self/fd/2"@, link: "/dev/stderr"@ },
        StepSpec::Symlink { original: "/proc/self/fd"@, link: "/dev/fd"@ },
        StepSpec::Symlink { original: "/proc/kcore"@, link: "/dev/core"@ },
    ]);
    append_steps(&mut steps, links);

    let shm = join_path(dev.as_str(), "shm");
    let pts = join_path(dev.as_str(), "pts");
    let dri = join_path(dev.as_str(), "dri");
    let mut devpts_flags = MountFlags::none();
    devpts_flags.nosuid = true;
    devpts_flags.noexec = true;
    let mut rest: Vec<SetupStep> = Vec::new();
    push_step(&mut rest, SetupStep::CreateDirAll(shm.clone()));
    push_step(&mut rest, SetupStep::SetMode { path: shm, mode: 0o755 });
    push_step(&mut rest, SetupStep::CreateDirAll(pts.clone()));
    push_step(&mut rest, SetupStep::SetMode { path: pts.clone(), mode: 0o755 });
    push_step(
        &mut rest,
        SetupStep::Mount(
            MountRequest {
                source: Some(String::from_str("devpts")),
                target: pts,
                fstype: Some(String::from_str("devpts")),
                flags: devpts_flags,
                data: Some(String::from_str("newinstance,ptmxmode=0666,mode=620")),
            },
        ),
    );
    push_step(&mut rest, SetupStep::CreateDirAll(dri.clone()));
    push_step(&mut rest, bind_step("/oldroot/dev/dri", dri.as_str(), false));
    push_step(&mut rest, symlink_step("/dev/pts/ptmx", "/dev/ptmx"));
    assert(steps_view(rest@) =~= seq![
        StepSpec::CreateDirAll(joined(d, "shm"@)),
        StepSpec::SetMode { path: joined(d, "shm"@), mode: 0o755 },
        StepSpec::CreateDirAll(joined(d, "pts"@)),
        StepSpec::SetMode { path: joined(d, "pts"@), mode: 0o755 },
        StepSpec::Mount(devpts_request(joined(d, "pts"@))),
        StepSpec::CreateDirAll(joined(d, "dri"@)),
        StepSpec::BindMount { from: "/oldroot/dev/dri"@, to: joined(d, "dri"@), readonly: false },
        StepSpec::Symlink { original: "/dev/pts/ptmx"@, link: "/dev/ptmx"@ },
    ]);
    append_steps(&mut steps, rest);
    steps
}

} // verus!

verus! {

/// The account file of the sandbox: `root` and one user, uid and gid 1000.
pub open spec fn passwd_contents() -> Seq<char> {
    "root:x:0:0:root:/root:/bin/sh\nuser:x:1000:1000:user:/home/user:/bin/sh\n"@
}

/// The mount that keeps mount events of the sandbox from reaching the host.
pub open spec fn private_root_request() -> MountSpec {
    MountSpec {
        source: None,
        target: "/"@,
        fstype: None,
        flags: MountFlags { rec: true, private: true, ..no_flags() },
        data: None,
    }
}

/// The sandbox's own `/proc`.
pub open spec fn proc_request(target: Seq<char>) -> MountSpec {
    MountSpec {
        source: Some("proc"@),
        target: target,
        fstype: Some("proc"@),
        flags: MountFlags { nosuid: true, noexec: true, nodev: true, ..no_flags() },
        data: None,
    }
}

/// The first steps under the new root `path`: the top directories, `/proc`
/// and the account file.
pub open spec fn root_base_steps(path: Seq<char>) -> Seq<StepSpec> {
    let dev = joined(path, "dev"@);
    let proc = joined(path, "/proc"@);
    seq![
        StepSpec::Mount(private_root_request()),
        StepSpec::CreateDirAll(joined(path, "usr"@)),
        StepSpec::CreateDirAll(dev),
        StepSpec::SetMode { path: dev, mode: 0o755 },
        StepSpec::CreateDirAll(joined(path, "etc"@)),
        StepSpec::CreateDirAll(joined(path, "home"@)),
        StepSpec::CreateDirAll(proc),
        StepSpec::SetMode { path: proc, mode: 0o755 },
        StepSpec::Mount(proc_request(proc)),
        StepSpec::CreateDirAll(joined(path, "run"@)),
        StepSpec::CreateDirAll(joined(path, "opt"@)),
        StepSpec::CreateDirAll(joined(path, "tmp"@)),
        StepSpec::CreateDirAll(joined(path, "var"@)),
        StepSpec::WriteFile {
            path: joined(joined(path, "etc"@), "passwd"@),
            contents: passwd_contents(),
        },
    ]
}

pub open spec fn bind_of(from: Seq<char>, to: Seq<char>, readonly: bool) -> StepSpec {
    StepSpec::BindMount { from: from, to: to, readonly: readonly }
}

/// The host paths that the sandbox sees: system trees and most files of
/// `/etc` asked for read-only, the user's session sockets and the
/// certificate stores asked for writable, and the home directory.
pub open spec fn root_bind_steps(path: Seq<char>, home: Seq<char>) -> Seq<StepSpec> {
    let etc = joined(path, "etc"@);
    let run = joined(path, "run"@);
    let tmp = joined(path, "tmp"@);
    let user = joined(path, "run/user/1000/"@);
    seq![
        bind_of("/oldroot/srv"@, joined(path, "srv"@), true),
        bind_of("/oldroot/opt"@, joined(path, "opt"@), true),
        bind_of("/oldroot/usr"@, joined(path, "usr"@), true),
        bind_of("/oldroot/tmp/.X11-unix"@, joined(tmp, ".X11-unix"@), true),
        bind_of("/oldroot/run/user/1000/wayland-1"@, joined(user, "wayland-1"@), false),
        bind_of("/oldroot/run/user/1000/pulse"@, joined(user, "pulse"@), false),
        bind_of(
            "/oldroot/run/user/1000/speech-dispatcher"@,
            joined(user, "speech-dispatcher"@),
            false,
        ),
        bind_of("/oldroot/run/user/1000/keyring"@, joined(user, "keyring"@), false),
        bind_of("/oldroot/run/user/1000/pipewire-0"@, joined(user, "pipewire-0"@), false),
        bind_of("/oldroot/run/user/1000/bus"@, joined(user, "bus"@), false),
        bind_of(
            "/oldroot/run/dbus/system_bus_socket"@,
            joined(run, "dbus/system_bus_socket"@),
            false,
        ),
        bind_of("/oldroot/run/user/1000/doc"@, joined(user, "doc"@), false),
        bind_of("/oldroot/etc/machine-id"@, joined(etc, "machine-id"@), true),
        bind_of("/oldroot/etc/resolv.conf"@, joined(run, "host/monitor/resolv.conf"@), true),
        bind_of("/oldroot/etc/resolv.conf"@, joined(etc, "resolv.conf"@), true),
        bind_of("/oldroot/etc/hosts"@, joined(etc, "hosts"@), true),
        bind_of("/oldroot/etc/pulse"@, joined(etc, "pulse"@), true),
        bind_of("/oldroot/etc/ca-certificates"@, joined(etc, "ca-certificates"@), false),
        bind_of("/oldroot/etc/ssl"@, joined(etc, "ssl"@), false),
        bind_of("/oldroot/etc/host.conf"@, joined(etc, "host.conf"@), true),
        bind_of("/oldroot/etc/nsswitch.conf"@, joined(etc, "nsswitch.conf"@), true),
        bind_of("/oldroot/etc/fonts"@, joined(etc, "fonts"@), true),
        StepSpec::BindHome { home: home, to: joined(path, "home"@) },
    ]
}

/// The last steps: the usual links into `/usr`, fresh `tmpfs` for `/tmp` and
/// `/var/tmp`, and the X11 socket directory bound writable over the new `/tmp`.
pub open spec fn root_final_steps(path: Seq<char>) -> Seq<StepSpec> {
    let tmp = joined(path, "tmp"@);
    let var_tmp = joined(joined(path, "var"@), "tmp"@);
    seq![
        StepSpec::Symlink { original: "/usr/bin"@, link: joined(path, "bin"@) },
        StepSpec::Symlink { original: "/usr/bin"@, link: joined(path, "sbin"@) },
        StepSpec::Symlink { original: "/usr/lib"@, link: joined(path, "lib"@) },
        StepSpec::Symlink { original: "/usr/lib"@, link: joined(path, "lib64"@) },
        StepSpec::Mount(tmpfs_request(tmp, "mode=0755"@)),
        StepSpec::CreateDirAll(var_tmp),
        StepSpec::Mount(tmpfs_request(var_tmp, "mode=0755"@)),
        bind_of("/oldroot/tmp/.X11-unix"@, joined(tmp, ".X11-unix"@), false),
    ]
}

/// Every step that builds the root of the sandbox at `path`, exposing the
/// host directory `home` as its `/home`.
pub open spec fn root_steps(path: Seq<char>, home: Seq<char>) -> Seq<StepSpec> {
    root_base_steps(path) + dev_steps(path) + root_bind_steps(path, home) + sys_steps(path)
        + root_final_steps(path)
}

fn root_base(path: &str) -> (r: Vec<SetupStep>)
    ensures
        steps_view(r@) == root_base_steps(path@),
{
    let usr = join_path(path, "usr");
    let dev = join_path(path, "dev");
    let etc = join_path(path, "etc");
    let home = join_path(path, "home");
    let proc = join_path(path, "/proc");
    let opt = join_path(path, "opt");
    let run = join_path(path, "run");
    let tmp = join_path(path, "tmp");
    let var = join_path(path, "var");
    let passwd = join_path(etc.as_str(), "passwd");
    let mut private_flags = MountFlags::none();
    private_flags.rec = true;
    private_flags.private = true;
    let mut proc_flags = MountFlags::none();
    proc_flags.nosuid = true;
    proc_flags.noexec = true;
    proc_flags.nodev = true;
    let mut steps: Vec<SetupStep> = Vec::new();
    push_step(
        &mut steps,
        SetupStep::Mount(
            MountRequest {
                source: None,
                target: String::from_str("/"),
                fstype: None,
                flags: private_flags,
                data: None,
            },
        ),
    );
    push_step(&mut steps, SetupStep::CreateDirAll(usr));
    push_step(&mut steps, SetupStep::CreateDirAll(dev.clone()));
    push_step(&mut steps, SetupStep::SetMode { path: dev, mode: 0o755 });
    push_step(&mut steps, SetupStep::CreateDirAll(etc));
    push_step(&mut steps, SetupStep::CreateDirAll(home));
    push_step(&mut steps, SetupStep::CreateDirAll(proc.clone()));
    push_step(&mut steps, SetupStep::SetMode { path: proc.clone(), mode: 0o755 });
    push_step(
        &mut steps,
        SetupStep::Mount(
            MountRequest {
                source: Some(String::from_str("proc")),
                target: proc,
                fstype: Some(String::from_str("proc")),
                flags: proc_flags,
                data: None,
            },
        ),
    );
    push_step(&mut steps, SetupStep::CreateDirAll(run));
    push_step(&mut steps, SetupStep::CreateDirAll(opt));
    push_step(&mut steps, SetupStep::CreateDirAll(tmp));
    push_step(&mut steps, SetupStep::CreateDirAll(var));
    push_step(
        &mut steps,
        SetupStep::WriteFile {
            path: passwd,
            contents: String::from_str(
                "root:x:0:0:root:/root:/bin/sh\nuser:x:1000:1000:user:/home/user:/bin/sh\n",
            ),
        },
    );
    assert(steps_view(steps@) =~= root_base_steps(path@));
    steps
}

fn root_binds(path: &str, home: &str) -> (r: Vec<SetupStep>)
    ensures
        steps_view(r@) == root_bind_steps(path@, home@),
{
    let etc = join_path(path, "etc");
    let run = join_path(path, "run");
    let tmp = join_path(path, "tmp");
    let user = join_path(path, "run/user/1000/");
    let e = etc.as_str();
    let u = user.as_str();
    let mut steps: Vec<SetupStep> = Vec::new();
    push_step(&mut steps, bind_step("/oldroot/srv", join_path(path, "srv").as_str(), true));
    push_step(&mut steps, bind_step("/oldroot/opt", join_path(path, "opt").as_str(), true));
    push_step(&mut steps, bind_step("/oldroot/usr", join_path(path, "usr").as_str(), true));
    push_step(
        &mut steps,
        bind_step("/oldroot/tmp/.X11-unix", join_path(tmp.as_str(), ".X11-unix").as_str(), true),
    );
    push_step(
        &mut steps,
        bind_step("/oldroot/run/user/1000/wayland-1", join_path(u, "wayland-1").as_str(), false),
    );
    push_step(
        &mut steps,
        bind_step("/oldroot/run/user/1000/pulse", join_path(u, "pulse").as_str(), false),
    );
    push_step(
        &mut steps,
        bind_step(
            "/oldroot/run/user/1000/speech-dispatcher",
            join_path(u, "speech-dispatcher").as_str(),
            false,
        ),
    );
    push_step(
        &mut steps,
        bind_step("/oldroot/run/user/1000/keyring", join_path(u, "keyring").as_str(), false),
    );
    push_step(
        &mut steps,
        bind_step("/oldroot/run/user/1000/pipewire-0", join_path(u, "pipewire-0").as_str(), false),
    );
    push_step(
        &mut steps,
        bind_step("/oldroot/run/user/1000/bus", join_path(u, "bus").as_str(), false),
    );
    push_step(
        &mut steps,
        bind_step(
            "/oldroot/run/dbus/system_bus_socket",
            join_path(run.as_str(), "dbus/system_bus_socket").as_str(),
            false,
        ),
    );
    push_step(
        &mut steps,
        bind_step("/oldroot/run/user/1000/doc", join_path(u, "doc").as_str(), false),
    );
    push_step(
        &mut steps,
        bind_step("/oldroot/etc/machine-id", join_path(e, "machine-id").as_str(), true),
    );
    push_step(
        &mut steps,
        bind_step(
            "/oldroot/etc/resolv.conf",
            join_path(run.as_str(), "host/monitor/resolv.conf").as_str(),
            true,
        ),
    );
    push_step(
        &mut steps,
        bind_step("/oldroot/etc/resolv.conf", join_path(e, "resolv.conf").as_str(), true),
    );
    push_step(&mut steps, bind_step("/oldroot/etc/hosts", join_path(e, "hosts").as_str(), true));
    push_step(&mut steps, bind_step("/oldroot/etc/pulse", join_path(e, "pulse").as_str(), true));
    push_step(
        &mut steps,
        bind_step("/oldroot/etc/ca-certificates", join_path(e, "ca-certificates").as_str(), false),
    );
    push_step(&mut steps, bind_step("/oldroot/etc/ssl", join_path(e, "ssl").as_str(), false));
    push_step(
        &mut steps,
        bind_step("/oldroot/etc/host.conf", join_path(e, "host.conf").as_str(), true),
    );
    push_step(
        &mut steps,
        bind_step("/oldroot/etc/nsswitch.conf", join_path(e, "nsswitch.conf").as_str(), true),
    );
    push_step(&mut steps, bind_step("/oldroot/etc/fonts", join_path(e, "fonts").as_str(), true));
    push_step(
        &mut steps,
        SetupStep::BindHome { home: String::from_str(home), to: join_path(path, "home") },
    );
    assert(steps_view(steps@) =~= root_bind_steps(path@, home@));
    steps
}

fn root_final(path: &str) -> (r: Vec<SetupStep>)
    ensures
        steps_view(r@) == root_final_steps(path@),
{
    let tmp = join_path(path, "tmp");
    let var = join_path(path, "var");
    let var_tmp = join_path(var.as_str(), "tmp");
    let mut steps: Vec<SetupStep> = Vec::new();
    push_step(&mut steps, symlink_step("/usr/bin", join_path(path, "bin").as_str()));
    push_step(&mut steps, symlink_step("/usr/bin", join_path(path, "sbin").as_str()));
    push_step(&mut steps, symlink_step("/usr/lib", join_path(path, "lib").as_str()));
    push_step(&mut steps, symlink_step("/usr/lib", join_path(path, "lib64").as_str()));
    push_step(&mut steps, tmpfs_mount(tmp.as_str(), "mode=0755"));
    push_step(&mut steps, SetupStep::CreateDirAll(var_tmp.clone()));
    push_step(&mut steps, tmpfs_mount(var_tmp.as_str(), "mode=0755"));
    push_step(
        &mut steps,
        bind_step("/oldroot/tmp/.X11-unix", join_path(tmp.as_str(), ".X11-unix").as_str(), false),
    );
    assert(steps_view(steps@) =~= root_final_steps(path@));
    steps
}

/// Every step that builds the root of the sandbox at `path` (after the pivot,
/// `/`), with the host directory `home_path` as its `/home`.
pub fn create_root(path: &str, home_path: &str) -> (r: Vec<SetupStep>)
    ensures
        steps_view(r@) == root_steps(path@, home_path@),
{
    let mut steps = root_base(path);
    append_steps(&mut steps, create_dev(path));
    append_steps(&mut steps, root_binds(path, home_path));
    append_steps(&mut steps, create_sys(path));
    append_steps(&mut steps, root_final(path));
    steps
}

/// Prepares the storage of a sandbox's home directory; for every kind of
/// storage this is, so far, nothing.
pub fn create_home(path: &str, path_type: FileSystemType) {
}

} // verus!
