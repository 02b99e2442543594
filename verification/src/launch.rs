use vstd::prelude::*;
use crate::setup::{create_root, root_steps};
use crate::steps::{
    MountFlags, MountRequest, MountSpec, SetupStep, StepSpec, append_steps, no_flags, push_step,
    steps_view,
};
use crate::text::{decimal, decimal_string, signed_decimal, signed_decimal_string};

verus! {

/// The file under `/proc/<pid>/` named `name`.
pub open spec fn proc_file(pid: int, name: Seq<char>) -> Seq<char> {
    "/proc/"@ + signed_decimal(pid) + "/"@ + name
}

/// The user and group id that the sandbox runs as inside its user namespace.
pub const SANDBOX_ID: u32 = 1000;

/// A line of an identity map: the id `SANDBOX_ID` inside the namespace
/// stands for `host_id` outside it, a range of one.
pub open spec fn id_map_line(host_id: nat) -> Seq<char> {
    decimal(SANDBOX_ID as nat) + " "@ + decimal(host_id) + " 1\n"@
}

/// The writes that give the user namespace of `child` its identities:
/// `setgroups` is denied first, as the kernel demands before an unprivileged
/// process may write a group map; then the user map and the group map.
pub open spec fn id_map_steps(child: int, host_uid: nat, host_gid: nat) -> Seq<StepSpec> {
    seq![
        StepSpec::WriteFile { path: proc_file(child, "setgroups"@), contents: "deny"@ },
        StepSpec::WriteFile { path: proc_file(child, "uid_map"@), contents: id_map_line(host_uid) },
        StepSpec::WriteFile { path: proc_file(child, "gid_map"@), contents: id_map_line(host_gid) },
    ]
}

fn proc_file_path(pid: i32, name: &str) -> (r: String)
    ensures
        r@ == proc_file(pid as int, name@),
{
    let out = String::from_str("/proc/");
    let out = out.concat(signed_decimal_string(pid).as_str());
    let out = out.concat("/");
    let out = out.concat(name);
    out
}

fn id_map_contents(host_id: u32) -> (r: String)
    ensures
        r@ == id_map_line(host_id as nat),
{
    let out = decimal_string(SANDBOX_ID as u64);
    let out = out.concat(" ");
    let out = out.concat(decimal_string(host_id as u64).as_str());
    out.concat(" 1\n")
}

/// The writes into `/proc/<child>/` that map the sandbox's user and group
/// 1000 onto the host's `host_uid` and `host_gid`.
pub fn id_map_writes(child: i32, host_uid: u32, host_gid: u32) -> (r: Vec<SetupStep>)
    ensures
        steps_view(r@) == id_map_steps(child as int, host_uid as nat, host_gid as nat),
{
    let mut steps: Vec<SetupStep> = Vec::new();
    push_step(
        &mut steps,
        SetupStep::WriteFile {
            path: proc_file_path(child, "setgroups"),
            contents: String::from_str("deny"),
        },
    );
    push_step(
        &mut steps,
        SetupStep::WriteFile {
            path: proc_file_path(child, "uid_map"),
            contents: id_map_contents(host_uid),
        },
    );
    push_step(
        &mut steps,
        SetupStep::WriteFile {
            path: proc_file_path(child, "gid_map"),
            contents: id_map_contents(host_gid),
        },
    );
    assert(steps_view(steps@) =~= id_map_steps(child as int, host_uid as nat, host_gid as nat));
    steps
}

/// The steps that move the sandbox onto a fresh root: mount events stop
/// flowing back to the host, a `tmpfs` becomes the new root, the old root is
/// kept at `/oldroot` while the new one is built, then detached and removed.
pub open spec fn new_root_steps(home: Seq<char>) -> Seq<StepSpec> {
    seq![
        StepSpec::Mount(
            MountSpec {
                source: None,
                target: "/"@,
                fstype: None,
                flags: MountFlags { rec: true, slave: true, silent: true, ..no_flags() },
                data: None,
            },
        ),
        StepSpec::CreateDirAll("/tmp/newroot"@),
        StepSpec::Mount(
            MountSpec {
                source: Some("tmpfs"@),
                target: "/tmp/newroot"@,
                fstype: Some("tmpfs"@),
                flags: no_flags(),
                data: Some("mode=1777"@),
            },
        ),
        StepSpec::Mount(
            MountSpec {
                source: Some("/tmp/newroot"@),
                target: "/tmp/newroot"@,
                fstype: None,
                flags: MountFlags {
                    bind: true,
                    rec: true,
                    silent: true,
                    mgc_val: true,
                    ..no_flags()
                },
                data: None,
            },
        ),
        StepSpec::CreateDirAll("/tmp/newroot/oldroot"@),
        StepSpec::PivotRoot { new_root: "/tmp/newroot"@, put_old: "/tmp/newroot/oldroot"@ },
        StepSpec::Chdir("/"@),
    ] + root_steps("/"@, home) + seq![
        StepSpec::Mount(
            MountSpec {
                source: Some("oldroot"@),
                target: "oldroot"@,
                fstype: None,
                flags: MountFlags { silent: true, rec: true, private: true, ..no_flags() },
                data: None,
            },
        ),
        StepSpec::UnmountDetached("/oldroot"@),
        StepSpec::RemoveDirAll("/oldroot"@),
    ]
}

/// Every filesystem step of the sandboxed process, from its private mount
/// namespace to the new root with the host's `home_path` as `/home`.
pub fn enter_new_root(home_path: &str) -> (r: Vec<SetupStep>)
    ensures
        steps_view(r@) == new_root_steps(home_path@),
{
    let mut slave_flags = MountFlags::none();
    slave_flags.rec = true;
    slave_flags.slave = true;
    slave_flags.silent = true;
    let mut self_bind_flags = MountFlags::none();
    self_bind_flags.bind = true;
    self_bind_flags.rec = true;
    self_bind_flags.silent = true;
    self_bind_flags.mgc_val = true;
    let mut private_flags = MountFlags::none();
    private_flags.silent = true;
    private_flags.rec = true;
    private_flags.private = true;

    let mut steps: Vec<SetupStep> = Vec::new();
    push_step(
        &mut steps,
        SetupStep::Mount(
            MountRequest {
                source: None,
                target: String::from_str("/"),
                fstype: None,
                flags: slave_flags,
                data: None,
            },
        ),
    );
    push_step(&mut steps, SetupStep::CreateDirAll(String::from_str("/tmp/newroot")));
    push_step(
        &mut steps,
        SetupStep::Mount(
            MountRequest {
                source: Some(String::from_str("tmpfs")),
                target: String::from_str("/tmp/newroot"),
                fstype: Some(String::from_str("tmpfs")),
                flags: MountFlags::none(),
                data: Some(String::from_str("mode=1777")),
            },
        ),
    );
    push_step(
        &mut steps,
        SetupStep::Mount(
            MountRequest {
                source: Some(String::from_str("/tmp/newroot")),
                target: String::from_str("/tmp/newroot"),
                fstype: None,
                flags: self_bind_flags,
                data: None,
            },
        ),
    );
    push_step(&mut steps, SetupStep::CreateDirAll(String::from_str("/tmp/newroot/oldroot")));
    push_step(
        &mut steps,
        SetupStep::PivotRoot {
            new_root: String::from_str("/tmp/newroot"),
            put_old: String::from_str("/tmp/newroot/oldroot"),
        },
    );
    push_step(&mut steps, SetupStep::Chdir(String::from_str("/")));
    append_steps(&mut steps, create_root("/", home_path));
    let mut tail: Vec<SetupStep> = Vec::new();
    push_step(
        &mut tail,
        SetupStep::Mount(
            MountRequest {
                source: Some(String::from_str("oldroot")),
                target: String::from_str("oldroot"),
                fstype: None,
                flags: private_flags,
                data: None,
            },
        ),
    );
    push_step(&mut tail, SetupStep::UnmountDetached(String::from_str("/oldroot")));
    push_step(&mut tail, SetupStep::RemoveDirAll(String::from_str("/oldroot")));
    append_steps(&mut steps, tail);
    assert(steps_view(steps@) =~= new_root_steps(home_path@));
    steps
}

/// The namespaces that one `unshare` asks for.
#[derive(Clone, Copy, PartialEq, Eq, Structural, Debug)]
pub struct Namespaces {
    pub user: bool,
    pub mount: bool,
    pub pid: bool,
    pub uts: bool,
    pub ipc: bool,
}

/// One step that a process of the sandbox takes on itself or with its peer
/// across the synchronisation pipes.
#[derive(Clone, Debug, PartialEq, Eq)]
pub enum ProcessStep {
    /// Moves into new namespaces.
    Unshare(Namespaces),
    /// Drops every capability from the bounding set, ignoring failures.
    DropBoundingCapabilities,
    /// Writes one byte to the peer.
    NotifyPeer,
    /// Reads one byte from the peer.
    AwaitPeer,
    /// A filesystem step.
    Filesystem(SetupStep),
    SetGid(u32),
    SetUid(u32),
    /// Lets the process be dumped and traced after its change of user.
    SetDumpable,
    /// Forbids gaining privileges through `exec`.
    SetNoNewPrivs,
    /// Replaces the process with the program at the path.
    Exec(String),
}

/// A process step over character sequences.
pub enum ProcessSpec {
    Unshare(Namespaces),
    DropBoundingCapabilities,
    NotifyPeer,
    AwaitPeer,
    Filesystem(StepSpec),
    SetGid(u32),
    SetUid(u32),
    SetDumpable,
    SetNoNewPrivs,
    Exec(Seq<char>),
}

impl View for ProcessStep {
    type V = ProcessSpec;

    open spec fn view(&self) -> ProcessSpec {
        match self {
            ProcessStep::Unshare(n) => ProcessSpec::Unshare(*n),
            ProcessStep::DropBoundingCapabilities => ProcessSpec::DropBoundingCapabilities,
            ProcessStep::NotifyPeer => ProcessSpec::NotifyPeer,
            ProcessStep::AwaitPeer => ProcessSpec::AwaitPeer,
            ProcessStep::Filesystem(s) => ProcessSpec::Filesystem(s@),
            ProcessStep::SetGid(g) => ProcessSpec::SetGid(*g),
            ProcessStep::SetUid(u) => ProcessSpec::SetUid(*u),
            ProcessStep::SetDumpable => ProcessSpec::SetDumpable,
            ProcessStep::SetNoNewPrivs => ProcessSpec::SetNoNewPrivs,
            ProcessStep::Exec(p) => ProcessSpec::Exec(p@),
        }
    }
}

/// The steps of a list, each taken by its view.
pub open spec fn process_view(v: Seq<ProcessStep>) -> Seq<ProcessSpec> {
    v.map_values(|s: ProcessStep| s@)
}

fn push_process_step(steps: &mut Vec<ProcessStep>, s: ProcessStep)
    ensures
        process_view(final(steps)@) == process_view(old(steps)@).push(s@),
{
    let ghost s_view = s@;
    steps.push(s);
    assert(process_view(steps@) =~= process_view(old(steps)@).push(s_view));
}

/// The namespaces of the sandbox besides its user namespace.
pub open spec fn inner_namespaces() -> Namespaces {
    Namespaces { user: false, mount: true, pid: true, uts: true, ipc: true }
}

/// What the child of the first fork does before its second fork: it enters
/// a user namespace of its own, drops the bounding set, tells its parent,
/// waits until the parent has written its identity maps, and only then
/// enters the mount, PID, UTS and IPC namespaces.
pub open spec fn user_namespace_plan() -> Seq<ProcessSpec> {
    seq![
        ProcessSpec::Unshare(
            Namespaces { user: true, mount: false, pid: false, uts: false, ipc: false },
        ),
        ProcessSpec::DropBoundingCapabilities,
        ProcessSpec::NotifyPeer,
        ProcessSpec::AwaitPeer,
        ProcessSpec::Unshare(inner_namespaces()),
    ]
}

/// The steps of the child of the first fork up to its second fork.
pub fn user_namespace_steps() -> (r: Vec<ProcessStep>)
    ensures
        process_view(r@) == user_namespace_plan(),
{
    let mut steps: Vec<ProcessStep> = Vec::new();
    push_process_step(
        &mut steps,
        ProcessStep::Unshare(
            Namespaces { user: true, mount: false, pid: false, uts: false, ipc: false },
        ),
    );
    push_process_step(&mut steps, ProcessStep::DropBoundingCapabilities);
    push_process_step(&mut steps, ProcessStep::NotifyPeer);
    push_process_step(&mut steps, ProcessStep::AwaitPeer);
    push_process_step(
        &mut steps,
        ProcessStep::Unshare(
            Namespaces { user: false, mount: true, pid: true, uts: true, ipc: true },
        ),
    );
    assert(process_view(steps@) =~= user_namespace_plan());
    steps
}

/// What the parent of the first fork does: it waits until its child has
/// entered its user namespace, writes the child's identity maps, and then
/// lets the child go on.
pub open spec fn map_writer_plan(child: int, host_uid: nat, host_gid: nat) -> Seq<ProcessSpec> {
    let writes = id_map_steps(child, host_uid, host_gid);
    seq![
        ProcessSpec::AwaitPeer,
        ProcessSpec::Filesystem(writes[0]),
        ProcessSpec::Filesystem(writes[1]),
        ProcessSpec::Filesystem(writes[2]),
        ProcessSpec::NotifyPeer,
    ]
}

/// The steps of the parent of the first fork, whose child is `child`, before
/// it waits for that child.
pub fn map_writer_steps(child: i32, host_uid: u32, host_gid: u32) -> (r: Vec<ProcessStep>)
    ensures
        process_view(r@) == map_writer_plan(child as int, host_uid as nat, host_gid as nat),
{
    let mut steps: Vec<ProcessStep> = Vec::new();
    push_process_step(&mut steps, ProcessStep::AwaitPeer);
    push_process_step(
        &mut steps,
        ProcessStep::Filesystem(
            SetupStep::WriteFile {
                path: proc_file_path(child, "setgroups"),
                contents: String::from_str("deny"),
            },
        ),
    );
    push_process_step(
        &mut steps,
        ProcessStep::Filesystem(
            SetupStep::WriteFile {
                path: proc_file_path(child, "uid_map"),
                contents: id_map_contents(host_uid),
            },
        ),
    );
    push_process_step(
        &mut steps,
        ProcessStep::Filesystem(
            SetupStep::WriteFile {
                path: proc_file_path(child, "gid_map"),
                contents: id_map_contents(host_gid),
            },
        ),
    );
    push_process_step(&mut steps, ProcessStep::NotifyPeer);
    assert(process_view(steps@) =~= map_writer_plan(
        child as int,
        host_uid as nat,
        host_gid as nat,
    ));
    steps
}

/// What the sandbox's first process does once its root is built: it becomes
/// group and then user `SANDBOX_ID`, and stays dumpable.
pub open spec fn privilege_drop_plan() -> Seq<ProcessSpec> {
    seq![
        ProcessSpec::SetGid(SANDBOX_ID),
        ProcessSpec::SetUid(SANDBOX_ID),
        ProcessSpec::SetDumpable,
    ]
}

/// The steps that leave the root identity of the sandbox.
pub fn privilege_drop_steps() -> (r: Vec<ProcessStep>)
    ensures
        process_view(r@) == privilege_drop_plan(),
{
    let mut steps: Vec<ProcessStep> = Vec::new();
    push_process_step(&mut steps, ProcessStep::SetGid(SANDBOX_ID));
    push_process_step(&mut steps, ProcessStep::SetUid(SANDBOX_ID));
    push_process_step(&mut steps, ProcessStep::SetDumpable);
    assert(process_view(steps@) =~= privilege_drop_plan());
    steps
}

/// What the shell process does: it forbids new privileges and runs bash.
pub open spec fn shell_plan() -> Seq<ProcessSpec> {
    seq![ProcessSpec::SetNoNewPrivs, ProcessSpec::Exec("/usr/bin/bash"@)]
}

/// The steps of the shell process.
pub fn shell_steps() -> (r: Vec<ProcessStep>)
    ensures
        process_view(r@) == shell_plan(),
{
    let mut steps: Vec<ProcessStep> = Vec::new();
    push_process_step(&mut steps, ProcessStep::SetNoNewPrivs);
    push_process_step(&mut steps, ProcessStep::Exec(String::from_str("/usr/bin/bash")));
    assert(process_view(steps@) =~= shell_plan());
    steps
}

/// The identity the sandbox takes on is the one its maps give it: the group
/// and user it switches to are the inside ids of the group map and of the
/// user map that its parent writes, each mapped onto the host's id.
pub proof fn lemma_sandbox_identity_is_mapped(child: int, host_uid: nat, host_gid: nat)
    ensures
        privilege_drop_plan()[0] == ProcessSpec::SetGid(SANDBOX_ID),
        privilege_drop_plan()[1] == ProcessSpec::SetUid(SANDBOX_ID),
        map_writer_plan(child, host_uid, host_gid)[2] == ProcessSpec::Filesystem(
            StepSpec::WriteFile {
                path: proc_file(child, "uid_map"@),
                contents: decimal(SANDBOX_ID as nat) + " "@ + decimal(host_uid) + " 1\n"@,
            },
        ),
        map_writer_plan(child, host_uid, host_gid)[3] == ProcessSpec::Filesystem(
            StepSpec::WriteFile {
                path: proc_file(child, "gid_map"@),
                contents: decimal(SANDBOX_ID as nat) + " "@ + decimal(host_gid) + " 1\n"@,
            },
        ),
{
}

/// The handshake across the pipes: the child notifies its parent only after
/// it has entered its user namespace, and enters its other namespaces only
/// after it has heard back; the parent hears first, writes `setgroups` and
/// both maps of that child, and only then answers.
pub proof fn lemma_maps_written_during_handshake(child: int, host_uid: nat, host_gid: nat)
    ensures
        user_namespace_plan()[0] matches ProcessSpec::Unshare(n) && n.user,
        user_namespace_plan()[2] == ProcessSpec::NotifyPeer,
        user_namespace_plan()[3] == ProcessSpec::AwaitPeer,
        user_namespace_plan()[4] == ProcessSpec::Unshare(inner_namespaces()),
        map_writer_plan(child, host_uid, host_gid)[0] == ProcessSpec::AwaitPeer,
        map_writer_plan(child, host_uid, host_gid)[4] == ProcessSpec::NotifyPeer,
        forall|i: int|
            1 <= i <= 3 ==> #[trigger] map_writer_plan(child, host_uid, host_gid)[i]
                == ProcessSpec::Filesystem(id_map_steps(child, host_uid, host_gid)[i - 1]),
        id_map_steps(child, host_uid, host_gid)[0] == (StepSpec::WriteFile {
            path: proc_file(child, "setgroups"@),
            contents: "deny"@,
        }),
{
}

} // verus!
