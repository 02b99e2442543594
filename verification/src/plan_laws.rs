use vstd::prelude::*;
use crate::launch::new_root_steps;
use crate::paths::{is_absolute, joined};
use crate::setup::{
    bind_steps, under_old_root, dev_node_steps, dev_steps, root_base_steps, root_bind_steps, root_final_steps, root_steps,
    sys_steps,
};
use crate::steps::StepSpec;

verus! {

/// Whether `s` mounts a new filesystem (one with a type: not a bind and not
/// a change of propagation).
pub open spec fn mounts_filesystem(s: StepSpec) -> bool {
    match s {
        StepSpec::Mount(m) => m.fstype is Some,
        _ => false,
    }
}

/// The target of a mount step.
pub open spec fn mount_target(s: StepSpec) -> Seq<char> {
    match s {
        StepSpec::Mount(m) => m.target,
        _ => Seq::empty(),
    }
}

/// Whether a step before index `i` of `steps` creates the directory `p`.
pub open spec fn created_before(steps: Seq<StepSpec>, i: int, p: Seq<char>) -> bool {
    exists|j: int| 0 <= j < i && #[trigger] steps[j] == StepSpec::CreateDirAll(p)
}

/// Whether every filesystem that `steps` mount goes onto a directory that an
/// earlier step of `steps` has created.
pub open spec fn mounts_onto_created_dirs(steps: Seq<StepSpec>) -> bool {
    forall|i: int|
        0 <= i < steps.len() && mounts_filesystem(#[trigger] steps[i]) ==> created_before(
            steps,
            i,
            mount_target(steps[i]),
        )
}

/// Whether every filesystem that `more` mounts goes onto a directory created
/// by a step of `before` or by an earlier step of `more`.
spec fn covered_by(before: Seq<StepSpec>, more: Seq<StepSpec>) -> bool {
    forall|i: int|
        0 <= i < more.len() && mounts_filesystem(#[trigger] more[i]) ==> created_before(
            before,
            before.len() as int,
            mount_target(more[i]),
        ) || created_before(more, i, mount_target(more[i]))
}

proof fn lemma_append(a: Seq<StepSpec>, b: Seq<StepSpec>)
    requires
        mounts_onto_created_dirs(a),
        covered_by(a, b),
    ensures
        mounts_onto_created_dirs(a + b),
{
    let s = a + b;
    assert forall|i: int| 0 <= i < s.len() && mounts_filesystem(#[trigger] s[i]) implies created_before(
        s,
        i,
        mount_target(s[i]),
    ) by {
        if i < a.len() {
            assert(s[i] == a[i]);
            let j = choose|j: int| 0 <= j < i && #[trigger] a[j] == StepSpec::CreateDirAll(
                mount_target(a[i]),
            );
            assert(s[j] == a[j]);
        } else {
            let k = i - a.len();
            assert(s[i] == b[k]);
            let t = mount_target(b[k]);
            if created_before(a, a.len() as int, t) {
                let j = choose|j: int| 0 <= j < a.len() && #[trigger] a[j] == StepSpec::CreateDirAll(
                    t,
                );
                assert(s[j] == a[j]);
            } else {
                let j = choose|j: int| 0 <= j < k && #[trigger] b[j] == StepSpec::CreateDirAll(t);
                assert(s[a.len() + j] == b[j]);
            }
        }
    }
}

proof fn lemma_no_filesystem_mounts(a: Seq<StepSpec>, b: Seq<StepSpec>)
    requires
        forall|i: int| 0 <= i < b.len() ==> !mounts_filesystem(#[trigger] b[i]),
    ensures
        covered_by(a, b),
{
}

proof fn lemma_within(a: Seq<StepSpec>, b: Seq<StepSpec>)
    requires
        mounts_onto_created_dirs(b),
    ensures
        covered_by(a, b),
{
}

proof fn lemma_base(path: Seq<char>)
    ensures
        mounts_onto_created_dirs(root_base_steps(path)),
{
    let s = root_base_steps(path);
    assert forall|i: int| 0 <= i < s.len() && mounts_filesystem(#[trigger] s[i]) implies created_before(
        s,
        i,
        mount_target(s[i]),
    ) by {
        assert(i == 8);
        assert(s[6] == StepSpec::CreateDirAll(mount_target(s[8])));
    }
}

proof fn lemma_dev(path: Seq<char>)
    ensures
        mounts_onto_created_dirs(dev_steps(path)),
{
    let s = dev_steps(path);
    let dev = crate::paths::joined(path, "/dev"@);
    let head = seq![
        StepSpec::CreateDirAll(dev),
        StepSpec::Mount(crate::setup::tmpfs_request(dev, "mode=755"@)),
    ];
    assert forall|i: int| 0 <= i < head.len() && mounts_filesystem(#[trigger] head[i]) implies created_before(
        head,
        i,
        mount_target(head[i]),
    ) by {
        assert(head[0] == StepSpec::CreateDirAll(mount_target(head[1])));
    }
    let mut acc = head;
    lemma_no_filesystem_mounts(acc, dev_node_steps(dev, "null"@));
    lemma_append(acc, dev_node_steps(dev, "null"@));
    acc = acc + dev_node_steps(dev, "null"@);
    lemma_no_filesystem_mounts(acc, dev_node_steps(dev, "zero"@));
    lemma_append(acc, dev_node_steps(dev, "zero"@));
    acc = acc + dev_node_steps(dev, "zero"@);
    lemma_no_filesystem_mounts(acc, dev_node_steps(dev, "full"@));
    lemma_append(acc, dev_node_steps(dev, "full"@));
    acc = acc + dev_node_steps(dev, "full"@);
    lemma_no_filesystem_mounts(acc, dev_node_steps(dev, "random"@));
    lemma_append(acc, dev_node_steps(dev, "random"@));
    acc = acc + dev_node_steps(dev, "random"@);
    lemma_no_filesystem_mounts(acc, dev_node_steps(dev, "urandom"@));
    lemma_append(acc, dev_node_steps(dev, "urandom"@));
    acc = acc + dev_node_steps(dev, "urandom"@);
    lemma_no_filesystem_mounts(acc, dev_node_steps(dev, "tty"@));
    lemma_append(acc, dev_node_steps(dev, "tty"@));
    acc = acc + dev_node_steps(dev, "tty"@);
    let links = seq![
        StepSpec::Symlink { original: "/proc/self/fd/0"@, link: "/dev/stdin"@ },
        StepSpec::Symlink { original: "/proc/self/fd/1"@, link: "/dev/stdout"@ },
        StepSpec::Symlink { original: "/proc/self/fd/2"@, link: "/dev/stderr"@ },
        StepSpec::Symlink { original: "/proc/self/fd"@, link: "/dev/fd"@ },
        StepSpec::Symlink { original: "/proc/kcore"@, link: "/dev/core"@ },
    ];
    lemma_no_filesystem_mounts(acc, links);
    lemma_append(acc, links);
    acc = acc + links;
    let pts = crate::paths::joined(dev, "pts"@);
    let rest = seq![
        StepSpec::CreateDirAll(crate::paths::joined(dev, "shm"@)),
        StepSpec::SetMode { path: crate::paths::joined(dev, "shm"@), mode: 0o755 },
        StepSpec::CreateDirAll(pts),
        StepSpec::SetMode { path: pts, mode: 0o755 },
        StepSpec::Mount(crate::setup::devpts_request(pts)),
        StepSpec::CreateDirAll(crate::paths::joined(dev, "dri"@)),
        StepSpec::BindMount {
            from: "/oldroot/dev/dri"@,
            to: crate::paths::joined(dev, "dri"@),
            readonly: false,
        },
        StepSpec::Symlink { original: "/dev/pts/ptmx"@, link: "/dev/ptmx"@ },
    ];
    assert forall|i: int| 0 <= i < rest.len() && mounts_filesystem(#[trigger] rest[i]) implies created_before(
        rest,
        i,
        mount_target(rest[i]),
    ) by {
        assert(i == 4);
        assert(rest[2] == StepSpec::CreateDirAll(mount_target(rest[4])));
    }
    lemma_within(acc, rest);
    lemma_append(acc, rest);
    assert(acc + rest =~= s);
}

proof fn lemma_final(before: Seq<StepSpec>, path: Seq<char>)
    requires
        before.len() >= 12,
        before[11] == StepSpec::CreateDirAll(crate::paths::joined(path, "tmp"@)),
    ensures
        covered_by(before, root_final_steps(path)),
{
    let s = root_final_steps(path);
    assert forall|i: int| 0 <= i < s.len() && mounts_filesystem(#[trigger] s[i]) implies created_before(
        before,
        before.len() as int,
        mount_target(s[i]),
    ) || created_before(s, i, mount_target(s[i])) by {
        if i == 4 {
            assert(before[11] == StepSpec::CreateDirAll(mount_target(s[4])));
        } else {
            assert(i == 6);
            assert(s[5] == StepSpec::CreateDirAll(mount_target(s[6])));
        }
    }
}

/// Every filesystem that the root of the sandbox mounts (its `/proc`, the
/// `tmpfs` of `/dev`, `/tmp` and `/var/tmp`, its `devpts`) goes onto a
/// directory that the plan has created before.
pub proof fn lemma_root_mounts_onto_created_dirs(path: Seq<char>, home: Seq<char>)
    ensures
        mounts_onto_created_dirs(root_steps(path, home)),
{
    let base = root_base_steps(path);
    lemma_base(path);
    lemma_dev(path);
    lemma_within(base, dev_steps(path));
    lemma_append(base, dev_steps(path));
    let a = base + dev_steps(path);
    assert forall|i: int| 0 <= i < root_bind_steps(path, home).len() implies !mounts_filesystem(
        #[trigger] root_bind_steps(path, home)[i],
    ) by {}
    lemma_no_filesystem_mounts(a, root_bind_steps(path, home));
    lemma_append(a, root_bind_steps(path, home));
    let b = a + root_bind_steps(path, home);
    lemma_no_filesystem_mounts(b, sys_steps(path));
    lemma_append(b, sys_steps(path));
    let c = b + sys_steps(path);
    assert(c[11] == base[11]);
    lemma_final(c, path);
    lemma_append(c, root_final_steps(path));
}

/// Every filesystem that the sandboxed process mounts, from the `tmpfs` of
/// its new root to those inside it, goes onto a directory that the plan has
/// created before.
pub proof fn lemma_new_root_mounts_onto_created_dirs(home: Seq<char>)
    ensures
        mounts_onto_created_dirs(new_root_steps(home)),
{
    let s = new_root_steps(home);
    let head = s.take(7);
    let root = root_steps("/"@, home);
    let tail = s.skip(7 + root.len() as int);
    assert(head + root + tail =~= s);
    assert forall|i: int| 0 <= i < head.len() && mounts_filesystem(#[trigger] head[i]) implies created_before(
        head,
        i,
        mount_target(head[i]),
    ) by {
        assert(i == 2);
        assert(head[1] == StepSpec::CreateDirAll(mount_target(head[2])));
    }
    lemma_root_mounts_onto_created_dirs("/"@, home);
    lemma_within(head, root);
    lemma_append(head, root);
    assert forall|i: int| 0 <= i < tail.len() implies !mounts_filesystem(#[trigger] tail[i]) by {}
    lemma_no_filesystem_mounts(head + root, tail);
    lemma_append(head + root, tail);
}

/// Whether every host path that `steps` bind into the sandbox is taken from
/// under the old root.
pub open spec fn binds_from_old_root(steps: Seq<StepSpec>) -> bool {
    forall|i: int|
        0 <= i < steps.len() ==> match #[trigger] steps[i] {
            StepSpec::BindMount { from, .. } => under_old_root(from),
            StepSpec::BindIfPresent { from, .. } => under_old_root(from),
            _ => true,
        }
}

proof fn lemma_binds_append(a: Seq<StepSpec>, b: Seq<StepSpec>)
    requires
        binds_from_old_root(a),
        binds_from_old_root(b),
    ensures
        binds_from_old_root(a + b),
{
    assert forall|i: int| 0 <= i < (a + b).len() implies match #[trigger] (a + b)[i] {
        StepSpec::BindMount { from, .. } => under_old_root(from),
        StepSpec::BindIfPresent { from, .. } => under_old_root(from),
        _ => true,
    } by {
        if i < a.len() {
            assert((a + b)[i] == a[i]);
        } else {
            assert((a + b)[i] == b[i - a.len()]);
        }
    }
}

proof fn lemma_old_root_literals()
    ensures
        under_old_root("/oldroot/srv"@),
        under_old_root("/oldroot/opt"@),
        under_old_root("/oldroot/usr"@),
        under_old_root("/oldroot/tmp/.X11-unix"@),
        under_old_root("/oldroot/run/user/1000/wayland-1"@),
        under_old_root("/oldroot/run/user/1000/pulse"@),
        under_old_root("/oldroot/run/user/1000/speech-dispatcher"@),
        under_old_root("/oldroot/run/user/1000/keyring"@),
        under_old_root("/oldroot/run/user/1000/pipewire-0"@),
        under_old_root("/oldroot/run/user/1000/bus"@),
        under_old_root("/oldroot/run/dbus/system_bus_socket"@),
        under_old_root("/oldroot/run/user/1000/doc"@),
        under_old_root("/oldroot/etc/machine-id"@),
        under_old_root("/oldroot/etc/resolv.conf"@),
        under_old_root("/oldroot/etc/hosts"@),
        under_old_root("/oldroot/etc/pulse"@),
        under_old_root("/oldroot/etc/ca-certificates"@),
        under_old_root("/oldroot/etc/ssl"@),
        under_old_root("/oldroot/etc/host.conf"@),
        under_old_root("/oldroot/etc/nsswitch.conf"@),
        under_old_root("/oldroot/etc/fonts"@),
        under_old_root("/oldroot/dev/dri"@),
{
    reveal_strlit("/oldroot/");
    assert(under_old_root("/oldroot/srv"@)) by {
        reveal_strlit("/oldroot/srv");
    }
    assert(under_old_root("/oldroot/opt"@)) by {
        reveal_strlit("/oldroot/opt");
    }
    assert(under_old_root("/oldroot/usr"@)) by {
        reveal_strlit("/oldroot/usr");
    }
    assert(under_old_root("/oldroot/tmp/.X11-unix"@)) by {
        reveal_strlit("/oldroot/tmp/.X11-unix");
    }
    assert(under_old_root("/oldroot/run/user/1000/wayland-1"@)) by {
        reveal_strlit("/oldroot/run/user/1000/wayland-1");
    }
    assert(under_old_root("/oldroot/run/user/1000/pulse"@)) by {
        reveal_strlit("/oldroot/run/user/1000/pulse");
    }
    assert(under_old_root("/oldroot/run/user/1000/speech-dispatcher"@)) by {
        reveal_strlit("/oldroot/run/user/1000/speech-dispatcher");
    }
    assert(under_old_root("/oldroot/run/user/1000/keyring"@)) by {
        reveal_strlit("/oldroot/run/user/1000/keyring");
    }
    assert(under_old_root("/oldroot/run/user/1000/pipewire-0"@)) by {
        reveal_strlit("/oldroot/run/user/1000/pipewire-0");
    }
    assert(under_old_root("/oldroot/run/user/1000/bus"@)) by {
        reveal_strlit("/oldroot/run/user/1000/bus");
    }
    assert(under_old_root("/oldroot/run/dbus/system_bus_socket"@)) by {
        reveal_strlit("/oldroot/run/dbus/system_bus_socket");
    }
    assert(under_old_root("/oldroot/run/user/1000/doc"@)) by {
        reveal_strlit("/oldroot/run/user/1000/doc");
    }
    assert(under_old_root("/oldroot/etc/machine-id"@)) by {
        reveal_strlit("/oldroot/etc/machine-id");
    }
    assert(under_old_root("/oldroot/etc/resolv.conf"@)) by {
        reveal_strlit("/oldroot/etc/resolv.conf");
    }
    assert(under_old_root("/oldroot/etc/hosts"@)) by {
        reveal_strlit("/oldroot/etc/hosts");
    }
    assert(under_old_root("/oldroot/etc/pulse"@)) by {
        reveal_strlit("/oldroot/etc/pulse");
    }
    assert(under_old_root("/oldroot/etc/ca-certificates"@)) by {
        reveal_strlit("/oldroot/etc/ca-certificates");
    }
    assert(under_old_root("/oldroot/etc/ssl"@)) by {
        reveal_strlit("/oldroot/etc/ssl");
    }
    assert(under_old_root("/oldroot/etc/host.conf"@)) by {
        reveal_strlit("/oldroot/etc/host.conf");
    }
    assert(under_old_root("/oldroot/etc/nsswitch.conf"@)) by {
        reveal_strlit("/oldroot/etc/nsswitch.conf");
    }
    assert(under_old_root("/oldroot/etc/fonts"@)) by {
        reveal_strlit("/oldroot/etc/fonts");
    }
    assert(under_old_root("/oldroot/dev/dri"@)) by {
        reveal_strlit("/oldroot/dev/dri");
    }
}

proof fn lemma_under_old_root_concat(rest: Seq<char>)
    ensures
        under_old_root("/oldroot/"@ + rest),
        under_old_root("/oldroot/dev/"@ + rest),
{
    reveal_strlit("/oldroot/");
    reveal_strlit("/oldroot/dev/");
    assert(("/oldroot/"@ + rest).subrange(0, 9) =~= "/oldroot/"@);
    assert(("/oldroot/dev/"@ + rest).subrange(0, 9) =~= "/oldroot/"@);
}

proof fn lemma_sys_source(sub: Seq<char>)
    requires
        sub.len() > 0,
        sub[0] != '/',
    ensures
        under_old_root(crate::paths::joined("/oldroot/"@, sub)),
{
    reveal_strlit("/oldroot/");
    lemma_under_old_root_concat(sub);
}

/// Every host path that the root of the sandbox binds in (the system trees,
/// the session sockets, the files of `/etc`, the device nodes and the trees
/// of `/sys`) is taken from under the old root `/oldroot/`. The home
/// directory is bound in by its own step, whose source `home_bind` proves to
/// lie under `/oldroot/` as well.
pub proof fn lemma_root_binds_from_old_root(path: Seq<char>, home: Seq<char>)
    ensures
        binds_from_old_root(root_steps(path, home)),
{
    lemma_old_root_literals();
    let dev = crate::paths::joined(path, "/dev"@);
    assert forall|n: Seq<char>| true implies binds_from_old_root(#[trigger] dev_node_steps(dev, n)) by {
        lemma_under_old_root_concat(n);
    }
    assert(binds_from_old_root(dev_steps(path)));
    assert(binds_from_old_root(root_base_steps(path)));
    assert(binds_from_old_root(root_bind_steps(path, home)));
    assert(binds_from_old_root(root_final_steps(path)));
    reveal_strlit("sys/block");
    reveal_strlit("sys/bus");
    reveal_strlit("sys/class");
    reveal_strlit("sys/dev");
    reveal_strlit("sys/devices");
    lemma_sys_source("sys/block"@);
    lemma_sys_source("sys/bus"@);
    lemma_sys_source("sys/class"@);
    lemma_sys_source("sys/dev"@);
    lemma_sys_source("sys/devices"@);
    assert(binds_from_old_root(sys_steps(path)));
    lemma_binds_append(root_base_steps(path), dev_steps(path));
    lemma_binds_append(root_base_steps(path) + dev_steps(path), root_bind_steps(path, home));
    lemma_binds_append(
        root_base_steps(path) + dev_steps(path) + root_bind_steps(path, home),
        sys_steps(path),
    );
    lemma_binds_append(
        root_base_steps(path) + dev_steps(path) + root_bind_steps(path, home) + sys_steps(path),
        root_final_steps(path),
    );
}

/// What the link named `link` points at, where `s` makes that link.
pub open spec fn link_target(s: StepSpec, link: Seq<char>) -> Option<Seq<char>> {
    match s {
        StepSpec::Symlink { original, link: l } => if l == link {
            Some(original)
        } else {
            None
        },
        _ => None,
    }
}

/// Whether `steps` make the link `link` point at `original`, and make no
/// link of that name point anywhere else.
pub open spec fn links_exactly(steps: Seq<StepSpec>, link: Seq<char>, original: Seq<char>) -> bool {
    &&& exists|i: int| 0 <= i < steps.len() && #[trigger] link_target(steps[i], link) == Some(original)
    &&& forall|i: int|
        0 <= i < steps.len() && (#[trigger] link_target(steps[i], link)) is Some ==> link_target(
            steps[i],
            link,
        ) == Some(original)
}

proof fn lemma_dev_symlink_places(path: Seq<char>)
    ensures
        dev_steps(path).len() == 33,
        forall|i: int|
            0 <= i < dev_steps(path).len() && #[trigger] dev_steps(path)[i] is Symlink ==> (20 <= i
                < 25 || i == 32),
{
    let s = dev_steps(path);
    assert forall|i: int| 0 <= i < s.len() && #[trigger] s[i] is Symlink implies (20 <= i < 25
        || i == 32) by {
        let dev = joined(path, "/dev"@);
        if i >= 2 && i < 20 {
            let k = (i - 2) / 3;
            assert(s[i] == dev_node_steps(
                dev,
                seq!["null"@, "zero"@, "full"@, "random"@, "urandom"@, "tty"@][k],
            )[(i - 2) % 3]);
        }
    }
}

/// The standard streams of the sandbox: `/dev/stdin`, `/dev/stdout` and
/// `/dev/stderr` are links to `/proc/self/fd/0`, `/1` and `/2`, the
/// descriptor of the stream each is named after, and no other link of `/dev`
/// bears one of those names.
pub proof fn lemma_dev_streams_link_their_descriptors(path: Seq<char>)
    ensures
        links_exactly(dev_steps(path), "/dev/stdin"@, "/proc/self/fd/0"@),
        links_exactly(dev_steps(path), "/dev/stdout"@, "/proc/self/fd/1"@),
        links_exactly(dev_steps(path), "/dev/stderr"@, "/proc/self/fd/2"@),
{
    let s = dev_steps(path);
    reveal_strlit("/dev/stdin");
    reveal_strlit("/dev/stdout");
    reveal_strlit("/dev/stderr");
    reveal_strlit("/dev/fd");
    reveal_strlit("/dev/core");
    reveal_strlit("/dev/ptmx");
    assert(link_target(s[20], "/dev/stdin"@) == Some("/proc/self/fd/0"@));
    assert(link_target(s[21], "/dev/stdout"@) == Some("/proc/self/fd/1"@));
    assert(link_target(s[22], "/dev/stderr"@) == Some("/proc/self/fd/2"@));
    assert(s.len() == 33);
    lemma_dev_symlink_places(path);
    assert(!("/dev/stdin"@ =~= "/dev/stdout"@));
    assert(!("/dev/stdin"@ =~= "/dev/stderr"@));
    assert("/dev/stdout"@[8] != "/dev/stderr"@[8]);
    assert(!("/dev/stdin"@ =~= "/dev/fd"@));
    assert(!("/dev/stdout"@ =~= "/dev/fd"@));
    assert(!("/dev/stderr"@ =~= "/dev/fd"@));
    assert(!("/dev/stdin"@ =~= "/dev/core"@));
    assert(!("/dev/stdout"@ =~= "/dev/core"@));
    assert(!("/dev/stderr"@ =~= "/dev/core"@));
    assert(!("/dev/stdin"@ =~= "/dev/ptmx"@));
    assert(!("/dev/stdout"@ =~= "/dev/ptmx"@));
    assert(!("/dev/stderr"@ =~= "/dev/ptmx"@));
}

/// The source of a step that binds in a tree the host may lack, and the
/// empty path for any other step.
pub open spec fn optional_bind_source(s: StepSpec) -> Seq<char> {
    match s {
        StepSpec::BindIfPresent { from, .. } => from,
        _ => Seq::empty(),
    }
}

/// Whether a step of `steps` binds in the host's `/oldroot/<name>` where the
/// host has it.
pub open spec fn binds_tree(steps: Seq<StepSpec>, name: Seq<char>) -> bool {
    exists|i: int| 0 <= i < steps.len() && (#[trigger] optional_bind_source(steps[i])).skip(9) == name
}

/// Where a step binds in a tree that the host may lack: its source and
/// target.
pub open spec fn optional_bind(s: StepSpec) -> Option<(Seq<char>, Seq<char>)> {
    match s {
        StepSpec::BindIfPresent { from, to } => Some((from, to)),
        _ => None,
    }
}

proof fn lemma_sys_bind_shape(path: Seq<char>, sub: Seq<char>)
    requires
        sub.len() > 4,
        sub.subrange(0, 4) == "sys/"@,
    ensures
        ({
            let (from, to) = optional_bind(crate::setup::sys_bind(path, sub))->0;
            &&& "/oldroot/sys/"@.is_prefix_of(from)
            &&& from.skip(9) == sub
            &&& !is_absolute(sub)
            &&& to == joined(path, from.skip(9))
        }),
{
    reveal_strlit("/oldroot/");
    reveal_strlit("/oldroot/sys/");
    reveal_strlit("sys/");
    assert(sub.subrange(0, 4)[0] == sub[0]);
    assert(sub[0] == 's');
    let from = joined("/oldroot/"@, sub);
    assert(from == "/oldroot/"@ + sub);
    assert(from.skip(9) =~= sub);
    assert(from.subrange(0, 13) =~= "/oldroot/"@ + sub.subrange(0, 4));
    assert("/oldroot/"@ + "sys/"@ =~= "/oldroot/sys/"@);
}

/// The trees of `/sys` are bound into the new root: each step takes a tree
/// from under the host's `/oldroot/sys/` and binds it at the same relative
/// place under the root `path` (so it lies under `path`); the trees are
/// `block`, `bus`, `class`, `dev` and `devices`.
pub proof fn lemma_sys_trees_bound_under_new_root(path: Seq<char>)
    ensures
        sys_steps(path).len() == 5,
        forall|i: int|
            0 <= i < sys_steps(path).len() ==> ((#[trigger] optional_bind(sys_steps(path)[i])) matches Some(
                (from, to),
            ) && "/oldroot/sys/"@.is_prefix_of(from) && !is_absolute(from.skip(9)) && to == joined(
                path,
                from.skip(9),
            )),
        binds_tree(sys_steps(path), "sys/block"@),
        binds_tree(sys_steps(path), "sys/bus"@),
        binds_tree(sys_steps(path), "sys/class"@),
        binds_tree(sys_steps(path), "sys/dev"@),
        binds_tree(sys_steps(path), "sys/devices"@),
{
    reveal_strlit("sys/");
    reveal_strlit("sys/block");
    reveal_strlit("sys/bus");
    reveal_strlit("sys/class");
    reveal_strlit("sys/dev");
    reveal_strlit("sys/devices");
    assert("sys/block"@.subrange(0, 4) =~= "sys/"@);
    assert("sys/bus"@.subrange(0, 4) =~= "sys/"@);
    assert("sys/class"@.subrange(0, 4) =~= "sys/"@);
    assert("sys/dev"@.subrange(0, 4) =~= "sys/"@);
    assert("sys/devices"@.subrange(0, 4) =~= "sys/"@);
    lemma_sys_bind_shape(path, "sys/block"@);
    lemma_sys_bind_shape(path, "sys/bus"@);
    lemma_sys_bind_shape(path, "sys/class"@);
    lemma_sys_bind_shape(path, "sys/dev"@);
    lemma_sys_bind_shape(path, "sys/devices"@);
    let s = sys_steps(path);
    assert(optional_bind_source(s[0]).skip(9) == "sys/block"@);
    assert(optional_bind_source(s[1]).skip(9) == "sys/bus"@);
    assert(optional_bind_source(s[2]).skip(9) == "sys/class"@);
    assert(optional_bind_source(s[3]).skip(9) == "sys/dev"@);
    assert(optional_bind_source(s[4]).skip(9) == "sys/devices"@);
}

spec fn only_links_to(steps: Seq<StepSpec>, link: Seq<char>, original: Seq<char>) -> bool {
    forall|i: int|
        0 <= i < steps.len() && (#[trigger] link_target(steps[i], link)) is Some ==> link_target(
            steps[i],
            link,
        ) == Some(original)
}

proof fn lemma_only_links_append(
    a: Seq<StepSpec>,
    b: Seq<StepSpec>,
    link: Seq<char>,
    original: Seq<char>,
)
    requires
        only_links_to(a, link, original),
        only_links_to(b, link, original),
    ensures
        only_links_to(a + b, link, original),
{
    assert forall|i: int|
        0 <= i < (a + b).len() && (#[trigger] link_target((a + b)[i], link)) is Some implies link_target(
        (a + b)[i],
        link,
    ) == Some(original) by {
        if i < a.len() {
            assert((a + b)[i] == a[i]);
        } else {
            assert((a + b)[i] == b[i - a.len()]);
        }
    }
}

proof fn lemma_joined_relative(p: Seq<char>, rel: Seq<char>)
    requires
        !is_absolute(rel),
    ensures
        joined(p, rel) == joined(p, Seq::empty()) + rel,
{
    assert(!is_absolute(Seq::<char>::empty()));
    if p.len() > 0 && p.last() != '/' {
        assert(joined(p, rel) =~= joined(p, Seq::empty()) + rel);
    } else {
        assert(joined(p, rel) =~= joined(p, Seq::empty()) + rel);
    }
}

proof fn lemma_ends_differ(a: Seq<char>, b: Seq<char>)
    requires
        a.len() >= 3,
        b.len() >= 3,
        a.len() != b.len() || a[a.len() - 3] != b[b.len() - 3],
    ensures
        a != b,
{
}

spec fn not_a_dev_link(l: Seq<char>) -> bool {
    &&& l != "/dev/stdin"@
    &&& l != "/dev/stdout"@
    &&& l != "/dev/stderr"@
    &&& l != "/dev/fd"@
    &&& l != "/dev/core"@
    &&& l != "/dev/ptmx"@
}

proof fn lemma_dev_only_link(path: Seq<char>, l: Seq<char>, o: Seq<char>)
    requires
        not_a_dev_link(l),
    ensures
        only_links_to(dev_steps(path), l, o),
{
    lemma_dev_symlink_places(path);
    let d = dev_steps(path);
    assert forall|i: int| 0 <= i < d.len() && (#[trigger] link_target(d[i], l)) is Some implies link_target(
        d[i],
        l,
    ) == Some(o) by {
        assert(d[i] is Symlink);
    }
}

proof fn lemma_root_only_link(path: Seq<char>, home: Seq<char>, l: Seq<char>, o: Seq<char>)
    requires
        not_a_dev_link(l),
        only_links_to(root_final_steps(path), l, o),
    ensures
        only_links_to(root_steps(path, home), l, o),
{
    let base = root_base_steps(path);
    let d = dev_steps(path);
    let binds = root_bind_steps(path, home);
    let sys = sys_steps(path);
    lemma_dev_only_link(path, l, o);
    assert(only_links_to(base, l, o));
    assert(only_links_to(binds, l, o));
    assert(only_links_to(sys, l, o));
    lemma_only_links_append(base, d, l, o);
    lemma_only_links_append(base + d, binds, l, o);
    lemma_only_links_append(base + d + binds, sys, l, o);
    lemma_only_links_append(base + d + binds + sys, root_final_steps(path), l, o);
}

proof fn lemma_usr_link_names(path: Seq<char>)
    ensures
        not_a_dev_link(joined(path, "bin"@)),
        not_a_dev_link(joined(path, "sbin"@)),
        not_a_dev_link(joined(path, "lib"@)),
        not_a_dev_link(joined(path, "lib64"@)),
        joined(path, "bin"@) != joined(path, "sbin"@),
        joined(path, "bin"@) != joined(path, "lib"@),
        joined(path, "bin"@) != joined(path, "lib64"@),
        joined(path, "sbin"@) != joined(path, "lib"@),
        joined(path, "sbin"@) != joined(path, "lib64"@),
        joined(path, "lib"@) != joined(path, "lib64"@),
{
    reveal_strlit("bin");
    reveal_strlit("sbin");
    reveal_strlit("lib");
    reveal_strlit("lib64");
    reveal_strlit("/dev/stdin");
    reveal_strlit("/dev/stdout");
    reveal_strlit("/dev/stderr");
    reveal_strlit("/dev/fd");
    reveal_strlit("/dev/core");
    reveal_strlit("/dev/ptmx");
    lemma_joined_relative(path, "bin"@);
    lemma_joined_relative(path, "sbin"@);
    lemma_joined_relative(path, "lib"@);
    lemma_joined_relative(path, "lib64"@);
    let names = seq![joined(path, "bin"@), joined(path, "sbin"@), joined(path, "lib"@), joined(path, "lib64"@)];
    let dev_links = seq!["/dev/stdin"@, "/dev/stdout"@, "/dev/stderr"@, "/dev/fd"@, "/dev/core"@, "/dev/ptmx"@];
    assert(names[0][names[0].len() - 3] == 'b');
    assert(names[1][names[1].len() - 3] == 'b');
    assert(names[2][names[2].len() - 3] == 'l');
    assert(names[3][names[3].len() - 3] == 'b');
    assert forall|n: int, m: int| 0 <= n < 4 && 0 <= m < 6 implies names[n] != dev_links[m] by {
        lemma_ends_differ(names[n], dev_links[m]);
    }
    lemma_ends_differ(names[0], names[1]);
    lemma_ends_differ(names[0], names[2]);
    lemma_ends_differ(names[0], names[3]);
    lemma_ends_differ(names[1], names[2]);
    lemma_ends_differ(names[1], names[3]);
    lemma_ends_differ(names[2], names[3]);
}

proof fn lemma_final_step_in_root(path: Seq<char>, home: Seq<char>, j: int)
    requires
        0 <= j < 8,
    ensures
        root_steps(path, home).len() >= 8,
        root_steps(path, home)[root_steps(path, home).len() - 8 + j] == root_final_steps(path)[j],
{
    let s = root_steps(path, home);
    let f = root_final_steps(path);
    let front = root_base_steps(path) + dev_steps(path) + root_bind_steps(path, home) + sys_steps(
        path,
    );
    assert(s == front + f);
    assert(f.len() == 8);
}

proof fn lemma_final_links(path: Seq<char>)
    ensures
        only_links_to(root_final_steps(path), joined(path, "bin"@), "/usr/bin"@),
        only_links_to(root_final_steps(path), joined(path, "sbin"@), "/usr/bin"@),
        only_links_to(root_final_steps(path), joined(path, "lib"@), "/usr/lib"@),
        only_links_to(root_final_steps(path), joined(path, "lib64"@), "/usr/lib"@),
        link_target(root_final_steps(path)[0], joined(path, "bin"@)) == Some("/usr/bin"@),
        link_target(root_final_steps(path)[1], joined(path, "sbin"@)) == Some("/usr/bin"@),
        link_target(root_final_steps(path)[2], joined(path, "lib"@)) == Some("/usr/lib"@),
        link_target(root_final_steps(path)[3], joined(path, "lib64"@)) == Some("/usr/lib"@),
{
    lemma_usr_link_names(path);
}

/// Each of the usual top-level links of the root at `path` points at the
/// `/usr` directory of its kind: `bin` and `sbin` at `/usr/bin`, `lib` and
/// `lib64` at `/usr/lib`; no other link of the plan bears one of those names.
pub proof fn lemma_root_links_into_usr(path: Seq<char>, home: Seq<char>)
    ensures
        links_exactly(root_steps(path, home), joined(path, "bin"@), "/usr/bin"@),
        links_exactly(root_steps(path, home), joined(path, "sbin"@), "/usr/bin"@),
        links_exactly(root_steps(path, home), joined(path, "lib"@), "/usr/lib"@),
        links_exactly(root_steps(path, home), joined(path, "lib64"@), "/usr/lib"@),
{
    let s = root_steps(path, home);
    let k = s.len() - 8;
    lemma_final_links(path);
    lemma_usr_link_names(path);
    lemma_final_step_in_root(path, home, 0);
    lemma_final_step_in_root(path, home, 1);
    lemma_final_step_in_root(path, home, 2);
    lemma_final_step_in_root(path, home, 3);
    assert(link_target(s[k], joined(path, "bin"@)) == Some("/usr/bin"@));
    assert(link_target(s[k + 1], joined(path, "sbin"@)) == Some("/usr/bin"@));
    assert(link_target(s[k + 2], joined(path, "lib"@)) == Some("/usr/lib"@));
    assert(link_target(s[k + 3], joined(path, "lib64"@)) == Some("/usr/lib"@));
    lemma_root_only_link(path, home, joined(path, "bin"@), "/usr/bin"@);
    lemma_root_only_link(path, home, joined(path, "sbin"@), "/usr/bin"@);
    lemma_root_only_link(path, home, joined(path, "lib"@), "/usr/lib"@);
    lemma_root_only_link(path, home, joined(path, "lib64"@), "/usr/lib"@);
}

/// Where a step pivots the root: the new root and where the old one goes.
pub open spec fn pivot_of(s: StepSpec) -> Option<(Seq<char>, Seq<char>)> {
    match s {
        StepSpec::PivotRoot { new_root, put_old } => Some((new_root, put_old)),
        _ => None,
    }
}

spec fn no_pivot(steps: Seq<StepSpec>) -> bool {
    forall|i: int| 0 <= i < steps.len() ==> (#[trigger] pivot_of(steps[i])) is None
}

proof fn lemma_no_pivot_append(a: Seq<StepSpec>, b: Seq<StepSpec>)
    requires
        no_pivot(a),
        no_pivot(b),
    ensures
        no_pivot(a + b),
{
    assert forall|i: int| 0 <= i < (a + b).len() implies (#[trigger] pivot_of((a + b)[i])) is None by {
        if i < a.len() {
            assert((a + b)[i] == a[i]);
        } else {
            assert((a + b)[i] == b[i - a.len()]);
        }
    }
}

proof fn lemma_root_has_no_pivot(path: Seq<char>, home: Seq<char>)
    ensures
        no_pivot(root_steps(path, home)),
{
    let dev = joined(path, "/dev"@);
    let d = dev_steps(path);
    assert forall|i: int| 0 <= i < d.len() implies (#[trigger] pivot_of(d[i])) is None by {
        if i >= 2 && i < 20 {
            let k = (i - 2) / 3;
            assert(d[i] == dev_node_steps(
                dev,
                seq!["null"@, "zero"@, "full"@, "random"@, "urandom"@, "tty"@][k],
            )[(i - 2) % 3]);
        }
    }
    assert(no_pivot(root_base_steps(path)));
    assert(no_pivot(root_bind_steps(path, home)));
    assert(no_pivot(sys_steps(path)));
    assert(no_pivot(root_final_steps(path)));
    lemma_no_pivot_append(root_base_steps(path), d);
    lemma_no_pivot_append(root_base_steps(path) + d, root_bind_steps(path, home));
    lemma_no_pivot_append(root_base_steps(path) + d + root_bind_steps(path, home), sys_steps(path));
    lemma_no_pivot_append(
        root_base_steps(path) + d + root_bind_steps(path, home) + sys_steps(path),
        root_final_steps(path),
    );
}

/// The root is pivoted once, into directories made before: the new root and
/// the directory that receives the old root are both created by earlier
/// steps, and the latter lies inside the former.
pub proof fn lemma_pivot_into_created_dirs(home: Seq<char>)
    ensures
        exists|i: int|
            0 <= i < new_root_steps(home).len() && (#[trigger] pivot_of(new_root_steps(home)[i])) is Some,
        forall|i: int|
            0 <= i < new_root_steps(home).len() && (#[trigger] pivot_of(new_root_steps(home)[i])) is Some
                ==> ({
                let (new_root, put_old) = pivot_of(new_root_steps(home)[i])->0;
                &&& created_before(new_root_steps(home), i, new_root)
                &&& created_before(new_root_steps(home), i, put_old)
                &&& (new_root + "/"@).is_prefix_of(put_old)
            }),
{
    let s = new_root_steps(home);
    let root = root_steps("/"@, home);
    lemma_root_has_no_pivot("/"@, home);
    reveal_strlit("/tmp/newroot");
    reveal_strlit("/tmp/newroot/oldroot");
    reveal_strlit("/");
    assert(pivot_of(s[5]) is Some);
    assert(("/tmp/newroot"@ + "/"@).subrange(0, 13) =~= "/tmp/newroot/oldroot"@.subrange(0, 13));
    assert forall|i: int| 0 <= i < s.len() && (#[trigger] pivot_of(s[i])) is Some implies i == 5 by {
        if i >= 7 && i < 7 + root.len() {
            assert(s[i] == root[i - 7]);
        } else if i >= 7 + root.len() {
            assert(s[i] == s.skip(7 + root.len() as int)[i - 7 - root.len()]);
        }
    }
    assert(s[1] == StepSpec::CreateDirAll("/tmp/newroot"@));
    assert(s[4] == StepSpec::CreateDirAll("/tmp/newroot/oldroot"@));
}

/// A bind mount makes a missing target first, the same way whether or not it
/// is read-only: nothing when the target exists; the directory itself when
/// the source is a directory; the parent directory and then an empty file
/// when it is not. It ends with the one bind of `from` onto `to`, read-only
/// exactly when asked.
pub proof fn lemma_bind_creates_missing_target(
    from: Seq<char>,
    to: Seq<char>,
    readonly: bool,
    to_exists: bool,
    from_is_dir: bool,
    parent: Seq<char>,
)
    ensures
        ({
            let s = bind_steps(from, to, readonly, to_exists, from_is_dir, parent);
            &&& s.len() >= 1
            &&& s.last() matches StepSpec::Mount(m) && m.source == Some(from) && m.target == to
                && m.fstype is None && m.flags.bind && m.flags.rdonly == readonly
            &&& to_exists ==> s.len() == 1
            &&& !to_exists && from_is_dir ==> s.len() == 2 && s[0] == StepSpec::CreateDirAll(to)
            &&& !to_exists && !from_is_dir ==> s.len() == 3 && s[0] == StepSpec::CreateDirAll(parent)
                && s[1] == StepSpec::CreateFile(to)
            &&& s.drop_last() == bind_steps(from, to, !readonly, to_exists, from_is_dir, parent).drop_last()
        }),
{
    let s = bind_steps(from, to, readonly, to_exists, from_is_dir, parent);
    let t = bind_steps(from, to, !readonly, to_exists, from_is_dir, parent);
    assert(s.drop_last() =~= t.drop_last());
}

} // verus!
