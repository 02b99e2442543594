use sandbox::launch::{
    id_map_writes, map_writer_steps, privilege_drop_steps, shell_steps, user_namespace_steps,
    Namespaces, ProcessStep, SANDBOX_ID,
};
use sandbox::steps::SetupStep;

#[test]
fn child_enters_user_namespace_then_waits_for_maps() {
    assert_eq!(
        user_namespace_steps(),
        vec![
            ProcessStep::Unshare(Namespaces { user: true, mount: false, pid: false, uts: false, ipc: false }),
            ProcessStep::DropBoundingCapabilities,
            ProcessStep::NotifyPeer,
            ProcessStep::AwaitPeer,
            ProcessStep::Unshare(Namespaces { user: false, mount: true, pid: true, uts: true, ipc: true }),
        ]
    );
}

#[test]
fn parent_writes_maps_between_wait_and_answer() {
    let steps = map_writer_steps(321, 1001, 100);
    let mut expected = vec![ProcessStep::AwaitPeer];
    expected.extend(id_map_writes(321, 1001, 100).into_iter().map(ProcessStep::Filesystem));
    expected.push(ProcessStep::NotifyPeer);
    assert_eq!(steps, expected);
    assert_eq!(
        steps[1],
        ProcessStep::Filesystem(SetupStep::WriteFile {
            path: "/proc/321/setgroups".to_string(),
            contents: "deny".to_string(),
        })
    );
}

#[test]
fn sandbox_becomes_the_mapped_user() {
    assert_eq!(SANDBOX_ID, 1000);
    assert_eq!(
        privilege_drop_steps(),
        vec![ProcessStep::SetGid(1000), ProcessStep::SetUid(1000), ProcessStep::SetDumpable]
    );
}

#[test]
fn shell_runs_without_new_privileges() {
    assert_eq!(
        shell_steps(),
        vec![ProcessStep::SetNoNewPrivs, ProcessStep::Exec("/usr/bin/bash".to_string())]
    );
}
