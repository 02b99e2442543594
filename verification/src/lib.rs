//! Verified planning for a namespace sandbox: the paths it builds, the
//! filesystem steps that prepare the new root, the mount flags it asks for,
//! the identity maps it writes and the way it reaps its children.

/// Joining paths.
pub mod paths;
/// Decimal writing of numbers.
pub mod text;
/// Setup steps, mount requests and mount flags.
pub mod steps;
/// The sandbox's own description: mounts, links and home storage.
pub mod sandbox;
/// The steps that build the sandbox's root, and the expansion of the steps
/// that depend on what the host holds.
pub mod setup;
/// Entering the new root, and the identity maps of the user namespace.
pub mod launch;
/// Reaping children and passing on their exit status.
pub mod reaper;
/// Properties of the whole setup plan.
pub mod plan_laws;
