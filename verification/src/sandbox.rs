use vstd::prelude::*;

verus! {

/// A sandbox: its home and how that home is stored, whether it gets a `/proc`
/// of its own, and the directories, mounts and links it is made of.
pub struct Sandbox {
    home_path: String,
    home_type: FileSystemType,
    isolate_proc: bool,
    directories: Vec<String>,
    mounts: Vec<Mount>,
    symlinks: Vec<Symlink>,
}

/// A symbolic link of the sandbox.
pub struct Symlink {
    to: String,
    from: String,
}

/// How a sandbox's home directory is stored.
pub enum FileSystemType {
    RawFolder,
    GoCryptFS,
    CryFS,
}

/// A mount of the sandbox: a host path, where it appears, and whether it is
/// read-only.
pub struct Mount {
    from: String,
    to: String,
    readonly: bool,
}

impl Mount {
    pub closed spec fn spec_from(&self) -> Seq<char> {
        self.from@
    }

    pub closed spec fn spec_to(&self) -> Seq<char> {
        self.to@
    }

    pub closed spec fn spec_readonly(&self) -> bool {
        self.readonly
    }

    pub fn new(from: String, to: String, readonly: bool) -> (m: Mount)
        ensures
            m.spec_from() == from@,
            m.spec_to() == to@,
            m.spec_readonly() == readonly,
    {
        Mount { from, to, readonly }
    }
}

} // verus!
