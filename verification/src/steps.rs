use vstd::prelude::*;

verus! {

/// The mount flags that the sandbox asks for, one field per flag.
#[derive(Clone, Copy, PartialEq, Eq, Structural, Debug)]
pub struct MountFlags {
    pub rec: bool,
    pub private: bool,
    pub slave: bool,
    pub silent: bool,
    pub bind: bool,
    pub nosuid: bool,
    pub nodev: bool,
    pub noexec: bool,
    pub rdonly: bool,
    pub mgc_val: bool,
}

/// The empty flag set.
pub open spec fn no_flags() -> MountFlags {
    MountFlags {
        rec: false,
        private: false,
        slave: false,
        silent: false,
        bind: false,
        nosuid: false,
        nodev: false,
        noexec: false,
        rdonly: false,
        mgc_val: false,
    }
}

impl MountFlags {
    /// A flag set with no flag raised.
    pub fn none() -> (r: MountFlags)
        ensures
            r == no_flags(),
    {
        MountFlags {
            rec: false,
            private: false,
            slave: false,
            silent: false,
            bind: false,
            nosuid: false,
            nodev: false,
            noexec: false,
            rdonly: false,
            mgc_val: false,
        }
    }
}

/// One call of `mount(2)`.
#[derive(Clone, Debug, PartialEq, Eq)]
pub struct MountRequest {
    pub source: Option<String>,
    pub target: String,
    pub fstype: Option<String>,
    pub flags: MountFlags,
    pub data: Option<String>,
}

/// A mount request over character sequences.
pub struct MountSpec {
    pub source: Option<Seq<char>>,
    pub target: Seq<char>,
    pub fstype: Option<Seq<char>>,
    pub flags: MountFlags,
    pub data: Option<Seq<char>>,
}

pub open spec fn opt_view(o: Option<String>) -> Option<Seq<char>> {
    match o {
        Some(s) => Some(s@),
        None => None,
    }
}

impl View for MountRequest {
    type V = MountSpec;

    open spec fn view(&self) -> MountSpec {
        MountSpec {
            source: opt_view(self.source),
            target: self.target@,
            fstype: opt_view(self.fstype),
            flags: self.flags,
            data: opt_view(self.data),
        }
    }
}

/// One step of preparing the sandbox's filesystem. The last four variants
/// depend on what the host holds when the step runs: the functions of
/// `setup` that take those facts expand them into plain steps.
#[derive(Clone, Debug, PartialEq, Eq)]
pub enum SetupStep {
    Mount(MountRequest),
    CreateDirAll(String),
    SetMode { path: String, mode: u32 },
    WriteFile { path: String, contents: String },
    CreateFile(String),
    Symlink { original: String, link: String },
    PivotRoot { new_root: String, put_old: String },
    Chdir(String),
    UnmountDetached(String),
    RemoveDirAll(String),
    BindMount { from: String, to: String, readonly: bool },
    BindIfPresent { from: String, to: String },
    BindHome { home: String, to: String },
}

/// A setup step over character sequences.
pub enum StepSpec {
    Mount(MountSpec),
    CreateDirAll(Seq<char>),
    SetMode { path: Seq<char>, mode: u32 },
    WriteFile { path: Seq<char>, contents: Seq<char> },
    CreateFile(Seq<char>),
    Symlink { original: Seq<char>, link: Seq<char> },
    PivotRoot { new_root: Seq<char>, put_old: Seq<char> },
    Chdir(Seq<char>),
    UnmountDetached(Seq<char>),
    RemoveDirAll(Seq<char>),
    BindMount { from: Seq<char>, to: Seq<char>, readonly: bool },
    BindIfPresent { from: Seq<char>, to: Seq<char> },
    BindHome { home: Seq<char>, to: Seq<char> },
}

impl View for SetupStep {
    type V = StepSpec;

    open spec fn view(&self) -> StepSpec {
        match self {
            SetupStep::Mount(m) => StepSpec::Mount(m@),
            SetupStep::CreateDirAll(p) => StepSpec::CreateDirAll(p@),
            SetupStep::SetMode { path, mode } => StepSpec::SetMode { path: path@, mode: *mode },
            SetupStep::WriteFile { path, contents } => StepSpec::WriteFile {
                path: path@,
                contents: contents@,
            },
            SetupStep::CreateFile(p) => StepSpec::CreateFile(p@),
            SetupStep::Symlink { original, link } => StepSpec::Symlink {
                original: original@,
                link: link@,
            },
            SetupStep::PivotRoot { new_root, put_old } => StepSpec::PivotRoot {
                new_root: new_root@,
                put_old: put_old@,
            },
            SetupStep::Chdir(p) => StepSpec::Chdir(p@),
            SetupStep::UnmountDetached(p) => StepSpec::UnmountDetached(p@),
            SetupStep::RemoveDirAll(p) => StepSpec::RemoveDirAll(p@),
            SetupStep::BindMount { from, to, readonly } => StepSpec::BindMount {
                from: from@,
                to: to@,
                readonly: *readonly,
            },
            SetupStep::BindIfPresent { from, to } => StepSpec::BindIfPresent {
                from: from@,
                to: to@,
            },
            SetupStep::BindHome { home, to } => StepSpec::BindHome { home: home@, to: to@ },
        }
    }
}

/// The steps of a list, each taken by its view.
pub open spec fn steps_view(v: Seq<SetupStep>) -> Seq<StepSpec> {
    v.map_values(|s: SetupStep| s@)
}

/// Appends one step.
pub fn push_step(steps: &mut Vec<SetupStep>, s: SetupStep)
    ensures
        steps_view(final(steps)@) == steps_view(old(steps)@).push(s@),
{
    let ghost s_view = s@;
    steps.push(s);
    assert(steps_view(steps@) =~= steps_view(old(steps)@).push(s_view));
}

/// Appends every step of `more`, in order.
pub fn append_steps(steps: &mut Vec<SetupStep>, more: Vec<SetupStep>)
    ensures
        steps_view(final(steps)@) == steps_view(old(steps)@) + steps_view(more@),
{
    let mut more = more;
    let ghost more_view = steps_view(more@);
    steps.append(&mut more);
    assert(steps_view(steps@) =~= steps_view(old(steps)@) + more_view);
}

} // verus!
