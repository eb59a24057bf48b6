//! What the inner process does, in order, between the second fork and the
//! `exec` of the user command.
use vstd::prelude::*;
use vstd::string::StringSliceAdditionalSpecFns;
use crate::decimal::{parse_decimal, spec_parse_decimal};
use crate::sandbox::{
    bytes_of, join_path, no_flags, root_plan, sand_dir, spec_root_plan, steps_view, layers_view, MountFlags,
    OverlayDirs, SetupStep, StepModel,
};

verus! {

/// Account the user command runs as.
pub open spec fn spec_sandbox_user() -> Seq<char> {
    "library-checker-user"@
}

/// Name of the account the user command runs as.
pub fn sandbox_user() -> (r: &'static str)
    ensures
        r@ == spec_sandbox_user(),
{
    "library-checker-user"
}

/// One step of the inner process.
pub enum InnerStep {
    /// A filesystem operation.
    Fs(SetupStep),
    /// Attach this process to the resource group.
    JoinGroup,
    /// Lift the stack size limit.
    RaiseStackLimit,
    ChangeDir(Vec<u8>),
    ChangeRoot(Vec<u8>),
    /// Switch group, then user, to the sandbox account.
    DropPrivileges,
    UnsetEnv(String),
    SetEnv(String, String),
    /// Write the start byte that starts the clock.
    SignalStart,
    /// Replace this process with the user command.
    Exec,
}

/// What an `InnerStep` does, over plain sequences.
pub enum InnerModel {
    Fs(StepModel),
    JoinGroup,
    RaiseStackLimit,
    ChangeDir(Seq<u8>),
    ChangeRoot(Seq<u8>),
    DropPrivileges,
    UnsetEnv(Seq<char>),
    SetEnv(Seq<char>, Seq<char>),
    SignalStart,
    Exec,
}

impl View for InnerStep {
    type V = InnerModel;

    open spec fn view(&self) -> InnerModel {
        match self {
            InnerStep::Fs(s) => InnerModel::Fs(s@),
            InnerStep::JoinGroup => InnerModel::JoinGroup,
            InnerStep::RaiseStackLimit => InnerModel::RaiseStackLimit,
            InnerStep::ChangeDir(p) => InnerModel::ChangeDir(p@),
            InnerStep::ChangeRoot(p) => InnerModel::ChangeRoot(p@),
            InnerStep::DropPrivileges => InnerModel::DropPrivileges,
            InnerStep::UnsetEnv(k) => InnerModel::UnsetEnv(k@),
            InnerStep::SetEnv(k, v) => InnerModel::SetEnv(k@, v@),
            InnerStep::SignalStart => InnerModel::SignalStart,
            InnerStep::Exec => InnerModel::Exec,
        }
    }
}

pub open spec fn inner_view(v: Seq<InnerStep>) -> Seq<InnerModel> {
    v.map_values(|s: InnerStep| s@)
}

pub open spec fn as_fs(v: Seq<StepModel>) -> Seq<InnerModel> {
    v.map_values(|s: StepModel| InnerModel::Fs(s))
}

/// Makes mount propagation private, then replaces `/proc` with a fresh
/// procfs of the new PID namespace.
pub open spec fn namespace_preamble() -> Seq<StepModel> {
    seq![
        StepModel::Mount {
            source: None,
            target: "/".spec_bytes(),
            fstype: None,
            flags: MountFlags { recursive: true, private: true, ..no_flags() },
            data: None,
        },
        StepModel::Mount {
            source: Some("none".spec_bytes()),
            target: "/proc".spec_bytes(),
            fstype: None,
            flags: MountFlags { recursive: true, private: true, ..no_flags() },
            data: None,
        },
        StepModel::Mount {
            source: Some("proc".spec_bytes()),
            target: "/proc".spec_bytes(),
            fstype: Some("proc".spec_bytes()),
            flags: MountFlags { no_suid: true, no_exec: true, no_dev: true, ..no_flags() },
            data: None,
        },
    ]
}

/// The steps after the sandbox root is built: join the group while still
/// privileged, lift the stack limit, enter the root, drop privileges, fix
/// the environment, signal the start, and exec.
pub open spec fn confinement(temp: Seq<u8>) -> Seq<InnerModel> {
    seq![
        InnerModel::JoinGroup,
        InnerModel::RaiseStackLimit,
        InnerModel::ChangeDir(sand_dir(temp)),
        InnerModel::ChangeRoot("..".spec_bytes()),
        InnerModel::DropPrivileges,
        InnerModel::UnsetEnv("TMPDIR"@),
        InnerModel::SetEnv("HOME"@, "/home/library-checker-user"@),
        InnerModel::SignalStart,
        InnerModel::Exec,
    ]
}

/// The whole life of the inner process up to `exec`.
pub open spec fn spec_inner_plan(
    temp: Seq<u8>,
    workdir: Seq<u8>,
    layers: Option<(Seq<u8>, Seq<u8>)>,
) -> Seq<InnerModel> {
    as_fs(namespace_preamble()) + as_fs(spec_root_plan(temp, workdir, layers)) + confinement(temp)
}

fn push_inner(v: &mut Vec<InnerStep>, s: InnerStep)
    ensures
        inner_view(final(v)@) == inner_view(old(v)@).push(s@),
{
    let ghost m = s@;
    v.push(s);
    assert(inner_view(v@) =~= inner_view(old(v)@).push(m));
}

/// Moves filesystem steps, in order, to the end of `out`.
fn append_fs(out: &mut Vec<InnerStep>, steps: Vec<SetupStep>)
    ensures
        inner_view(final(out)@) == inner_view(old(out)@) + as_fs(steps_view(steps@)),
{
    let ghost all = steps_view(steps@);
    let mut rest = steps;
    let ghost n = rest@.len() as int;
    let ghost mut k: int = 0;
    while rest.len() > 0
        invariant
            0 <= k <= n == all.len(),
            k + rest@.len() == n,
            steps_view(rest@) == all.subrange(k, n),
            inner_view(out@) == inner_view(old(out)@) + as_fs(all.subrange(0, k)),
        decreases rest@.len(),
    {
        let ghost before = rest@;
        let s = rest.remove(0);
        assert(steps_view(before)[0] == all[k]);
        assert(rest@ =~= before.subrange(1, before.len() as int));
        assert(steps_view(rest@) =~= steps_view(before).subrange(1, before.len() as int));
        assert(steps_view(rest@) =~= all.subrange(k + 1, n));
        push_inner(out, InnerStep::Fs(s));
        assert(as_fs(all.subrange(0, k + 1)) =~= as_fs(all.subrange(0, k)).push(InnerModel::Fs(all[k])));
        proof {
            k = k + 1;
        }
    }
    assert(all.subrange(0, k) =~= all);
}

fn private_flags() -> (r: MountFlags)
    ensures
        r == (MountFlags { recursive: true, private: true, ..no_flags() }),
{
    MountFlags {
        bind: false,
        read_only: false,
        recursive: true,
        private: true,
        no_suid: false,
        no_exec: false,
        no_dev: false,
    }
}

/// The steps of the inner process for a sandbox under `temp` with the
/// given workdir, overlaid copy-on-write when `layers` is given.
pub fn inner_plan(temp: &Vec<u8>, workdir: &Vec<u8>, layers: &Option<OverlayDirs>) -> (r: Vec<
    InnerStep,
>)
    ensures
        inner_view(r@) == spec_inner_plan(temp@, workdir@, layers_view(*layers)),
{
    let mut pre: Vec<SetupStep> = Vec::new();
    pre.push(SetupStep::Mount {
        source: None,
        target: bytes_of("/"),
        fstype: None,
        flags: private_flags(),
        data: None,
    });
    pre.push(SetupStep::Mount {
        source: Some(bytes_of("none")),
        target: bytes_of("/proc"),
        fstype: None,
        flags: private_flags(),
        data: None,
    });
    pre.push(SetupStep::Mount {
        source: Some(bytes_of("proc")),
        target: bytes_of("/proc"),
        fstype: Some(bytes_of("proc")),
        flags: MountFlags {
            bind: false,
            read_only: false,
            recursive: false,
            private: false,
            no_suid: true,
            no_exec: true,
            no_dev: true,
        },
        data: None,
    });
    assert(steps_view(pre@) =~= namespace_preamble());
    let mut r: Vec<InnerStep> = Vec::new();
    append_fs(&mut r, pre);
    append_fs(&mut r, root_plan(temp, workdir, layers));
    let ghost head = inner_view(r@);
    let root_sand = join_path(&join_path(temp, "root"), "sand");
    push_inner(&mut r, InnerStep::JoinGroup);
    push_inner(&mut r, InnerStep::RaiseStackLimit);
    push_inner(&mut r, InnerStep::ChangeDir(root_sand));
    push_inner(&mut r, InnerStep::ChangeRoot(bytes_of("..")));
    push_inner(&mut r, InnerStep::DropPrivileges);
    push_inner(&mut r, InnerStep::UnsetEnv("TMPDIR".to_owned()));
    push_inner(&mut r, InnerStep::SetEnv("HOME".to_owned(), "/home/library-checker-user".to_owned()));
    push_inner(&mut r, InnerStep::SignalStart);
    push_inner(&mut r, InnerStep::Exec);
    assert(inner_view(r@) =~= head + confinement(temp@));
    r
}

/// The order that keeps the sandbox sound: mount propagation is made
/// private before anything is mounted; the resource group is joined while
/// the process is still privileged; the start byte is written after
/// privileges are dropped and immediately before `exec`; and nothing but
/// filesystem steps comes before the group is joined.
pub proof fn lemma_inner_order(temp: Seq<u8>, workdir: Seq<u8>, layers: Option<(Seq<u8>, Seq<u8>)>)
    ensures
        ({
            let p = spec_inner_plan(temp, workdir, layers);
            let n = p.len() as int;
            &&& n >= 12
            &&& p[0] == InnerModel::Fs(namespace_preamble()[0])
            &&& namespace_preamble()[0] matches StepModel::Mount { flags, .. } && flags.private
                && flags.recursive
            &&& p[n - 9] == InnerModel::JoinGroup
            &&& p[n - 5] == InnerModel::DropPrivileges
            &&& p[n - 2] == InnerModel::SignalStart
            &&& p[n - 1] == InnerModel::Exec
            &&& forall|i: int| 0 <= i < n - 9 ==> (#[trigger] p[i]) is Fs
        }),
{
    let a = as_fs(namespace_preamble());
    let b = as_fs(spec_root_plan(temp, workdir, layers));
    let c = confinement(temp);
    let p = spec_inner_plan(temp, workdir, layers);
    assert(p == a + b + c);
    assert forall|i: int| 0 <= i < p.len() - 9 implies (#[trigger] p[i]) is Fs by {
        if i < a.len() {
            assert(p[i] == a[i]);
        } else {
            assert(p[i] == b[i - a.len()]);
        }
    }
}

/// Reads a user or group id from the output of `id`.
pub fn parse_id(text: &[u8]) -> (r: Option<u32>)
    ensures
        r matches Some(v) ==> spec_parse_decimal(text@, u32::MAX as nat) == Some(v as nat),
        r is None ==> spec_parse_decimal(text@, u32::MAX as nat) is None,
{
    match parse_decimal(text, u32::MAX as u64) {
        Some(v) => Some(v as u32),
        None => None,
    }
}

} // verus!
