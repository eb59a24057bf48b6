//! The resource group that caps the command's CPU, memory and process
//! count: the commands that reset and configure it, and the files that
//! attach a process to it.
use vstd::prelude::*;
use crate::decimal::{decimal, push_decimal};

verus! {

/// One operation of the resource-group protocol.
pub enum CgroupStep {
    /// Run a command; when `must_succeed`, a failure ends the execution.
    Run { argv: Vec<String>, must_succeed: bool },
    /// Replace the contents of the file at `path` with `contents`.
    Write { path: String, contents: Vec<u8> },
}

/// What a `CgroupStep` does, over plain sequences.
pub enum CgroupModel {
    Run(Seq<Seq<char>>, bool),
    Write(Seq<char>, Seq<u8>),
}

impl View for CgroupStep {
    type V = CgroupModel;

    open spec fn view(&self) -> CgroupModel {
        match self {
            CgroupStep::Run { argv, must_succeed } => CgroupModel::Run(
                argv@.map_values(|s: String| s@),
                *must_succeed,
            ),
            CgroupStep::Write { path, contents } => CgroupModel::Write(path@, contents@),
        }
    }
}

pub open spec fn cgroup_view(v: Seq<CgroupStep>) -> Seq<CgroupModel> {
    v.map_values(|s: CgroupStep| s@)
}

/// The group, named in each of the three controllers.
pub open spec fn group_spec() -> Seq<char> {
    "pids,cpuset,memory:/lib-judge"@
}

/// One limit setting of the group.
pub open spec fn setting(i: int) -> Seq<char> {
    if i == 0 {
        "pids.max=1000"@
    } else if i == 1 {
        "cpuset.cpus=0"@
    } else if i == 2 {
        "cpuset.mems=0"@
    } else if i == 3 {
        "memory.limit_in_bytes=1G"@
    } else {
        "memory.memsw.limit_in_bytes=1G"@
    }
}

/// The membership file of the group in one controller.
pub open spec fn procs_file(i: int) -> Seq<char> {
    if i == 0 {
        "/sys/fs/cgroup/pids/lib-judge/cgroup.procs"@
    } else if i == 1 {
        "/sys/fs/cgroup/cpuset/lib-judge/cgroup.procs"@
    } else {
        "/sys/fs/cgroup/memory/lib-judge/cgroup.procs"@
    }
}

/// The protocol for process `pid`: delete any leftover group (its failure
/// ignored), create the group, apply the five limits, then write the pid
/// followed by a newline into the membership file of each controller.
pub open spec fn spec_cgroup_plan(pid: u32) -> Seq<CgroupModel> {
    seq![
        CgroupModel::Run(seq!["cgdelete"@, group_spec()], false),
        CgroupModel::Run(seq!["cgcreate"@, "-g"@, group_spec()], true),
        CgroupModel::Run(seq!["cgset"@, "-r"@, setting(0), "/lib-judge"@], true),
        CgroupModel::Run(seq!["cgset"@, "-r"@, setting(1), "/lib-judge"@], true),
        CgroupModel::Run(seq!["cgset"@, "-r"@, setting(2), "/lib-judge"@], true),
        CgroupModel::Run(seq!["cgset"@, "-r"@, setting(3), "/lib-judge"@], true),
        CgroupModel::Run(seq!["cgset"@, "-r"@, setting(4), "/lib-judge"@], true),
        CgroupModel::Write(procs_file(0), decimal(pid as nat) + seq![0x0au8]),
        CgroupModel::Write(procs_file(1), decimal(pid as nat) + seq![0x0au8]),
        CgroupModel::Write(procs_file(2), decimal(pid as nat) + seq![0x0au8]),
    ]
}

fn setting_text(i: usize) -> (r: &'static str)
    requires
        i < 5,
    ensures
        r@ == setting(i as int),
{
    if i == 0 {
        "pids.max=1000"
    } else if i == 1 {
        "cpuset.cpus=0"
    } else if i == 2 {
        "cpuset.mems=0"
    } else if i == 3 {
        "memory.limit_in_bytes=1G"
    } else {
        "memory.memsw.limit_in_bytes=1G"
    }
}

fn procs_file_text(i: usize) -> (r: &'static str)
    requires
        i < 3,
    ensures
        r@ == procs_file(i as int),
{
    if i == 0 {
        "/sys/fs/cgroup/pids/lib-judge/cgroup.procs"
    } else if i == 1 {
        "/sys/fs/cgroup/cpuset/lib-judge/cgroup.procs"
    } else {
        "/sys/fs/cgroup/memory/lib-judge/cgroup.procs"
    }
}

fn push_run(v: &mut Vec<CgroupStep>, argv: Vec<String>, must_succeed: bool)
    ensures
        cgroup_view(final(v)@) == cgroup_view(old(v)@).push(
            CgroupModel::Run(argv@.map_values(|s: String| s@), must_succeed),
        ),
{
    let ghost m = argv@.map_values(|s: String| s@);
    v.push(CgroupStep::Run { argv, must_succeed });
    assert(cgroup_view(v@) =~= cgroup_view(old(v)@).push(CgroupModel::Run(m, must_succeed)));
}

/// The resource-group protocol for the process `pid`.
pub fn cgroup_plan(pid: u32) -> (r: Vec<CgroupStep>)
    ensures
        cgroup_view(r@) == spec_cgroup_plan(pid),
{
    let mut r: Vec<CgroupStep> = Vec::new();
    let group = "pids,cpuset,memory:/lib-judge";
    let delete = vec!["cgdelete".to_owned(), group.to_owned()];
    assert(delete@.map_values(|s: String| s@) =~= seq!["cgdelete"@, group_spec()]);
    push_run(&mut r, delete, false);
    let create = vec!["cgcreate".to_owned(), "-g".to_owned(), group.to_owned()];
    assert(create@.map_values(|s: String| s@) =~= seq!["cgcreate"@, "-g"@, group_spec()]);
    push_run(&mut r, create, true);
    let mut i: usize = 0;
    while i < 5
        invariant
            i <= 5,
            cgroup_view(r@) == spec_cgroup_plan(pid).subrange(0, 2 + i),
        decreases 5 - i,
    {
        let set = vec!["cgset".to_owned(), "-r".to_owned(), setting_text(i).to_owned(), "/lib-judge".to_owned()];
        assert(set@.map_values(|s: String| s@) =~= seq!["cgset"@, "-r"@, setting(i as int), "/lib-judge"@]);
        push_run(&mut r, set, true);
        assert(cgroup_view(r@) =~= spec_cgroup_plan(pid).subrange(0, 2 + i + 1));
        i = i + 1;
    }
    let mut j: usize = 0;
    while j < 3
        invariant
            j <= 3,
            cgroup_view(r@) == spec_cgroup_plan(pid).subrange(0, 7 + j),
        decreases 3 - j,
    {
        let mut contents: Vec<u8> = Vec::new();
        push_decimal(&mut contents, pid as u64);
        contents.push(0x0au8);
        assert(contents@ =~= decimal(pid as nat) + seq![0x0au8]);
        let ghost m = CgroupModel::Write(procs_file(j as int), contents@);
        let ghost prev = cgroup_view(r@);
        let path = procs_file_text(j).to_owned();
        let step = CgroupStep::Write { path, contents };
        assert(step@ == m);
        r.push(step);
        assert(cgroup_view(r@) =~= prev.push(m));
        assert(cgroup_view(r@) =~= spec_cgroup_plan(pid).subrange(0, 7 + j + 1));
        j = j + 1;
    }
    assert(spec_cgroup_plan(pid).subrange(0, 10) =~= spec_cgroup_plan(pid));
    r
}

} // verus!
