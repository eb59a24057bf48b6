//! The sandbox root: the ordered list of directories, modes and mounts that
//! make up the view a command sees after `chroot`.
use vstd::prelude::*;
use vstd::string::StringSliceAdditionalSpecFns;

verus! {

/// Mode of every directory the unprivileged command must be able to enter
/// or write.
pub const OPEN_MODE: u32 = 0o777;

/// Number of host directories bound read-only into the sandbox root.
pub const SYSTEM_DIR_COUNT: usize = 11;

/// Mount options, one field per flag.
#[derive(Clone, Copy, Debug, PartialEq, Eq, Structural)]
pub struct MountFlags {
    pub bind: bool,
    pub read_only: bool,
    pub recursive: bool,
    pub private: bool,
    pub no_suid: bool,
    pub no_exec: bool,
    pub no_dev: bool,
}

pub open spec fn no_flags() -> MountFlags {
    MountFlags {
        bind: false,
        read_only: false,
        recursive: false,
        private: false,
        no_suid: false,
        no_exec: false,
        no_dev: false,
    }
}

pub open spec fn bind_flags(read_only: bool) -> MountFlags {
    MountFlags { bind: true, read_only, ..no_flags() }
}

fn flags(bind: bool, read_only: bool) -> (r: MountFlags)
    ensures
        r == (MountFlags { bind, read_only, ..no_flags() }),
{
    MountFlags {
        bind,
        read_only,
        recursive: false,
        private: false,
        no_suid: false,
        no_exec: false,
        no_dev: false,
    }
}

/// One filesystem operation; paths are raw bytes.
pub enum SetupStep {
    CreateDir { path: Vec<u8> },
    SetMode { path: Vec<u8>, mode: u32 },
    Mount {
        source: Option<Vec<u8>>,
        target: Vec<u8>,
        fstype: Option<Vec<u8>>,
        flags: MountFlags,
        data: Option<Vec<u8>>,
    },
}

/// What a `SetupStep` does, over byte sequences.
pub enum StepModel {
    CreateDir(Seq<u8>),
    SetMode(Seq<u8>, u32),
    Mount {
        source: Option<Seq<u8>>,
        target: Seq<u8>,
        fstype: Option<Seq<u8>>,
        flags: MountFlags,
        data: Option<Seq<u8>>,
    },
}

pub open spec fn opt_bytes(o: Option<Vec<u8>>) -> Option<Seq<u8>> {
    match o {
        Some(v) => Some(v@),
        None => None,
    }
}

impl View for SetupStep {
    type V = StepModel;

    open spec fn view(&self) -> StepModel {
        match self {
            SetupStep::CreateDir { path } => StepModel::CreateDir(path@),
            SetupStep::SetMode { path, mode } => StepModel::SetMode(path@, *mode),
            SetupStep::Mount { source, target, fstype, flags, data } => StepModel::Mount {
                source: opt_bytes(*source),
                target: target@,
                fstype: opt_bytes(*fstype),
                flags: *flags,
                data: opt_bytes(*data),
            },
        }
    }
}

pub open spec fn steps_view(v: Seq<SetupStep>) -> Seq<StepModel> {
    v.map_values(|s: SetupStep| s@)
}

/// `dir/name`.
pub open spec fn join(dir: Seq<u8>, name: Seq<u8>) -> Seq<u8> {
    dir + seq![0x2fu8] + name
}

/// Appends the bytes of `s` to `dst`.
pub(crate) fn append_str(dst: &mut Vec<u8>, s: &str)
    ensures
        final(dst)@ == old(dst)@ + s.spec_bytes(),
{
    let b = s.as_bytes();
    let mut i: usize = 0;
    while i < b.len()
        invariant
            i <= b@.len(),
            b@ == s.spec_bytes(),
            dst@ == old(dst)@ + b@.subrange(0, i as int),
        decreases b@.len() - i,
    {
        dst.push(b[i]);
        assert(dst@ =~= old(dst)@ + b@.subrange(0, i + 1));
        i = i + 1;
    }
    assert(b@.subrange(0, i as int) =~= b@);
}

/// Appends `src` to `dst`.
fn append_bytes(dst: &mut Vec<u8>, src: &Vec<u8>)
    ensures
        final(dst)@ == old(dst)@ + src@,
{
    let mut i: usize = 0;
    while i < src.len()
        invariant
            i <= src@.len(),
            dst@ == old(dst)@ + src@.subrange(0, i as int),
        decreases src@.len() - i,
    {
        dst.push(src[i]);
        assert(dst@ =~= old(dst)@ + src@.subrange(0, i + 1));
        i = i + 1;
    }
    assert(src@.subrange(0, i as int) =~= src@);
}

/// The path `dir/name`.
pub fn join_path(dir: &Vec<u8>, name: &str) -> (r: Vec<u8>)
    ensures
        r@ == join(dir@, name.spec_bytes()),
{
    let mut r = dir.clone();
    r.push(0x2fu8);
    append_str(&mut r, name);
    r
}

/// The bytes of `s`.
pub(crate) fn bytes_of(s: &str) -> (r: Vec<u8>)
    ensures
        r@ == s.spec_bytes(),
{
    let mut r: Vec<u8> = Vec::new();
    append_str(&mut r, s);
    assert(r@ =~= s.spec_bytes());
    r
}

/// Host directories made visible, read-only, inside the sandbox.
pub open spec fn system_dir(i: int) -> Seq<u8> {
    if i == 0 {
        "dev".spec_bytes()
    } else if i == 1 {
        "sys".spec_bytes()
    } else if i == 2 {
        "bin".spec_bytes()
    } else if i == 3 {
        "sbin".spec_bytes()
    } else if i == 4 {
        "lib".spec_bytes()
    } else if i == 5 {
        "lib64".spec_bytes()
    } else if i == 6 {
        "usr".spec_bytes()
    } else if i == 7 {
        "etc".spec_bytes()
    } else if i == 8 {
        "opt".spec_bytes()
    } else if i == 9 {
        "var".spec_bytes()
    } else {
        "home".spec_bytes()
    }
}

fn system_dir_name(i: usize) -> (r: &'static str)
    requires
        i < SYSTEM_DIR_COUNT,
    ensures
        r.spec_bytes() == system_dir(i as int),
{
    if i == 0 {
        "dev"
    } else if i == 1 {
        "sys"
    } else if i == 2 {
        "bin"
    } else if i == 3 {
        "sbin"
    } else if i == 4 {
        "lib"
    } else if i == 5 {
        "lib64"
    } else if i == 6 {
        "usr"
    } else if i == 7 {
        "etc"
    } else if i == 8 {
        "opt"
    } else if i == 9 {
        "var"
    } else {
        "home"
    }
}

/// The two directories an overlay mount writes into.
pub struct OverlayDirs {
    pub upper: Vec<u8>,
    pub work: Vec<u8>,
}

pub open spec fn layers_view(layers: Option<OverlayDirs>) -> Option<(Seq<u8>, Seq<u8>)> {
    match layers {
        Some(d) => Some((d.upper@, d.work@)),
        None => None,
    }
}

/// `T/root`, the directory that becomes `/` for the command.
pub open spec fn root_dir(temp: Seq<u8>) -> Seq<u8> {
    join(temp, "root".spec_bytes())
}

/// `T/root/sand`, where the workdir is mounted.
pub open spec fn sand_dir(temp: Seq<u8>) -> Seq<u8> {
    join(root_dir(temp), "sand".spec_bytes())
}

/// `/name` on the host.
pub open spec fn host_dir(name: Seq<u8>) -> Seq<u8> {
    seq![0x2fu8] + name
}

/// Options of the overlay mount.
pub open spec fn overlay_data(lower: Seq<u8>, upper: Seq<u8>, work: Seq<u8>) -> Seq<u8> {
    "lowerdir=".spec_bytes() + lower + ",upperdir=".spec_bytes() + upper + ",workdir=".spec_bytes()
        + work
}

/// Steps that place the workdir at `T/root/sand`: a read-write bind mount,
/// or an overlay with the workdir as its lower layer.
pub open spec fn workdir_steps(
    temp: Seq<u8>,
    workdir: Seq<u8>,
    layers: Option<(Seq<u8>, Seq<u8>)>,
) -> Seq<StepModel> {
    match layers {
        None => seq![
            StepModel::Mount {
                source: Some(workdir),
                target: sand_dir(temp),
                fstype: None,
                flags: bind_flags(false),
                data: None,
            },
        ],
        Some((upper, work)) => seq![
            StepModel::SetMode(work, OPEN_MODE),
            StepModel::SetMode(upper, OPEN_MODE),
            StepModel::Mount {
                source: None,
                target: sand_dir(temp),
                fstype: Some("overlay".spec_bytes()),
                flags: no_flags(),
                data: Some(overlay_data(workdir, upper, work)),
            },
        ],
    }
}

/// Steps that create `T/root/<d>` and bind the host's `/<d>` read-only onto
/// it, for the first `k` system directories.
pub open spec fn system_steps(root: Seq<u8>, k: nat) -> Seq<StepModel>
    decreases k,
{
    if k == 0 {
        seq![]
    } else {
        system_steps(root, (k - 1) as nat) + seq![
            StepModel::CreateDir(join(root, system_dir(k - 1))),
            StepModel::Mount {
                source: Some(host_dir(system_dir(k - 1))),
                target: join(root, system_dir(k - 1)),
                fstype: None,
                flags: bind_flags(true),
                data: None,
            },
        ]
    }
}

/// Steps for the private `/tmp` and a fresh procfs.
pub open spec fn tmp_proc_steps(root: Seq<u8>) -> Seq<StepModel> {
    seq![
        StepModel::CreateDir(join(root, "tmp".spec_bytes())),
        StepModel::SetMode(join(root, "tmp".spec_bytes()), OPEN_MODE),
        StepModel::CreateDir(join(root, "proc".spec_bytes())),
        StepModel::Mount {
            source: Some("proc".spec_bytes()),
            target: join(root, "proc".spec_bytes()),
            fstype: Some("proc".spec_bytes()),
            flags: no_flags(),
            data: None,
        },
    ]
}

/// The whole sandbox root under the temp directory `temp`, in order.
pub open spec fn spec_root_plan(
    temp: Seq<u8>,
    workdir: Seq<u8>,
    layers: Option<(Seq<u8>, Seq<u8>)>,
) -> Seq<StepModel> {
    seq![StepModel::CreateDir(root_dir(temp)), StepModel::CreateDir(sand_dir(temp))]
        + workdir_steps(temp, workdir, layers)
        + tmp_proc_steps(root_dir(temp))
        + system_steps(root_dir(temp), SYSTEM_DIR_COUNT as nat)
}

/// The two steps for system directory `m`.
pub open spec fn system_pair(root: Seq<u8>, m: int) -> Seq<StepModel> {
    seq![
        StepModel::CreateDir(join(root, system_dir(m))),
        StepModel::Mount {
            source: Some(host_dir(system_dir(m))),
            target: join(root, system_dir(m)),
            fstype: None,
            flags: bind_flags(true),
            data: None,
        },
    ]
}

proof fn lemma_system_steps_shape(root: Seq<u8>, k: nat)
    ensures
        system_steps(root, k).len() == 2 * k,
        forall|j: int|
            0 <= j < 2 * k ==> #[trigger] system_steps(root, k)[j] == system_pair(root, j / 2)[j % 2],
    decreases k,
{
    if k > 0 {
        lemma_system_steps_shape(root, (k - 1) as nat);
        let prev = system_steps(root, (k - 1) as nat);
        assert(system_steps(root, k) == prev + system_pair(root, k - 1));
        assert forall|j: int| 0 <= j < 2 * k implies #[trigger] system_steps(root, k)[j] == system_pair(
            root,
            j / 2,
        )[j % 2] by {
            if j >= 2 * (k - 1) {
                assert(j / 2 == k - 1);
            }
        }
    }
}

/// Distinct names give distinct paths in the same directory.
proof fn lemma_join_injective(dir: Seq<u8>, a: Seq<u8>, b: Seq<u8>)
    requires
        join(dir, a) == join(dir, b),
    ensures
        a == b,
{
    let n = dir.len() + 1int;
    assert(join(dir, a).subrange(n, join(dir, a).len() as int) =~= a);
    assert(join(dir, b).subrange(n, join(dir, b).len() as int) =~= b);
}

/// Strings with different characters have different bytes.
proof fn lemma_bytes_distinct(a: &str, b: &str)
    requires
        a@ != b@,
    ensures
        a.spec_bytes() != b.spec_bytes(),
{
    vstd::utf8::encode_utf8_decode_utf8(a@);
    vstd::utf8::encode_utf8_decode_utf8(b@);
}

/// The two names created inside the sandbox root, `tmp` and `sand`, are
/// distinct from each other, from `proc` and from every system directory.
proof fn lemma_name_distinct(name: &str)
    requires
        name@ == "tmp"@ || name@ == "sand"@,
    ensures
        name@ == "tmp"@ ==> name.spec_bytes() != "sand".spec_bytes(),
        name.spec_bytes() != "proc".spec_bytes(),
        forall|m: int| 0 <= m < SYSTEM_DIR_COUNT ==> name.spec_bytes() != #[trigger] system_dir(m),
{
    reveal_strlit("tmp");
    reveal_strlit("sand");
    reveal_strlit("proc");
    reveal_strlit("dev");
    reveal_strlit("sys");
    reveal_strlit("bin");
    reveal_strlit("sbin");
    reveal_strlit("lib");
    reveal_strlit("lib64");
    reveal_strlit("usr");
    reveal_strlit("etc");
    reveal_strlit("opt");
    reveal_strlit("var");
    reveal_strlit("home");
    assert(name@.len() >= 3);
    if name@ == "tmp"@ {
        assert(name@[0] != "sand"@[0]);
        lemma_bytes_distinct(name, "sand");
    }
    assert(name@[0] != "proc"@[0]);
    lemma_bytes_distinct(name, "proc");
    assert forall|m: int| 0 <= m < SYSTEM_DIR_COUNT implies name.spec_bytes() != #[trigger] system_dir(
        m,
    ) by {
        if m == 0 {
            assert(name@[0] != "dev"@[0] || name@[1] != "dev"@[1]);
            lemma_bytes_distinct(name, "dev");
        } else if m == 1 {
            assert(name@[0] != "sys"@[0] || name@[1] != "sys"@[1]);
            lemma_bytes_distinct(name, "sys");
        } else if m == 2 {
            assert(name@[0] != "bin"@[0] || name@[1] != "bin"@[1]);
            lemma_bytes_distinct(name, "bin");
        } else if m == 3 {
            assert(name@[0] != "sbin"@[0] || name@[1] != "sbin"@[1]);
            lemma_bytes_distinct(name, "sbin");
        } else if m == 4 {
            assert(name@[0] != "lib"@[0] || name@[1] != "lib"@[1]);
            lemma_bytes_distinct(name, "lib");
        } else if m == 5 {
            assert(name@[0] != "lib64"@[0] || name@[1] != "lib64"@[1]);
            lemma_bytes_distinct(name, "lib64");
        } else if m == 6 {
            assert(name@[0] != "usr"@[0] || name@[1] != "usr"@[1]);
            lemma_bytes_distinct(name, "usr");
        } else if m == 7 {
            assert(name@[0] != "etc"@[0] || name@[1] != "etc"@[1]);
            lemma_bytes_distinct(name, "etc");
        } else if m == 8 {
            assert(name@[0] != "opt"@[0] || name@[1] != "opt"@[1]);
            lemma_bytes_distinct(name, "opt");
        } else if m == 9 {
            assert(name@[0] != "var"@[0] || name@[1] != "var"@[1]);
            lemma_bytes_distinct(name, "var");
        } else {
            assert(name@[0] != "home"@[0] || name@[1] != "home"@[1]);
            lemma_bytes_distinct(name, "home");
        }
    }
}

/// The sandbox's `/tmp` is a fresh directory inside the temp directory,
/// opened to every user: the plan creates `T/root/tmp` and mounts nothing
/// onto it, so nothing written there reaches the host's `/tmp`, and it
/// goes away with the temp directory.
pub proof fn lemma_private_tmp(temp: Seq<u8>, workdir: Seq<u8>, layers: Option<(Seq<u8>, Seq<u8>)>)
    ensures
        ({
            let plan = spec_root_plan(temp, workdir, layers);
            let tmp = join(root_dir(temp), "tmp".spec_bytes());
            &&& tmp.subrange(0, temp.len() + 1int) == temp + seq![0x2fu8]
            &&& plan.contains(StepModel::CreateDir(tmp))
            &&& plan.contains(StepModel::SetMode(tmp, OPEN_MODE))
            &&& forall|i: int|
                0 <= i < plan.len() ==> !(#[trigger] plan[i] matches StepModel::Mount { target, .. }
                    && target == tmp)
        }),
{
    let root = root_dir(temp);
    let plan = spec_root_plan(temp, workdir, layers);
    let tmp = join(root, "tmp".spec_bytes());
    let a = seq![StepModel::CreateDir(root_dir(temp)), StepModel::CreateDir(sand_dir(temp))];
    let w = workdir_steps(temp, workdir, layers);
    let t = tmp_proc_steps(root);
    let sys = system_steps(root, SYSTEM_DIR_COUNT as nat);
    assert(plan == a + w + t + sys);
    assert(tmp.subrange(0, temp.len() + 1int) =~= temp + seq![0x2fu8]);
    let k = a.len() + w.len() as int;
    assert(plan[k] == StepModel::CreateDir(tmp));
    assert(plan[k + 1] == StepModel::SetMode(tmp, OPEN_MODE));
    lemma_name_distinct("tmp");
    lemma_system_steps_shape(root, SYSTEM_DIR_COUNT as nat);
    assert forall|i: int| 0 <= i < plan.len() implies !(#[trigger] plan[i] matches StepModel::Mount {
        target,
        ..
    } && target == tmp) by {
        if let StepModel::Mount { target, .. } = plan[i] {
            if target == tmp {
                if i < a.len() {
                    assert(plan[i] == a[i]);
                } else if i < k {
                    assert(plan[i] == w[i - a.len()]);
                    lemma_join_injective(root, "sand".spec_bytes(), "tmp".spec_bytes());
                } else if i < k + t.len() {
                    assert(plan[i] == t[i - k]);
                    lemma_join_injective(root, "proc".spec_bytes(), "tmp".spec_bytes());
                } else {
                    let j = i - k - t.len();
                    assert(plan[i] == sys[j]);
                    lemma_join_injective(root, system_dir(j / 2), "tmp".spec_bytes());
                }
            }
        }
    }
}

/// In overlay mode the command's working directory is the overlay and
/// nothing else: every mount onto `T/root/sand` is the overlay whose lower
/// layer is the workdir and whose writable layers are `upper` and `work`,
/// so what the command writes lands in `upper` and the workdir itself is
/// left as it was.
pub proof fn lemma_overlay_view(temp: Seq<u8>, workdir: Seq<u8>, upper: Seq<u8>, work: Seq<u8>)
    ensures
        ({
            let plan = spec_root_plan(temp, workdir, Some((upper, work)));
            let overlay = StepModel::Mount {
                source: None,
                target: sand_dir(temp),
                fstype: Some("overlay".spec_bytes()),
                flags: no_flags(),
                data: Some(overlay_data(workdir, upper, work)),
            };
            &&& plan.contains(overlay)
            &&& forall|i: int|
                0 <= i < plan.len() ==> (#[trigger] plan[i] matches StepModel::Mount { target, .. }
                    && target == sand_dir(temp)) ==> plan[i] == overlay
        }),
{
    let layers = Some((upper, work));
    let root = root_dir(temp);
    let plan = spec_root_plan(temp, workdir, layers);
    let a = seq![StepModel::CreateDir(root_dir(temp)), StepModel::CreateDir(sand_dir(temp))];
    let w = workdir_steps(temp, workdir, layers);
    let t = tmp_proc_steps(root);
    let sys = system_steps(root, SYSTEM_DIR_COUNT as nat);
    assert(plan == a + w + t + sys);
    assert(plan[4] == w[2]);
    let k = a.len() + w.len() as int;
    lemma_name_distinct("sand");
    lemma_system_steps_shape(root, SYSTEM_DIR_COUNT as nat);
    assert forall|i: int|
        0 <= i < plan.len() && (#[trigger] plan[i] matches StepModel::Mount { target, .. } && target
            == sand_dir(temp)) implies plan[i] == w[2] by {
        if let StepModel::Mount { target, .. } = plan[i] {
            if target == sand_dir(temp) {
                if i < a.len() {
                    assert(plan[i] == a[i]);
                } else if i < k {
                    assert(plan[i] == w[i - a.len()]);
                } else if i < k + t.len() {
                    assert(plan[i] == t[i - k]);
                    lemma_join_injective(root, "proc".spec_bytes(), "sand".spec_bytes());
                } else {
                    let j = i - k - t.len();
                    assert(plan[i] == sys[j]);
                    lemma_join_injective(root, system_dir(j / 2), "sand".spec_bytes());
                }
            }
        }
    }
}

fn push_step(v: &mut Vec<SetupStep>, s: SetupStep)
    ensures
        steps_view(final(v)@) == steps_view(old(v)@).push(s@),
{
    let ghost m = s@;
    v.push(s);
    assert(steps_view(v@) =~= steps_view(old(v)@).push(m));
}

/// The steps that build the sandbox root under `temp` (component of the
/// executor that prepares the filesystem view), with the workdir bound
/// read-write, or, when `layers` is given, overlaid copy-on-write.
pub fn root_plan(temp: &Vec<u8>, workdir: &Vec<u8>, layers: &Option<OverlayDirs>) -> (r: Vec<
    SetupStep,
>)
    ensures
        steps_view(r@) == spec_root_plan(temp@, workdir@, layers_view(*layers)),
{
    let mut r: Vec<SetupStep> = Vec::new();
    let root = join_path(temp, "root");
    let sand = join_path(&root, "sand");
    push_step(&mut r, SetupStep::CreateDir { path: root.clone() });
    push_step(&mut r, SetupStep::CreateDir { path: sand.clone() });
    let ghost head = steps_view(r@);
    assert(head =~= seq![StepModel::CreateDir(root_dir(temp@)), StepModel::CreateDir(sand_dir(temp@))]);
    match layers {
        None => {
            push_step(&mut r, SetupStep::Mount {
                source: Some(workdir.clone()),
                target: sand,
                fstype: None,
                flags: flags(true, false),
                data: None,
            });
        },
        Some(d) => {
            push_step(&mut r, SetupStep::SetMode { path: d.work.clone(), mode: OPEN_MODE });
            push_step(&mut r, SetupStep::SetMode { path: d.upper.clone(), mode: OPEN_MODE });
            let mut data = bytes_of("lowerdir=");
            append_bytes(&mut data, workdir);
            append_str(&mut data, ",upperdir=");
            append_bytes(&mut data, &d.upper);
            append_str(&mut data, ",workdir=");
            append_bytes(&mut data, &d.work);
            push_step(&mut r, SetupStep::Mount {
                source: None,
                target: sand,
                fstype: Some(bytes_of("overlay")),
                flags: flags(false, false),
                data: Some(data),
            });
        },
    }
    assert(steps_view(r@) =~= head + workdir_steps(temp@, workdir@, layers_view(*layers)));
    let ghost mid = steps_view(r@);
    let tmp = join_path(&root, "tmp");
    push_step(&mut r, SetupStep::CreateDir { path: tmp.clone() });
    push_step(&mut r, SetupStep::SetMode { path: tmp, mode: OPEN_MODE });
    let proc_dir = join_path(&root, "proc");
    push_step(&mut r, SetupStep::CreateDir { path: proc_dir.clone() });
    push_step(&mut r, SetupStep::Mount {
        source: Some(bytes_of("proc")),
        target: proc_dir,
        fstype: Some(bytes_of("proc")),
        flags: flags(false, false),
        data: None,
    });
    assert(steps_view(r@) =~= mid + tmp_proc_steps(root@));
    let ghost base = steps_view(r@);
    assert(base =~= base + system_steps(root@, 0));
    let mut i: usize = 0;
    while i < SYSTEM_DIR_COUNT
        invariant
            i <= SYSTEM_DIR_COUNT,
            root@ == root_dir(temp@),
            steps_view(r@) == base + system_steps(root@, i as nat),
        decreases SYSTEM_DIR_COUNT - i,
    {
        let name = system_dir_name(i);
        let dir = join_path(&root, name);
        let mut host: Vec<u8> = Vec::new();
        host.push(0x2fu8);
        append_str(&mut host, name);
        assert(host@ =~= host_dir(system_dir(i as int)));
        push_step(&mut r, SetupStep::CreateDir { path: dir.clone() });
        push_step(&mut r, SetupStep::Mount {
            source: Some(host),
            target: dir,
            fstype: None,
            flags: flags(true, true),
            data: None,
        });
        assert(steps_view(r@) =~= base + system_steps(root@, (i + 1) as nat));
        i = i + 1;
    }
    r
}

} // verus!
