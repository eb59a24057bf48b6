use executor::cgroup::{cgroup_plan, CgroupStep};
use executor::config::{split_command_line, Config, ConfigError};
use executor::launch::{inner_plan, parse_id, sandbox_user, InnerStep};
use executor::sandbox::{root_plan, MountFlags, OverlayDirs, SetupStep};
use executor::tempname::{TempdirSearch, MAX_ATTEMPTS, NAME_LEN};

fn strings(v: &[&str]) -> Vec<String> {
    v.iter().map(|s| s.to_string()).collect()
}

#[test]
fn split_at_first_separator() {
    let args = strings(&["executor", "--cwd", "/w", "--tl", "2.0", "--", "./a.out", "--", "x"]);
    let (mine, user) = split_command_line(&args).unwrap();
    assert_eq!(mine, strings(&["executor", "--cwd", "/w", "--tl", "2.0"]));
    assert_eq!(user, strings(&["./a.out", "--", "x"]));
    assert_eq!(split_command_line(&strings(&["executor", "./a.out"])), None);
    let (mine, user) = split_command_line(&strings(&["--"])).unwrap();
    assert!(mine.is_empty() && user.is_empty());
}

#[test]
fn config_defaults_and_errors() {
    let c = Config::new(None, false, None, None, strings(&["mktemp"])).unwrap();
    assert_eq!(c.workdir, b".".to_vec());
    assert_eq!(c.time_limit_us, 3_600_000_000);
    assert!(!c.overlay);
    let c = Config::new(Some(b"/w".to_vec()), true, Some(2_000_000), Some("r.json".to_string()), strings(&["touch", "t"]))
        .unwrap();
    assert_eq!(c.workdir, b"/w".to_vec());
    assert_eq!(c.time_limit_us, 2_000_000);
    assert!(c.overlay);
    assert_eq!(c.result_path, Some("r.json".to_string()));
    assert!(matches!(
        Config::new(None, false, Some(3_600_000_001), None, strings(&["a"])),
        Err(ConfigError::TimeLimitOutOfRange)
    ));
    assert!(matches!(Config::new(None, false, None, None, vec![]), Err(ConfigError::EmptyCommand)));
    assert!(Config::new(None, false, Some(0), None, strings(&["a"])).is_ok());
}

fn mount_of(s: &SetupStep) -> (Option<Vec<u8>>, Vec<u8>, Option<Vec<u8>>, MountFlags, Option<Vec<u8>>) {
    match s {
        SetupStep::Mount { source, target, fstype, flags, data } => {
            (source.clone(), target.clone(), fstype.clone(), *flags, data.clone())
        }
        _ => panic!("not a mount"),
    }
}

#[test]
fn bind_mode_root_plan() {
    let plan = root_plan(&b"/tmp/T".to_vec(), &b"/work".to_vec(), &None);
    assert_eq!(plan.len(), 2 + 1 + 4 + 22);
    assert!(matches!(&plan[0], SetupStep::CreateDir { path } if path == b"/tmp/T/root"));
    assert!(matches!(&plan[1], SetupStep::CreateDir { path } if path == b"/tmp/T/root/sand"));
    let (source, target, fstype, flags, data) = mount_of(&plan[2]);
    assert_eq!(source, Some(b"/work".to_vec()));
    assert_eq!(target, b"/tmp/T/root/sand".to_vec());
    assert_eq!(fstype, None);
    assert!(flags.bind && !flags.read_only);
    assert_eq!(data, None);
    assert!(matches!(&plan[3], SetupStep::CreateDir { path } if path == b"/tmp/T/root/tmp"));
    assert!(matches!(&plan[4], SetupStep::SetMode { path, mode } if path == b"/tmp/T/root/tmp" && *mode == 0o777));
    let (source, target, fstype, _, _) = mount_of(&plan[6]);
    assert_eq!((source, target, fstype), (Some(b"proc".to_vec()), b"/tmp/T/root/proc".to_vec(), Some(b"proc".to_vec())));
    let (source, target, _, flags, _) = mount_of(&plan[8]);
    assert_eq!(source, Some(b"/dev".to_vec()));
    assert_eq!(target, b"/tmp/T/root/dev".to_vec());
    assert!(flags.bind && flags.read_only);
    let (source, target, _, _, _) = mount_of(&plan[28]);
    assert_eq!(source, Some(b"/home".to_vec()));
    assert_eq!(target, b"/tmp/T/root/home".to_vec());
}

#[test]
fn overlay_mode_root_plan() {
    let layers = Some(OverlayDirs { upper: b"/tmp/T/up".to_vec(), work: b"/tmp/T/wk".to_vec() });
    let plan = root_plan(&b"/tmp/T".to_vec(), &b"/work".to_vec(), &layers);
    assert_eq!(plan.len(), 2 + 3 + 4 + 22);
    assert!(matches!(&plan[2], SetupStep::SetMode { path, mode } if path == b"/tmp/T/wk" && *mode == 0o777));
    assert!(matches!(&plan[3], SetupStep::SetMode { path, mode } if path == b"/tmp/T/up" && *mode == 0o777));
    let (source, target, fstype, flags, data) = mount_of(&plan[4]);
    assert_eq!(source, None);
    assert_eq!(target, b"/tmp/T/root/sand".to_vec());
    assert_eq!(fstype, Some(b"overlay".to_vec()));
    assert!(!flags.bind);
    assert_eq!(data, Some(b"lowerdir=/work,upperdir=/tmp/T/up,workdir=/tmp/T/wk".to_vec()));
    for s in &plan {
        if let SetupStep::Mount { source, .. } = s {
            assert_ne!(source.as_deref(), Some(&b"/work"[..]));
        }
    }
}

#[test]
fn temp_names_are_random_and_bounded() {
    let mut search = TempdirSearch::new();
    let base = b"/tmp".to_vec();
    let mut seen = Vec::new();
    for _ in 0..MAX_ATTEMPTS {
        let p = search.next_candidate(&base).unwrap();
        assert_eq!(p.len(), base.len() + 1 + NAME_LEN);
        assert_eq!(&p[..5], b"/tmp/");
        assert!(p[5..].iter().all(|c| c.is_ascii_alphanumeric()));
        seen.push(p);
    }
    assert_eq!(search.next_candidate(&base), None);
    assert_eq!(search.attempts, MAX_ATTEMPTS);
    seen.sort();
    seen.dedup();
    assert!(seen.len() > 1);
}

#[test]
fn cgroup_protocol() {
    let plan = cgroup_plan(1234);
    assert_eq!(plan.len(), 10);
    assert!(matches!(&plan[0], CgroupStep::Run { argv, must_succeed: false }
        if *argv == strings(&["cgdelete", "pids,cpuset,memory:/lib-judge"])));
    assert!(matches!(&plan[1], CgroupStep::Run { argv, must_succeed: true }
        if *argv == strings(&["cgcreate", "-g", "pids,cpuset,memory:/lib-judge"])));
    assert!(matches!(&plan[2], CgroupStep::Run { argv, must_succeed: true }
        if *argv == strings(&["cgset", "-r", "pids.max=1000", "/lib-judge"])));
    assert!(matches!(&plan[6], CgroupStep::Run { argv, must_succeed: true }
        if *argv == strings(&["cgset", "-r", "memory.memsw.limit_in_bytes=1G", "/lib-judge"])));
    assert!(matches!(&plan[7], CgroupStep::Write { path, contents }
        if path == "/sys/fs/cgroup/pids/lib-judge/cgroup.procs" && contents == b"1234\n"));
    assert!(matches!(&plan[9], CgroupStep::Write { path, contents }
        if path == "/sys/fs/cgroup/memory/lib-judge/cgroup.procs" && contents == b"1234\n"));
}

#[test]
fn inner_plan_order() {
    let plan = inner_plan(&b"/tmp/T".to_vec(), &b"/work".to_vec(), &None);
    let n = plan.len();
    assert_eq!(n, 3 + 29 + 9);
    match &plan[0] {
        InnerStep::Fs(SetupStep::Mount { source: None, target, flags, .. }) => {
            assert_eq!(target, b"/");
            assert!(flags.private && flags.recursive);
        }
        _ => panic!("first step must make mounts private"),
    }
    assert!(plan[..n - 9].iter().all(|s| matches!(s, InnerStep::Fs(_))));
    assert!(matches!(plan[n - 9], InnerStep::JoinGroup));
    assert!(matches!(plan[n - 8], InnerStep::RaiseStackLimit));
    assert!(matches!(&plan[n - 7], InnerStep::ChangeDir(p) if p == b"/tmp/T/root/sand"));
    assert!(matches!(&plan[n - 6], InnerStep::ChangeRoot(p) if p == b".."));
    assert!(matches!(plan[n - 5], InnerStep::DropPrivileges));
    assert!(matches!(&plan[n - 4], InnerStep::UnsetEnv(k) if k == "TMPDIR"));
    assert!(matches!(&plan[n - 3], InnerStep::SetEnv(k, v) if k == "HOME" && v == "/home/library-checker-user"));
    assert!(matches!(plan[n - 2], InnerStep::SignalStart));
    assert!(matches!(plan[n - 1], InnerStep::Exec));
    assert_eq!(sandbox_user(), "library-checker-user");
}

#[test]
fn id_parsing() {
    assert_eq!(parse_id(b"1001\n"), Some(1001));
    assert_eq!(parse_id(b"4294967295"), Some(u32::MAX));
    assert_eq!(parse_id(b"4294967296"), None);
    assert_eq!(parse_id(b"id: no such user\n"), None);
    assert_eq!(parse_id(b""), None);
}

#[test]
fn sandbox_tmp_is_private() {
    let layers = Some(OverlayDirs { upper: b"/tmp/T/up".to_vec(), work: b"/tmp/T/wk".to_vec() });
    for l in [None, layers] {
        let plan = root_plan(&b"/tmp/T".to_vec(), &b"/w".to_vec(), &l);
        assert!(plan.iter().any(|s| matches!(s, SetupStep::CreateDir { path } if path == b"/tmp/T/root/tmp")));
        for s in &plan {
            if let SetupStep::Mount { source, target, .. } = s {
                assert_ne!(target.as_slice(), b"/tmp/T/root/tmp");
                assert_ne!(source.as_deref(), Some(&b"/tmp"[..]));
            }
        }
    }
}
