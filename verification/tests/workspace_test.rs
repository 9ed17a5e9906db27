use scorpiofs::server::{check_mountpoint, MountpointProblem};
use scorpiofs::antares::{
    unmount_failure_is_benign,
    fusermount_bin, join, unmount_grace_duration, AntaresConfig, AntaresPaths, MountRegistry,
};
use scorpiofs::cli::{antares_overrides, exit, mounts_url};
use scorpiofs::doctor::{
    any_line_passes, directories_to_check, report_line, run_exit_code, LineTest, Status,
};
use scorpiofs::manager::{ScorpioManager, WorkDir};
use scorpiofs::util::config::{build_config, defaults_for, RawResolver};
use scorpiofs::util::overrides::Overrides;
use std::time::Duration;

fn work(path: &str) -> WorkDir {
    WorkDir { path: path.to_string(), node: 1, hash: "h".to_string() }
}

#[test]
fn test_unmount_grace_duration_defaults_to_150ms() {
    assert_eq!(Duration::from_millis(unmount_grace_duration(None)), Duration::from_millis(150));
}

#[test]
fn test_unmount_grace_duration_accepts_explicit_value() {
    assert_eq!(Duration::from_millis(unmount_grace_duration(Some("275"))), Duration::from_millis(275));
}

#[test]
fn test_unmount_grace_duration_clamps_and_falls_back() {
    assert_eq!(Duration::from_millis(unmount_grace_duration(Some("50000"))), Duration::from_millis(3_000));
    assert_eq!(Duration::from_millis(unmount_grace_duration(Some("not-a-number"))), Duration::from_millis(150));
}

#[test]
fn grace_duration_trims_and_keeps_zero() {
    assert_eq!(unmount_grace_duration(Some(" 0 ")), 0);
    assert_eq!(unmount_grace_duration(Some("3000")), 3000);
    assert_eq!(unmount_grace_duration(Some("")), 150);
    assert_eq!(unmount_grace_duration(Some("-1")), 150);
}

#[test]
fn check_before_mount_detects_overlaps() {
    let m = ScorpioManager { works: vec![work("third-party/mega"), work("project/a")] };
    assert_eq!(m.check_before_mount("third-party/mega"), Err("third-party/mega".to_string()));
    assert_eq!(m.check_before_mount("third-party/mega/scorpio"), Err("third-party/mega".to_string()));
    assert_eq!(m.check_before_mount("project"), Err("project/a".to_string()));
    assert_eq!(m.check_before_mount("third-party/megabytes"), Ok(()));
    assert_eq!(m.check_before_mount("project/ab"), Ok(()));
    assert_eq!(m.check_before_mount("other"), Ok(()));
    let empty = ScorpioManager { works: vec![] };
    assert_eq!(empty.check_before_mount("anything"), Ok(()));
}

#[test]
fn remove_workspace_removes_exact_path_only() {
    let mut m = ScorpioManager { works: vec![work("a"), work("a/b"), work("c")] };
    assert_eq!(m.remove_workspace("a/b"), Ok(()));
    assert_eq!(m.works.len(), 2);
    assert_eq!(m.works[0].path, "a");
    assert_eq!(m.works[1].path, "c");
    assert_eq!(m.remove_workspace("a/b"), Err("Workspace not found".to_string()));
    assert_eq!(m.works.len(), 2);
}

#[test]
fn join_follows_path_rules() {
    assert_eq!(join("/mnt", "job1"), "/mnt/job1");
    assert_eq!(join("/mnt/", "job1"), "/mnt/job1");
    assert_eq!(join("/mnt", "/abs/path"), "/abs/path");
    assert_eq!(join("", "rel"), "rel");
    assert_eq!(join("/mnt", "deeply/nested/workspace2"), "/mnt/deeply/nested/workspace2");
    assert_eq!(join("/mnt", ""), std::path::Path::new("/mnt").join("").to_str().unwrap());
}

#[test]
fn antares_paths_plan_instances() {
    let paths = AntaresPaths::new(
        "/r/upper".to_string(),
        "/r/cl".to_string(),
        "/r/mnt".to_string(),
        "/r/state.toml".to_string(),
    );
    let mp = paths.job_mountpoint("job1");
    assert_eq!(mp, "/r/mnt/job1");
    let with_cl = paths.plan_instance("job1", mp.clone(), Some("cl1"), "u-1".to_string(), "c-1".to_string());
    assert_eq!(with_cl.job_id, "job1");
    assert_eq!(with_cl.upper_dir, "/r/upper/u-1");
    assert_eq!(with_cl.cl_id, Some("c-1".to_string()));
    assert_eq!(with_cl.cl_dir, Some("/r/cl/c-1".to_string()));
    let no_cl = paths.plan_instance("job2", "/custom".to_string(), None, "u-2".to_string(), "c-2".to_string());
    assert_eq!(no_cl.mountpoint, "/custom");
    assert_eq!(no_cl.cl_id, None);
    assert_eq!(no_cl.cl_dir, None);

    let cfg = defaults_for("dave");
    let global = AntaresPaths::from_global_config(&cfg);
    assert_eq!(global.upper_root, "/tmp/megadir-dave/antares/upper");
    assert_eq!(global.state_file, "/tmp/megadir-dave/antares/state.toml");
}

#[test]
fn antares_paths_plan_new_instances_with_fresh_ids() {
    let paths = AntaresPaths::new(
        "/r/upper".to_string(),
        "/r/cl".to_string(),
        "/r/mnt".to_string(),
        "/r/state.toml".to_string(),
    );
    let a = paths.plan_new_instance("job1", "/r/mnt/job1".to_string(), Some("cl1"));
    let b = paths.plan_new_instance("job2", "/r/mnt/job2".to_string(), None);
    assert_eq!(a.upper_id.len(), 36);
    assert_ne!(a.upper_id, b.upper_id);
    assert_eq!(a.upper_dir, format!("/r/upper/{}", a.upper_id));
    let cl_id = a.cl_id.clone().unwrap();
    assert_ne!(cl_id, a.upper_id);
    assert_eq!(a.cl_dir, Some(format!("/r/cl/{}", cl_id)));
    assert_eq!(b.cl_id, None);
    assert_eq!(b.cl_dir, None);
    assert_eq!(b.mountpoint, "/r/mnt/job2");
}

fn instance(job: &str, mount: &str) -> AntaresConfig {
    AntaresConfig {
        job_id: job.to_string(),
        mountpoint: mount.to_string(),
        upper_id: format!("{job}-u"),
        upper_dir: format!("/u/{job}-u"),
        cl_dir: None,
        cl_id: None,
    }
}

#[test]
fn registry_mount_list_umount() {
    let mut reg = MountRegistry::new();
    reg.insert(instance("job1", "/mnt/job1"));
    assert!(reg.contains("job1"));
    let listed = reg.list();
    assert_eq!(listed.len(), 1);
    assert_eq!(listed[0].job_id, "job1");
    reg.insert(instance("job1", "/elsewhere"));
    assert_eq!(reg.len(), 1);
    assert_eq!(reg.get("job1").unwrap().mountpoint, "/elsewhere");
    reg.insert(instance("job2", "/mnt/job2"));
    assert_eq!(reg.len(), 2);
    let removed = reg.remove("job1");
    assert_eq!(removed.unwrap().mountpoint, "/elsewhere");
    assert!(reg.remove("job1").is_none());
    assert!(!reg.contains("job1"));
    assert_eq!(reg.len(), 1);
}

#[test]
fn registry_loads_persisted_list() {
    let saved = vec![instance("a", "/1"), instance("b", "/2"), instance("a", "/3")];
    let reg = MountRegistry::from_mounts(&saved);
    assert_eq!(reg.len(), 2);
    assert_eq!(reg.get("a").unwrap().mountpoint, "/3");
    let again = MountRegistry::from_mounts(&reg.list());
    assert_eq!(again.len(), 2);
    assert_eq!(again.get("b").unwrap().mountpoint, "/2");
}

#[test]
fn fusermount_preference() {
    assert_eq!(fusermount_bin(true, true), "fusermount3");
    assert_eq!(fusermount_bin(false, true), "fusermount");
    assert_eq!(fusermount_bin(false, false), "fusermount3");
}

#[test]
fn antares_flags_become_overrides() {
    let o = antares_overrides(Some("/x/upper".to_string()), None, Some("/x/mnt".to_string()), None);
    assert_eq!(o.len(), 2);
    assert_eq!(o.get("antares_upper_root"), Some(&"/x/upper".to_string()));
    assert_eq!(o.get("antares_cl_root"), None);
    assert_eq!(o.get("antares_mount_root"), Some(&"/x/mnt".to_string()));
    let r = RawResolver::new(toml::from_str("antares_upper_root = \"/file/upper\"").unwrap(), o, Overrides::new());
    let cfg = build_config(&r).unwrap();
    assert_eq!(cfg.antares_upper_root, "/x/upper");
    assert_eq!(cfg.antares_mount_root, "/x/mnt");
}

#[test]
fn mounts_url_drops_trailing_slashes() {
    assert_eq!(mounts_url("http://127.0.0.1:2725/antares"), "http://127.0.0.1:2725/antares/mounts");
    assert_eq!(mounts_url("http://h:2726//"), "http://h:2726/mounts");
}

#[test]
fn exit_codes_are_stable() {
    assert_eq!((exit::SUCCESS, exit::INTERNAL, exit::CONFIG, exit::MOUNT, exit::BIND), (0, 1, 2, 3, 4));
}

#[test]
fn doctor_line_tests() {
    let fs = "nodev\tsysfs\nnodev\tfusectl\n\tfuseblk\nnodev\tfuse\n";
    assert!(any_line_passes(LineTest::FuseFilesystem, fs));
    assert!(!any_line_passes(LineTest::FuseFilesystem, "nodev\tfusectl\n\tfuseblk\n"));
    assert!(any_line_passes(LineTest::FuseFilesystem, "fuse"));
    assert!(!any_line_passes(LineTest::FuseFilesystem, "xfuse\n"));
    let conf = "# mount_max = 1000\n#user_allow_other\n  user_allow_other  \r\n";
    assert!(any_line_passes(LineTest::UserAllowOther, conf));
    assert!(!any_line_passes(LineTest::UserAllowOther, "# user_allow_other\n"));
    assert!(!any_line_passes(LineTest::UserAllowOther, ""));
}

#[test]
fn doctor_reports_and_exit() {
    assert_eq!(report_line(Status::Pass, "fuse device", "/dev/fuse is present"), "[ OK ] fuse device: /dev/fuse is present");
    assert_eq!(report_line(Status::Warn, "a", "b"), "[WARN] a: b");
    assert_eq!(report_line(Status::Fail, "a", "b"), "[FAIL] a: b");
    assert_eq!(run_exit_code(0), 0);
    assert_eq!(run_exit_code(2), 1);
    let cfg = defaults_for("erin");
    let dirs = directories_to_check(&cfg);
    assert_eq!(dirs.len(), 5);
    assert_eq!(dirs[0], ("workspace", "/tmp/megadir-erin/mount"));
    assert_eq!(dirs[4], ("antares_mount_root", "/tmp/megadir-erin/antares/mnt"));
}

#[test]
fn mountpoint_must_be_an_empty_directory() {
    assert!(check_mountpoint("/mnt/w", true, true, false).is_ok());
    match check_mountpoint("/mnt/w", false, false, false) {
        Err((MountpointProblem::Missing, msg)) => assert_eq!(msg, "mountpoint does not exist: /mnt/w"),
        _ => panic!("expected a missing mountpoint"),
    }
    match check_mountpoint("/mnt/w", true, false, false) {
        Err((MountpointProblem::NotADirectory, msg)) => {
            assert_eq!(msg, "mountpoint is not a directory: /mnt/w")
        }
        _ => panic!("expected a non-directory"),
    }
    match check_mountpoint("/mnt/w", true, true, true) {
        Err((MountpointProblem::NotEmpty, msg)) => {
            assert_eq!(msg, "mountpoint is not empty or is inaccessible: /mnt/w")
        }
        _ => panic!("expected a non-empty mountpoint"),
    }
}

#[test]
fn fusermount_not_mounted_errors_are_benign() {
    assert!(unmount_failure_is_benign("fusermount3: entry for /mnt/j not found in /etc/mtab: not mounted"));
    assert!(unmount_failure_is_benign("fusermount: failed to unmount /mnt/j: Invalid argument"));
    assert!(!unmount_failure_is_benign("fusermount: failed to unmount /mnt/j: Device or resource busy"));
}
