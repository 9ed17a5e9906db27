use scorpiofs::antares::{
    after_handle_unmount, finish_umount, fusermount_verdict, plan_umount, AntaresConfig, AntaresPaths,
    FusermountVerdict, MountRegistry, UnmountMethod, UnmountOutcome,
};
use scorpiofs::cli::exit;
use scorpiofs::cli::report::{http_reply, mount_reply, HttpAnswer, HttpReply};
use scorpiofs::cli::serve::{serve_start, StartStep};
use scorpiofs::doctor::{run_checks, DirVerdicts, MegaReply, Status};
use scorpiofs::daemon::after_unmount;
use scorpiofs::manager::{ScorpioManager, WorkDir};
use scorpiofs::mount_flow::{
    after_fetch, after_fetched_overlay, record_temp_mount, route_mount, settle_temp_mount,
    MountRoute,
};
use scorpiofs::mount_tasks::MountInfo;
use scorpiofs::util::config::{
    base_url, begin_init_with_defaults, defaults_for, finish_init, start_init, ConfigStore,
};
use scorpiofs::util::overrides::Overrides;

fn work(path: &str) -> WorkDir {
    WorkDir { path: path.to_string(), node: 9, hash: "h".to_string() }
}

fn job(id: &str) -> AntaresConfig {
    AntaresConfig {
        job_id: id.to_string(),
        mountpoint: format!("/mnt/{id}"),
        upper_id: "u".to_string(),
        upper_dir: "/upper/u".to_string(),
        cl_dir: None,
        cl_id: None,
    }
}

#[test]
fn init_steps_install_only_after_directories_are_ready() {
    let d = defaults_for("ivy");
    let mut store = ConfigStore::new();
    assert!(start_init(&store).is_ok());
    let content = "base_url = \"http://mega.example\"\n".to_string();
    let loaded = begin_init_with_defaults(&store, "s.toml", Ok(content.clone()), Overrides::new(), Overrides::new(), &d)
        .unwrap();
    assert_eq!(loaded.config().base_url, "http://mega.example");
    assert_eq!(finish_init(&mut store, loaded, Err("Failed to create directory /x".to_string())), Err("Failed to create directory /x".to_string()));
    assert!(!store.is_initialized());
    let loaded = begin_init_with_defaults(&store, "s.toml", Ok(content.clone()), Overrides::new(), Overrides::new(), &d)
        .unwrap();
    assert_eq!(finish_init(&mut store, loaded, Ok(())), Ok(()));
    assert_eq!(base_url(store.current().unwrap()), "http://mega.example");
    assert_eq!(start_init(&store), Err("Configuration already initialized".to_string()));
    let again = begin_init_with_defaults(&store, "s.toml", Ok(content), Overrides::new(), Overrides::new(), &d);
    assert_eq!(again.err(), Some("Configuration already initialized".to_string()));
}

#[test]
fn init_reports_unreadable_and_invalid_files() {
    let d = defaults_for("ivy");
    let store = ConfigStore::new();
    let unreadable = begin_init_with_defaults(&store, "s.toml", Err("No such file".to_string()), Overrides::new(), Overrides::new(), &d);
    assert_eq!(unreadable.err(), Some("Config file not found at 's.toml': No such file".to_string()));
    let invalid = begin_init_with_defaults(
        &store,
        "s.toml",
        Ok("lfs_url = \"ftp://x\"\n".to_string()),
        Overrides::new(),
        Overrides::new(),
        &d,
    );
    assert!(invalid.err().unwrap().starts_with("Invalid URL scheme for 'lfs_url'"));
}

#[test]
fn init_after_early_read_overrides_defaults() {
    let d = defaults_for("ivy");
    let mut store = ConfigStore::new();
    store.ensure_fallback(defaults_for("ivy"));
    assert_eq!(base_url(store.current().unwrap()), "http://localhost:8000");
    let loaded = begin_init_with_defaults(
        &store,
        "s.toml",
        Ok("base_url = \"http://mega.example\"\n".to_string()),
        Overrides::new(),
        Overrides::new(),
        &d,
    )
    .unwrap();
    assert_eq!(finish_init(&mut store, loaded, Ok(())), Ok(()));
    assert_eq!(base_url(store.current().unwrap()), "http://mega.example");
}

#[test]
fn serve_start_exits_at_first_failed_step() {
    assert!(matches!(serve_start(false, true, true), StartStep::Exit(c) if c == exit::CONFIG));
    assert!(matches!(serve_start(true, false, true), StartStep::Exit(c) if c == exit::MOUNT));
    assert!(matches!(serve_start(true, true, false), StartStep::UnmountThenExit(c) if c == exit::BIND));
    assert!(matches!(serve_start(true, true, true), StartStep::Run));
}

#[test]
fn mount_is_refused_before_anything_is_done() {
    let manager = ScorpioManager { works: vec![work("repo/a")] };
    assert_eq!(route_mount(&manager, "repo/b", true, true).err(), Some("The target is already mounted".to_string()));
    assert_eq!(route_mount(&manager, "repo/a/x", false, false).err(), Some("The repo/a is already checked-out".to_string()));
    assert!(matches!(route_mount(&manager, "repo/b", true, false), Ok(MountRoute::Temp)));
    assert!(matches!(route_mount(&manager, "repo/b", false, false), Ok(MountRoute::Fetch)));
}

#[test]
fn temp_mount_is_recorded_then_rolled_back_when_not_persisted() {
    let mut manager = ScorpioManager { works: vec![work("repo/a")] };
    let failed = record_temp_mount(&mut manager, "repo/t", 5, "hh", Err("busy".to_string()));
    assert_eq!(failed.err(), Some("Failed to overlay mount: busy".to_string()));
    assert_eq!(manager.works.len(), 1);
    let info = record_temp_mount(&mut manager, "repo/t", 5, "hh", Ok(())).unwrap();
    assert_eq!((info.hash.as_str(), info.path.as_str(), info.inode), ("hh", "repo/t", 5));
    assert_eq!(manager.works.len(), 2);
    assert_eq!(manager.works[1].path, "repo/t");
    let settled = settle_temp_mount(&mut manager, info, Err("disk full".to_string()));
    assert!(settled.roll_back);
    assert_eq!(settled.result.err(), Some("Failed to persist mount state: disk full".to_string()));
    assert_eq!(manager.works.len(), 1);
    assert_eq!(manager.works[0].path, "repo/a");
    let info = record_temp_mount(&mut manager, "repo/t", 5, "hh", Ok(())).unwrap();
    let kept = settle_temp_mount(&mut manager, info, Ok(()));
    assert!(!kept.roll_back);
    assert_eq!(kept.result.unwrap().path, "repo/t");
    assert_eq!(manager.works.len(), 2);
}

#[test]
fn fetched_mount_reports_each_failure() {
    assert_eq!(after_fetch(Err("timeout".to_string())).err(), Some("Failed to fetch: timeout".to_string()));
    let w = after_fetch(Ok(work("repo/f"))).unwrap();
    assert_eq!(
        after_fetched_overlay(3, WorkDir { path: "repo/f".to_string(), node: 3, hash: "h".to_string() }, Err("eperm".to_string())).err(),
        Some("Mount process error: eperm".to_string())
    );
    let info: MountInfo = after_fetched_overlay(3, w, Ok(())).unwrap();
    assert_eq!((info.hash.as_str(), info.path.as_str(), info.inode), ("h", "repo/f", 3));
}

#[test]
fn umount_plan_and_verdicts() {
    let mut registry = MountRegistry::new();
    registry.insert(job("j1"));
    assert!(plan_umount(&registry, "nope", None, true).is_none());
    let plan = plan_umount(&registry, "j1", Some("50000"), true).unwrap();
    assert_eq!(plan.mountpoint, "/mnt/j1");
    assert_eq!(plan.grace_ms, 3000);
    assert!(matches!(plan.method, UnmountMethod::Handle));
    let plan = plan_umount(&registry, "j1", None, false).unwrap();
    assert_eq!(plan.grace_ms, 150);
    assert!(matches!(plan.method, UnmountMethod::Fusermount));
    assert!(after_handle_unmount(&Ok(())).is_none());
    assert!(matches!(after_handle_unmount(&Err("x".to_string())), Some(UnmountMethod::Fusermount)));
    assert!(matches!(fusermount_verdict(Ok((true, String::new()))), FusermountVerdict::Unmounted));
    assert!(matches!(fusermount_verdict(Ok((false, "not mounted".to_string()))), FusermountVerdict::NotMounted));
    assert!(matches!(fusermount_verdict(Ok((false, "busy".to_string()))), FusermountVerdict::Failed));
    assert!(matches!(fusermount_verdict(Err("no such binary".to_string())), FusermountVerdict::NotStarted(e) if e == "no such binary"));
}

#[test]
fn unmount_follow_up_cleans_cl_and_forgets_workspace() {
    let mut manager = ScorpioManager { works: vec![work("repo_cl42"), work("other")] };
    let failed = after_unmount(&mut manager, Err("busy".to_string()), Some("repo_cl42"));
    assert_eq!(failed.reply.status, "Fail");
    assert!(failed.cl_link.is_none() && failed.forgotten.is_none());
    assert_eq!(manager.works.len(), 2);
    let done = after_unmount(&mut manager, Ok(()), Some("repo_cl42"));
    assert_eq!(done.reply.status, "Success");
    assert_eq!(done.cl_link, Some("cl42".to_string()));
    assert_eq!(done.forgotten, Some(Ok(())));
    assert_eq!(manager.works.len(), 1);
    let untracked = after_unmount(&mut manager, Ok(()), Some("nothing"));
    assert_eq!(untracked.reply.message, "Directory unmounted successfully");
    assert_eq!(untracked.forgotten, Some(Err("Workspace not found".to_string())));
    let no_path = after_unmount(&mut manager, Ok(()), None);
    assert!(no_path.cl_link.is_none() && no_path.forgotten.is_none());
}

#[test]
fn umount_forgets_the_job_whatever_happened() {
    for outcome in [
        UnmountOutcome::Handle(Ok(())),
        UnmountOutcome::Handle(Err("busy".to_string())),
        UnmountOutcome::Fusermount(FusermountVerdict::Failed),
        UnmountOutcome::Fusermount(FusermountVerdict::NotStarted("no helper".to_string())),
    ] {
        let mut registry = MountRegistry::new();
        registry.insert(job("j1"));
        registry.insert(job("j2"));
        let removed = finish_umount(&mut registry, "j1", &outcome).unwrap();
        assert_eq!(removed.mountpoint, "/mnt/j1");
        assert!(!registry.contains("j1"));
        assert!(registry.contains("j2"));
        assert!(finish_umount(&mut registry, "j1", &outcome).is_none());
    }
}

#[test]
fn job_is_planned_under_the_mount_root() {
    let paths = AntaresPaths::new(
        "/r/upper".to_string(),
        "/r/cl".to_string(),
        "/r/mnt".to_string(),
        "/r/state.toml".to_string(),
    );
    let planned = paths.plan_job("build-42", Some("cl-1"));
    assert_eq!(planned.mountpoint, "/r/mnt/build-42");
    assert_eq!(planned.job_id, "build-42");
    assert_eq!(planned.upper_dir, format!("/r/upper/{}", planned.upper_id));
    assert_eq!(planned.cl_dir, Some(format!("/r/cl/{}", planned.cl_id.clone().unwrap())));
}

#[test]
fn http_reply_pretty_prints_the_body() {
    let body = "{\"status\":\"Success\",\"mount\":{\"inode\":7}}".to_string();
    match mount_reply(Ok(body.clone())) {
        HttpReply::Body(p) => {
            assert_ne!(p, body);
            assert_eq!(p, "{\n  \"mount\": {\n    \"inode\": 7\n  },\n  \"status\": \"Success\"\n}");
        }
        _ => panic!("expected a body"),
    }
    assert!(matches!(mount_reply(Ok("not json".to_string())), HttpReply::BadBody(m) if m.contains("expected")));
    assert!(matches!(mount_reply(Err("connection reset".to_string())), HttpReply::BadBody(m) if m == "connection reset"));
    let rejected = http_reply(Ok(HttpAnswer {
        success: false,
        status: "409 Conflict".to_string(),
        body: Err("gone".to_string()),
    }));
    assert!(matches!(rejected, HttpReply::Rejected { ref status, ref body } if status == "409 Conflict" && body.is_empty()));
    let ok = http_reply(Ok(HttpAnswer { success: true, status: "200 OK".to_string(), body: Ok("[]".to_string()) }));
    assert!(matches!(ok, HttpReply::Body(p) if p == "[]"));
    assert!(matches!(http_reply(Err("refused".to_string())), HttpReply::Failed(e) if e == "refused"));
}

#[test]
fn doctor_run_fails_only_on_device_or_directories() {
    let cfg = defaults_for("ivy");
    let all_ok = || DirVerdicts {
        workspace: Ok(()),
        store_path: Ok(()),
        antares_upper_root: Ok(()),
        antares_cl_root: Ok(()),
        antares_mount_root: Ok(()),
    };
    let run = run_checks(&cfg, true, Err("unreadable".to_string()), None, all_ok(), MegaReply::Unreachable("down".to_string()));
    assert_eq!(run.checks.len(), 9);
    assert_eq!(run.failures, 0);
    assert_eq!(run.code, exit::SUCCESS);
    assert_eq!(run.checks[3].name, "workspace");
    assert_eq!(run.checks[8].name, "mega server");
    let mut dirs = all_ok();
    dirs.antares_cl_root = Err("does not exist".to_string());
    let run = run_checks(&cfg, false, Ok("nodev\tfuse\n".to_string()), None, dirs, MegaReply::Reachable(200));
    assert_eq!(run.failures, 2);
    assert_eq!(run.code, exit::INTERNAL);
    assert!(run.checks[0].status == Status::Fail);
    assert!(run.checks[6].status == Status::Fail);
}
