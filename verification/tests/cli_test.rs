use scorpiofs::antares::AntaresConfig;
use scorpiofs::cli::exit;
use scorpiofs::cli::report::{
    http_report, init_refusal, init_report, list_report, load_failure_report, mount_report,
    umount_report, validate_report, HttpReply,
};
use scorpiofs::cli::serve::{after_event, after_shutdown_wait, ServeEvent, ShutdownWait, TaskEnd};

fn instance(job: &str, cl_dir: Option<&str>) -> AntaresConfig {
    AntaresConfig {
        job_id: job.to_string(),
        mountpoint: format!("/mnt/{job}"),
        upper_id: "u".to_string(),
        upper_dir: format!("/upper/{job}"),
        cl_dir: cl_dir.map(|d| d.to_string()),
        cl_id: cl_dir.map(|_| "c".to_string()),
    }
}

#[test]
fn mount_report_names_job_and_mountpoint() {
    let ok = mount_report("build-42", Ok("/mnt/build-42".to_string()));
    assert_eq!(ok.code, exit::SUCCESS);
    assert_eq!(ok.out, vec!["mounted job build-42 at /mnt/build-42".to_string()]);
    assert!(ok.err.is_empty());
    let failed = mount_report("build-42", Err("timed out".to_string()));
    assert_eq!(failed.code, exit::MOUNT);
    assert!(failed.out.is_empty());
    assert_eq!(failed.err, vec!["failed to mount job build-42: timed out".to_string()]);
}

#[test]
fn umount_report_tells_the_three_outcomes_apart() {
    let done = umount_report("j", Ok(true));
    assert_eq!(done.code, exit::SUCCESS);
    assert_eq!(done.out, vec!["unmounted job j".to_string()]);
    let missing = umount_report("j", Ok(false));
    assert_eq!(missing.code, exit::MOUNT);
    assert_eq!(missing.err, vec!["job j not found".to_string()]);
    let failed = umount_report("j", Err("busy".to_string()));
    assert_eq!(failed.code, exit::MOUNT);
    assert_eq!(failed.err, vec!["failed to unmount job j: busy".to_string()]);
}

#[test]
fn list_report_shows_each_job_or_none() {
    let empty = list_report(&vec![]);
    assert_eq!(empty.code, exit::SUCCESS);
    assert_eq!(empty.out, vec!["no active jobs".to_string()]);
    let listed = list_report(&vec![instance("a", None), instance("b", Some("/cl/b"))]);
    assert_eq!(
        listed.out,
        vec![
            "job_id=a mount=/mnt/a upper=/upper/a cl=(none)".to_string(),
            "job_id=b mount=/mnt/b upper=/upper/b cl=/cl/b".to_string(),
        ]
    );
}

#[test]
fn validate_report_lists_every_problem() {
    let ok = validate_report("scorpio.toml", Ok(()));
    assert_eq!(ok.code, exit::SUCCESS);
    assert_eq!(ok.out, vec!["scorpio.toml: OK".to_string()]);
    let bad = validate_report(
        "scorpio.toml",
        Err(vec!["base_url is empty".to_string(), "workspace is empty".to_string()]),
    );
    assert_eq!(bad.code, exit::CONFIG);
    assert!(bad.out.is_empty());
    assert_eq!(
        bad.err,
        vec![
            "scorpio.toml: 2 problem(s) found:".to_string(),
            "  - base_url is empty".to_string(),
            "  - workspace is empty".to_string(),
        ]
    );
}

#[test]
fn config_init_refuses_to_overwrite_unless_forced() {
    let refused = init_refusal("scorpio.toml", true, false).unwrap();
    assert_eq!(refused.code, exit::CONFIG);
    assert_eq!(
        refused.err,
        vec!["refusing to overwrite existing 'scorpio.toml' (use --force)".to_string()]
    );
    assert!(init_refusal("scorpio.toml", true, true).is_none());
    assert!(init_refusal("scorpio.toml", false, false).is_none());
    let written = init_report("scorpio.toml", Ok(()));
    assert_eq!(written.code, exit::SUCCESS);
    assert_eq!(
        written.out,
        vec![
            "wrote config template to scorpio.toml".to_string(),
            "edit base_url/lfs_url, then: scorpio --config-path scorpio.toml doctor".to_string(),
        ]
    );
    let failed = init_report("/ro/scorpio.toml", Err("permission denied".to_string()));
    assert_eq!(failed.code, exit::CONFIG);
    assert_eq!(failed.err, vec!["failed to write '/ro/scorpio.toml': permission denied".to_string()]);
}

#[test]
fn load_failure_exits_with_config_code() {
    let r = load_failure_report("Config file not found at 'x'");
    assert_eq!(r.code, exit::CONFIG);
    assert_eq!(r.err, vec!["Failed to load config: Config file not found at 'x'".to_string()]);
}

#[test]
fn http_report_maps_each_reply() {
    let body = http_report(HttpReply::Body("{}".to_string()));
    assert_eq!(body.code, exit::SUCCESS);
    assert_eq!(body.out, vec!["{}".to_string()]);
    let bad = http_report(HttpReply::BadBody("expected value".to_string()));
    assert_eq!(bad.code, exit::INTERNAL);
    assert_eq!(bad.err, vec!["failed to parse response json: expected value".to_string()]);
    let rejected = http_report(HttpReply::Rejected {
        status: "409 Conflict".to_string(),
        body: "busy".to_string(),
    });
    assert_eq!(rejected.code, exit::MOUNT);
    assert_eq!(rejected.err, vec!["http mount failed: status=409 Conflict body=busy".to_string()]);
    let failed = http_report(HttpReply::Failed("connection refused".to_string()));
    assert_eq!(failed.code, exit::INTERNAL);
    assert_eq!(failed.err, vec!["http mount request failed: connection refused".to_string()]);
}

#[test]
fn serve_exits_cleanly_on_signal_and_clean_shutdown() {
    let p = after_event(ServeEvent::Signal);
    assert!(!p.mount_finished && !p.daemon_finished);
    assert_eq!(after_shutdown_wait(&p, ShutdownWait::Clean), (exit::SUCCESS, false));
}

#[test]
fn serve_reports_failures_as_internal() {
    let mount_failed = after_event(ServeEvent::MountEnded(TaskEnd::Failed));
    assert_eq!(mount_failed.code, exit::INTERNAL);
    assert!(mount_failed.mount_finished);
    assert_eq!(after_shutdown_wait(&mount_failed, ShutdownWait::Clean).0, exit::INTERNAL);

    let daemon_failed = after_event(ServeEvent::DaemonEnded(TaskEnd::Failed));
    assert_eq!(daemon_failed.code, exit::INTERNAL);
    assert!(daemon_failed.daemon_finished && !daemon_failed.mount_finished);

    let clean_mount_end = after_event(ServeEvent::MountEnded(TaskEnd::Clean));
    assert_eq!(clean_mount_end.code, exit::SUCCESS);
    assert_eq!(after_shutdown_wait(&clean_mount_end, ShutdownWait::Failed), (exit::INTERNAL, false));
    assert_eq!(after_shutdown_wait(&clean_mount_end, ShutdownWait::TimedOut), (exit::INTERNAL, true));
}
