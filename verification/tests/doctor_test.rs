use scorpiofs::doctor::{
    check_line, count_failures, directory_check, fuse_conf_check, fuse_device_check,
    fuse_filesystem_check, mega_check, summary_line, writable_verdict, MegaReply, Status,
};

#[test]
fn missing_fuse_device_is_critical() {
    let ok = fuse_device_check(true);
    assert!(ok.status == Status::Pass);
    assert_eq!(check_line(&ok), "[ OK ] fuse device: /dev/fuse is present");
    let missing = fuse_device_check(false);
    assert!(missing.status == Status::Fail);
    assert!(missing.detail.starts_with("/dev/fuse not found"));
}

#[test]
fn fuse_filesystem_is_matched_as_a_whole_field() {
    let listed = fuse_filesystem_check(Ok("nodev\tsysfs\n\tfuseblk\nnodev\tfuse\n".to_string()));
    assert!(listed.status == Status::Pass);
    assert_eq!(listed.detail, "kernel supports fuse");
    let only_lookalikes = fuse_filesystem_check(Ok("\tfuseblk\nnodev\tfusectl\n".to_string()));
    assert!(only_lookalikes.status == Status::Warn);
    let unreadable = fuse_filesystem_check(Err("permission denied".to_string()));
    assert!(unreadable.status == Status::Warn);
    assert_eq!(unreadable.detail, "could not read /proc/filesystems: permission denied");
}

#[test]
fn fuse_conf_needs_an_uncommented_user_allow_other() {
    assert!(fuse_conf_check(Some("# user_allow_other\n  user_allow_other  \n".to_string())).status == Status::Pass);
    assert!(fuse_conf_check(Some("#user_allow_other\n".to_string())).status == Status::Warn);
    let missing = fuse_conf_check(None);
    assert!(missing.status == Status::Warn);
    assert_eq!(missing.detail, "not found (only needed for allow_other mounts)");
}

#[test]
fn directory_verdicts_in_order_of_checks() {
    assert_eq!(writable_verdict(false, false, Ok(())), Err("does not exist".to_string()));
    assert_eq!(writable_verdict(true, false, Ok(())), Err("not a directory".to_string()));
    assert_eq!(
        writable_verdict(true, true, Err("read-only file system".to_string())),
        Err("not writable: read-only file system".to_string())
    );
    assert_eq!(writable_verdict(true, true, Ok(())), Ok(()));
    let ok = directory_check("workspace", "/tmp/w", Ok(()));
    assert_eq!(check_line(&ok), "[ OK ] workspace: /tmp/w is writable");
    let bad = directory_check("store_path", "/tmp/s", Err("does not exist".to_string()));
    assert_eq!(check_line(&bad), "[FAIL] store_path: /tmp/s: does not exist");
}

#[test]
fn mega_server_problems_only_warn() {
    let up = mega_check("http://localhost:8000", MegaReply::Reachable(200));
    assert_eq!(check_line(&up), "[ OK ] mega server: http://localhost:8000 reachable (HTTP 200)");
    let down = mega_check("http://localhost:8000", MegaReply::Unreachable("refused".to_string()));
    assert!(down.status == Status::Warn);
    assert_eq!(down.detail, "http://localhost:8000 unreachable: refused");
    let no_client = mega_check("http://x", MegaReply::NoClient("tls".to_string()));
    assert_eq!(no_client.detail, "could not build HTTP client: tls");
}

#[test]
fn failures_are_counted_and_summarised() {
    let checks = vec![
        fuse_device_check(false),
        fuse_conf_check(None),
        directory_check("workspace", "/w", Err("does not exist".to_string())),
        directory_check("store_path", "/s", Ok(())),
    ];
    assert_eq!(count_failures(&checks), 2);
    assert_eq!(summary_line(2), "2 critical check(s) failed.");
    assert_eq!(summary_line(0), "All critical checks passed.");
    assert_eq!(count_failures(&vec![fuse_conf_check(None)]), 0);
}
