use scorpiofs::daemon::{
    after_temp_point, config_reply, first_inode_step, resolve_after_lookup, update_config_reply, InodeStep, temp_point_error, unmount_reply, LookupStatus,
};
use scorpiofs::util::config::defaults_for;
use scorpiofs::daemon::{
    checked_out_message, cl_link_of, mount_failure_message, task_is_done, umount_target, UmountTarget,
};
use scorpiofs::text::{
    contains_text, i64_text, parse_unsigned_text, rfind_char, starts_with, str_is_blank,
    to_ascii_lowercase, to_ascii_uppercase, trim_text, u64_text, ParseIntFailure,
};
use scorpiofs::util::overrides::Overrides;

#[test]
fn trim_matches_std() {
    for s in ["", "  ", " a b ", "\t\nx\r\n", "\u{3000}y\u{a0}", "z"] {
        assert_eq!(trim_text(s), s.trim());
        assert_eq!(str_is_blank(s), s.trim().is_empty());
    }
}

#[test]
fn case_mapping_matches_std() {
    for s in ["Base_Url", "ÄbC", "123-x"] {
        assert_eq!(to_ascii_lowercase(s), s.to_ascii_lowercase());
        assert_eq!(to_ascii_uppercase(s), s.to_ascii_uppercase());
    }
}

#[test]
fn decimal_rendering_matches_std() {
    for n in [0u64, 7, 10, 99, 12345, u64::MAX] {
        assert_eq!(u64_text(n), n.to_string());
    }
    for i in [0i64, -1, 42, i64::MIN, i64::MAX] {
        assert_eq!(i64_text(i), i.to_string());
    }
}

#[test]
fn unsigned_parse_matches_std() {
    for s in ["", "+", "-", "0", "+7", "-7", "12a", "4294967295", "4294967296", "00012", "9999999999999999999999x"] {
        let expected = match s.parse::<u32>() {
            Ok(v) => Ok(v as u64),
            Err(e) => Err(match e.kind() {
                std::num::IntErrorKind::Empty => ParseIntFailure::Empty,
                std::num::IntErrorKind::InvalidDigit => ParseIntFailure::InvalidDigit,
                _ => ParseIntFailure::PosOverflow,
            }),
        };
        assert_eq!(parse_unsigned_text(s, u32::MAX as u64), expected, "{s:?}");
    }
}

#[test]
fn search_helpers() {
    assert!(starts_with("third-party/mega", "third"));
    assert!(!starts_with("th", "third"));
    assert!(contains_text("The x is already checked-out", "already checked-out"));
    assert!(contains_text("abc", ""));
    assert!(!contains_text("abc", "abcd"));
    assert_eq!(rfind_char("a_b_c", '_'), Some(3));
    assert_eq!(rfind_char("abc", '_'), None);
}

#[test]
fn overrides_replace_values() {
    let mut o = Overrides::new();
    o.insert("k".to_string(), "1".to_string());
    o.insert("j".to_string(), "2".to_string());
    o.insert("k".to_string(), "3".to_string());
    assert_eq!(o.len(), 2);
    assert_eq!(o.get("k"), Some(&"3".to_string()));
    assert_eq!(o.get("j"), Some(&"2".to_string()));
    assert_eq!(o.get("x"), None);
}

#[test]
fn daemon_messages() {
    assert_eq!(mount_failure_message("The repo is already checked-out"), "please unmount");
    assert_eq!(mount_failure_message("The target is already mounted"), "please unmount");
    assert_eq!(mount_failure_message("Failed to fetch: boom"), "Mount failed: Failed to fetch: boom");
    assert_eq!(checked_out_message("repo"), "The repo is already checked-out");
    assert!(task_is_done("finished"));
    assert!(task_is_done("error"));
    assert!(!task_is_done("fetching"));
}

#[test]
fn cl_links_and_umount_targets() {
    assert_eq!(cl_link_of("repo/missing_cl123"), Some("cl123".to_string()));
    assert_eq!(cl_link_of("repo_a/b"), None);
    assert_eq!(cl_link_of("repo_"), None);
    assert_eq!(cl_link_of("repo"), None);
    assert!(matches!(umount_target(Some(5), Some("p")), Ok(UmountTarget::Inode(5))));
    assert!(matches!(umount_target(None, Some("p")), Ok(UmountTarget::Path(ref p)) if p == "p"));
    let reply = umount_target(None, None).err().unwrap();
    assert_eq!(reply.status, "Fail");
    assert_eq!(reply.message, "Need a inode or path.");
}

#[test]
fn unmount_reply_reports_outcome() {
    let ok = unmount_reply(Ok(()));
    assert_eq!(ok.status, "Success");
    assert_eq!(ok.message, "Directory unmounted successfully");
    let failed = unmount_reply(Err("device busy".to_string()));
    assert_eq!(failed.status, "Fail");
    assert_eq!(failed.message, "Umount process error :device busy.");
}

#[test]
fn daemon_reports_and_echoes_config() {
    let cfg = defaults_for("erin");
    let info = config_reply(&cfg);
    assert_eq!(info.status, "Success");
    assert_eq!(info.config.mega_url, "http://localhost:8000");
    assert_eq!(info.config.mount_path, cfg.workspace);
    assert_eq!(info.config.store_path, cfg.store_path);
    let echoed = update_config_reply(Some("http://m".to_string()), None, Some("/s".to_string()));
    assert_eq!(echoed.status, "Success");
    assert_eq!(echoed.config.mega_url, "http://m");
    assert_eq!(echoed.config.mount_path, "");
    assert_eq!(echoed.config.store_path, "/s");
}

#[test]
fn unresolved_mount_path_is_refused_with_its_reason() {
    assert_eq!(resolve_after_lookup("repo", Ok(LookupStatus::Found(2))), Ok((2, false)));
    let missing = resolve_after_lookup("repo/missing_cl123", Ok(LookupStatus::NotFound)).unwrap_err();
    assert!(missing.contains("dicfuse"));
    assert!(missing.contains("repo/missing_cl123"));
    assert_eq!(missing, "Mount path not found in dicfuse: repo/missing_cl123");
    let unloaded = resolve_after_lookup(
        "repo/a/b",
        Ok(LookupStatus::ParentNotLoaded("repo/a".to_string())),
    );
    assert_eq!(
        unloaded,
        Err("Mount parent directory not loaded in dicfuse: repo/a/b (parent: repo/a)".to_string())
    );
    assert_eq!(
        resolve_after_lookup("repo", Err("store closed".to_string())),
        Err("Mount path lookup failed in dicfuse: repo: store closed".to_string())
    );
}

#[test]
fn failed_temp_point_names_an_unloaded_parent() {
    assert_eq!(
        temp_point_error("repo/tmp", "not found", Some(LookupStatus::ParentNotLoaded("repo".to_string()))),
        "Temp mount parent directory not loaded in dicfuse: repo/tmp (parent: repo)"
    );
    assert_eq!(
        temp_point_error("repo/tmp", "not found", Some(LookupStatus::NotFound)),
        "Failed to add temp point for repo/tmp: not found"
    );
    assert_eq!(
        temp_point_error("repo/tmp", "permission denied", None),
        "Failed to add temp point for repo/tmp: permission denied"
    );
}

#[test]
fn mount_inode_is_found_added_or_looked_up() {
    assert!(matches!(first_inode_step(Some(4), true), InodeStep::Found(4)));
    assert!(matches!(first_inode_step(Some(4), false), InodeStep::Found(4)));
    assert!(matches!(first_inode_step(None, false), InodeStep::AddTempPoint));
    assert!(matches!(first_inode_step(None, true), InodeStep::LookUp));
    assert_eq!(after_temp_point("repo/tmp", Ok(11), None), Ok((11, true)));
    assert_eq!(
        after_temp_point("repo/tmp", Err("not found".to_string()), Some(LookupStatus::ParentNotLoaded("repo".to_string()))),
        Err("Temp mount parent directory not loaded in dicfuse: repo/tmp (parent: repo)".to_string())
    );
}
