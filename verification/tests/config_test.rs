use scorpiofs::util::config::{
    base_url, build_config, config_file, defaults_for, effective_config_dump, fetch_file_thread,
    file_blob_endpoint, git_author, git_email, init_config, init_config_with, load_config,
    load_config_with, load_dir_depth, store_path, validate_file_with, tree_file_endpoint, validate_file, workspace, ConfigStore,
    DicfuseStatMode, RawResolver,
};
use scorpiofs::util::overrides::Overrides;

fn table(src: &str) -> toml::Table {
    toml::from_str(src).expect("valid toml")
}

fn resolver(src: &str) -> RawResolver {
    RawResolver::new(table(src), Overrides::new(), Overrides::new())
}

#[test]
fn test_get_url() {
    let config_content = r#"
        base_url = "http://localhost:8000"
        workspace = ""
        store_path = ""
        git_author = "MEGA"
        git_email = "admin@mega.org"
        config_file = "config.toml"
        lfs_url = "http://localhost:8000/lfs"
        dicfuse_readable = "true"
        load_dir_depth = "3"
        fetch_file_thread = "10"
        antares_upper_root = ""
        antares_cl_root = ""
        antares_mount_root = ""
        antares_state_file = ""
        "#;
    let mut store = ConfigStore::new();
    match init_config(&mut store, "/tmp/scorpio.toml", config_content, Overrides::new()) {
        Ok(()) => {
            let cfg = store.current().unwrap();
            let user = whoami::username().unwrap_or_else(|_| "unknown".to_string());
            assert_eq!(base_url(cfg), "http://localhost:8000");
            assert_eq!(workspace(cfg), format!("/tmp/megadir-{}/mount", user));
            assert_eq!(store_path(cfg), format!("/tmp/megadir-{}/store", user));
            assert_eq!(git_author(cfg), "MEGA");
            assert_eq!(git_email(cfg), "admin@mega.org");
            assert_eq!(file_blob_endpoint(cfg), "http://localhost:8000/api/v1/file/blob");
            assert_eq!(load_dir_depth(cfg), 3);
            assert_eq!(fetch_file_thread(cfg), 10);
            assert_eq!(config_file(cfg), "config.toml");
            assert!(scorpiofs::util::config::antares_upper_root(cfg).ends_with("/antares/upper"));
            assert!(scorpiofs::util::config::antares_cl_root(cfg).ends_with("/antares/cl"));
            assert!(scorpiofs::util::config::antares_mount_root(cfg).ends_with("/antares/mnt"));
            assert!(scorpiofs::util::config::antares_state_file(cfg).ends_with("/antares/state.toml"));
        }
        Err(e) if e.contains("already initialized") => {
            let cfg = store.current().unwrap();
            assert!(!base_url(cfg).is_empty());
            assert!(!workspace(cfg).is_empty());
            assert!(!store_path(cfg).is_empty());
            assert!(file_blob_endpoint(cfg).starts_with(base_url(cfg)));
        }
        Err(e) => panic!("Failed to load config: {e}"),
    }
}

#[test]
fn empty_flat_value_falls_back_to_default() {
    let r = resolver(
        r#"
            base_url = "http://example.com"
            lfs_url = "http://example.com/lfs"
            workspace = ""
        "#,
    );
    let cfg = build_config(&r).expect("should build");
    assert!(cfg.workspace.ends_with("/mount"), "default workspace used");
    assert_eq!(cfg.base_url, "http://example.com");
}

#[test]
fn native_scalar_types_are_accepted() {
    let r = resolver(
        r#"
            base_url = "http://example.com"
            lfs_url = "http://example.com/lfs"
            load_dir_depth = 7
            dicfuse_readable = false
        "#,
    );
    let cfg = build_config(&r).expect("should build");
    assert_eq!(cfg.load_dir_depth, 7);
    assert!(!cfg.dicfuse_readable);
}

#[test]
fn section_form_is_supported() {
    let r = resolver(
        r#"
            base_url = "http://example.com"
            lfs_url = "http://example.com/lfs"

            [dicfuse]
            load_dir_depth = 9
            stat_mode = "fast"

            [antares]
            upper_root = "/srv/antares/upper"
        "#,
    );
    let cfg = build_config(&r).expect("should build");
    assert_eq!(cfg.load_dir_depth, 9);
    assert_eq!(cfg.dicfuse_stat_mode, DicfuseStatMode::Fast);
    assert_eq!(cfg.antares_upper_root, "/srv/antares/upper");
}

#[test]
fn invalid_number_is_rejected_with_field_name() {
    let r = resolver(
        r#"
            base_url = "http://example.com"
            lfs_url = "http://example.com/lfs"
            load_dir_depth = "abc"
        "#,
    );
    let err = build_config(&r).unwrap_err();
    assert!(err.contains("load_dir_depth"), "error names the field: {err}");
}

#[test]
fn numeric_lower_bound_is_enforced() {
    let r = resolver(
        r#"
            base_url = "http://example.com"
            lfs_url = "http://example.com/lfs"
            load_dir_depth = "0"
        "#,
    );
    let err = build_config(&r).unwrap_err();
    assert!(err.contains("load_dir_depth") && err.contains(">= 1"), "{err}");
}

#[test]
fn invalid_stat_mode_is_rejected() {
    let r = resolver(
        r#"
            base_url = "http://example.com"
            lfs_url = "http://example.com/lfs"
            dicfuse_stat_mode = "bogus"
        "#,
    );
    let err = build_config(&r).unwrap_err();
    assert!(err.contains("dicfuse_stat_mode"), "{err}");
}

#[test]
fn invalid_url_is_rejected() {
    let r = resolver(
        r#"
            base_url = "not-a-url"
            lfs_url = "http://example.com/lfs"
        "#,
    );
    let err = build_config(&r).unwrap_err();
    assert!(err.contains("base_url"), "{err}");
}

#[test]
fn missing_url_uses_default() {
    let r = resolver(r#"workspace = "/tmp/ws""#);
    let cfg = build_config(&r).expect("missing base_url falls back to default");
    assert_eq!(cfg.base_url, "http://localhost:8000");
    assert_eq!(cfg.lfs_url, "http://localhost:8000/lfs");
}

#[test]
fn non_scalar_value_is_rejected() {
    let r = resolver(
        r#"
            base_url = "http://example.com"
            lfs_url = "http://example.com/lfs"
            load_dir_depth = [3]
        "#,
    );
    let err = build_config(&r).unwrap_err();
    assert!(
        err.contains("load_dir_depth") && err.contains("array"),
        "present-but-non-scalar value must be rejected: {err}"
    );
}

#[test]
fn cli_override_beats_file() {
    let mut cli = Overrides::new();
    cli.insert("base_url".to_string(), "http://cli.example".to_string());
    let r = RawResolver::new(
        table(
            r#"
                base_url = "http://file.example"
                lfs_url = "http://example.com/lfs"
            "#,
        ),
        cli,
        Overrides::new(),
    );
    let cfg = build_config(&r).expect("should build");
    assert_eq!(cfg.base_url, "http://cli.example");
}

#[test]
fn validate_file_reports_all_problems() {
    let broken = r#"
            base_url = "not a url"
            lfs_url = "http://ok.example/lfs"
            load_dir_depth = "abc"
            fetch_file_thread = "0"
            dicfuse_stat_mode = "bogus"
            dicfuse_dir_sync_ttl_secs = "abc"
            antares_dicfuse_open_buff_max_bytes = "xyz"
        "#;
    let problems = validate_file("scorpio.toml", Ok(broken.to_string()), Overrides::new(), Overrides::new()).unwrap_err();
    for field in [
        "base_url",
        "load_dir_depth",
        "dicfuse_stat_mode",
        "fetch_file_thread",
        "dicfuse_dir_sync_ttl_secs",
        "antares_dicfuse_open_buff_max_bytes",
    ] {
        assert!(
            problems.iter().any(|p| p.contains(field)),
            "expected a problem mentioning {field}: {problems:?}"
        );
    }
    assert!(problems.len() >= 6, "expected >=6 problems, got {problems:?}");
}

#[test]
fn validate_file_accepts_valid_config() {
    let ok = r#"
            base_url = "http://example.com"
            lfs_url = "http://example.com/lfs"
        "#;
    assert!(validate_file("scorpio.toml", Ok(ok.to_string()), Overrides::new(), Overrides::new()).is_ok());
}

// ---------------------------------------------------------------------------
// Further cases.
// ---------------------------------------------------------------------------

#[test]
fn env_beats_file_and_cli_beats_env() {
    let file = r#"
        base_url = "http://file.example"
        lfs_url = "http://example.com/lfs"
    "#;
    let mut env = Overrides::new();
    env.insert("SCORPIO_BASE_URL".to_string(), "http://env.example".to_string());
    let r = RawResolver::new(table(file), Overrides::new(), env);
    assert_eq!(build_config(&r).unwrap().base_url, "http://env.example");

    let mut env = Overrides::new();
    env.insert("SCORPIO_BASE_URL".to_string(), "http://env.example".to_string());
    let mut cli = Overrides::new();
    cli.insert("base_url".to_string(), "http://cli.example".to_string());
    let r = RawResolver::new(table(file), cli, env);
    assert_eq!(build_config(&r).unwrap().base_url, "http://cli.example");
}

#[test]
fn blank_override_falls_through() {
    let mut cli = Overrides::new();
    cli.insert("base_url".to_string(), "   ".to_string());
    let r = RawResolver::new(
        table("base_url = \"http://file.example\"\nlfs_url = \"http://example.com/lfs\""),
        cli,
        Overrides::new(),
    );
    assert_eq!(build_config(&r).unwrap().base_url, "http://file.example");
}

#[test]
fn section_value_beats_flat_key() {
    let r = resolver(
        r#"
            load_dir_depth = 4
            [dicfuse]
            load_dir_depth = 6
        "#,
    );
    assert_eq!(build_config(&r).unwrap().load_dir_depth, 6);
}

#[test]
fn malformed_section_counts_as_absent() {
    let r = resolver(
        r#"
            dicfuse = "x"
            load_dir_depth = 5
        "#,
    );
    assert_eq!(build_config(&r).unwrap().load_dir_depth, 5);
}

#[test]
fn resolver_get_reports_each_source() {
    let r = resolver(
        r#"
            load_dir_depth = 7
            flag = true
            [server]
            git_author = "  "
        "#,
    );
    assert_eq!(r.get("load_dir_depth", "dicfuse", "load_dir_depth").unwrap(), Some("7".to_string()));
    assert_eq!(r.get("flag", "", "").unwrap(), Some("true".to_string()));
    assert_eq!(r.get("git_author", "server", "git_author").unwrap(), None);
    assert_eq!(r.get("missing", "server", "missing").unwrap(), None);
}

#[test]
fn float_and_negative_values_are_stringified() {
    let r = resolver("a = 1.5\nb = -42");
    assert_eq!(r.get("a", "", "").unwrap(), Some("1.5".to_string()));
    assert_eq!(r.get("b", "", "").unwrap(), Some("-42".to_string()));
    let r = resolver("load_dir_depth = -3\nbase_url = \"http://e.com\"\nlfs_url = \"http://e.com/l\"");
    let err = build_config(&r).unwrap_err();
    assert_eq!(err, "Invalid value for 'load_dir_depth': \"-3\" is not a valid usize (invalid digit found in string)");
}

#[test]
fn non_scalar_section_value_names_the_section() {
    let r = resolver("[dicfuse]\nload_dir_depth = { a = 1 }");
    let err = r.get("load_dir_depth", "dicfuse", "load_dir_depth").unwrap_err();
    assert_eq!(
        err,
        "Invalid value for '[dicfuse].load_dir_depth': expected a scalar (string/number/bool), got a table"
    );
    let r = resolver("when = 1979-05-27T07:32:00Z");
    let err = r.get("when", "", "").unwrap_err();
    assert!(err.ends_with("got a datetime"), "{err}");
}

#[test]
fn number_errors_are_exact() {
    let r = resolver("base_url = \"http://e.com\"\nlfs_url = \"http://e.com/l\"\ndicfuse_fetch_dir_max_retries = \"99999999999\"");
    assert_eq!(
        build_config(&r).unwrap_err(),
        "Invalid value for 'dicfuse_fetch_dir_max_retries': \"99999999999\" is not a valid u32 (number too large to fit in target type)"
    );
    let r = resolver("base_url = \"http://e.com\"\nlfs_url = \"http://e.com/l\"\nfetch_file_thread = \"  12 \"");
    assert_eq!(build_config(&r).unwrap().fetch_file_thread, 12);
    let r = resolver("base_url = \"http://e.com\"\nlfs_url = \"http://e.com/l\"\nfetch_file_thread = \"+8\"");
    assert_eq!(build_config(&r).unwrap().fetch_file_thread, 8);
}

#[test]
fn bool_and_mode_are_case_insensitive() {
    let r = resolver("base_url = \"http://e.com\"\nlfs_url = \"http://e.com/l\"\ndicfuse_readable = \" FALSE \"\n[antares]\nstat_mode = \"Accurate\"");
    let cfg = build_config(&r).unwrap();
    assert!(!cfg.dicfuse_readable);
    assert_eq!(cfg.antares_dicfuse_stat_mode, DicfuseStatMode::Accurate);
    let r = resolver("base_url = \"http://e.com\"\nlfs_url = \"http://e.com/l\"\ndicfuse_readable = \"yes\"");
    assert_eq!(
        build_config(&r).unwrap_err(),
        "Invalid boolean for 'dicfuse_readable': expected 'true' or 'false', got \"yes\""
    );
}

#[test]
fn url_errors_are_exact() {
    let r = resolver("base_url = \"ftp://example.com\"");
    assert_eq!(
        build_config(&r).unwrap_err(),
        "Invalid URL scheme for 'base_url': expected http/https, got \"ftp\" in \"ftp://example.com\""
    );
    let r = resolver("base_url = \"http://e.com\"\nlfs_url = \"not-a-url\"");
    let err = build_config(&r).unwrap_err();
    assert!(err.starts_with("Invalid URL for 'lfs_url': \"not-a-url\" ("), "{err}");
}

#[test]
fn required_and_range_messages() {
    let mut cli = Overrides::new();
    cli.insert("fetch_file_thread".to_string(), "0".to_string());
    let r = RawResolver::new(table(""), cli, Overrides::new());
    assert_eq!(build_config(&r).unwrap_err(), "Invalid config 'fetch_file_thread': must be >= 1, got 0");
    let r = resolver("dicfuse_connect_timeout_secs = 0\ndicfuse_fetch_dir_timeout_secs = 0");
    assert_eq!(
        build_config(&r).unwrap_err(),
        "Invalid config 'dicfuse_fetch_dir_timeout_secs': must be >= 1, got 0"
    );
    let problems = validate_file("c.toml", Ok("dicfuse_connect_timeout_secs = 0\ndicfuse_fetch_dir_timeout_secs = 0".to_string()), Overrides::new(), Overrides::new()).unwrap_err();
    assert_eq!(
        problems,
        vec![
            "Invalid config 'dicfuse_connect_timeout_secs': must be >= 1, got 0".to_string(),
            "Invalid config 'dicfuse_fetch_dir_timeout_secs': must be >= 1, got 0".to_string(),
        ]
    );
}

#[test]
fn invalid_toml_is_reported_with_path() {
    let problems = validate_file("bad.toml", Ok("= =".to_string()), Overrides::new(), Overrides::new()).unwrap_err();
    assert_eq!(problems.len(), 1);
    assert!(problems[0].starts_with("Invalid config format in 'bad.toml': "));
    let err = load_config("bad.toml", "= =", Overrides::new(), Overrides::new()).unwrap_err();
    assert!(err.starts_with("Invalid config format in 'bad.toml': "));
}

#[test]
fn unreadable_config_file_is_the_only_problem() {
    let problems = validate_file(
        "missing.toml",
        Err("No such file or directory (os error 2)".to_string()),
        Overrides::new(),
        Overrides::new(),
    )
    .unwrap_err();
    assert_eq!(
        problems,
        vec!["Config file not found at 'missing.toml': No such file or directory (os error 2)".to_string()]
    );
}

#[test]
fn defaults_follow_user_name() {
    let d = defaults_for("alice");
    assert_eq!(d.workspace, "/tmp/megadir-alice/mount");
    assert_eq!(d.store_path, "/tmp/megadir-alice/store");
    assert_eq!(d.antares_upper_root, "/tmp/megadir-alice/antares/upper");
    assert_eq!(d.antares_cl_root, "/tmp/megadir-alice/antares/cl");
    assert_eq!(d.antares_mount_root, "/tmp/megadir-alice/antares/mnt");
    assert_eq!(d.antares_state_file, "/tmp/megadir-alice/antares/state.toml");
    assert_eq!(d.dicfuse_open_buff_max_bytes, 256 * 1024 * 1024);
    assert_eq!(d.antares_dicfuse_open_buff_max_bytes, 64 * 1024 * 1024);
    assert_eq!(d.dicfuse_stat_mode, DicfuseStatMode::Accurate);
    assert_eq!(d.antares_dicfuse_stat_mode, DicfuseStatMode::Fast);
    assert_eq!(tree_file_endpoint(&d), "http://localhost:8000/api/v1/file/tree?path=/");
}

#[test]
fn init_twice_is_refused_and_keeps_first() {
    let mut store = ConfigStore::new();
    store.ensure_fallback(defaults_for("bob"));
    assert_eq!(workspace(store.current().unwrap()), "/tmp/megadir-bob/mount");
    let mut cli = Overrides::new();
    cli.insert("workspace".to_string(), "/ws/one".to_string());
    init_config_with(&mut store, "a.toml", "", cli, Overrides::new()).unwrap();
    assert_eq!(workspace(store.current().unwrap()), "/ws/one");
    let mut cli = Overrides::new();
    cli.insert("workspace".to_string(), "/ws/two".to_string());
    let err = init_config_with(&mut store, "a.toml", "", cli, Overrides::new()).unwrap_err();
    assert_eq!(err, "Configuration already initialized");
    assert_eq!(workspace(store.current().unwrap()), "/ws/one");
}

#[test]
fn failed_init_leaves_store_uninitialized() {
    let mut store = ConfigStore::new();
    let err = init_config(&mut store, "a.toml", "load_dir_depth = \"x\"", Overrides::new()).unwrap_err();
    assert!(err.contains("load_dir_depth"));
    assert!(!store.is_initialized());
    assert!(store.current().is_none());
}

#[test]
fn dump_lists_every_field() {
    let d = defaults_for("carol");
    let dump = effective_config_dump(&d);
    assert!(dump.starts_with("ScorpioConfig {\n    base_url: \"http://localhost:8000\",\n"));
    assert!(dump.contains("    load_dir_depth: 3,\n"));
    assert!(dump.contains("    dicfuse_readable: true,\n"));
    assert!(dump.contains("    antares_dicfuse_stat_mode: Fast,\n"));
    assert!(dump.ends_with("    antares_state_file: \"/tmp/megadir-carol/antares/state.toml\",\n}"));
    assert_eq!(dump, format!("{:#?}", d));
}

#[test]
fn validation_and_startup_agree_across_users() {
    let a = defaults_for("alice");
    let b = defaults_for("bob");
    for text in [
        "base_url = \"http://m.example\"\n",
        "workspace = \"   \"\n",
        "fetch_file_thread = 0\n",
        "lfs_url = \"ftp://x\"\n",
    ] {
        let checked = validate_file_with("c.toml", Ok(text.to_string()), Overrides::new(), Overrides::new(), &a);
        let loaded = load_config_with("c.toml", text, Overrides::new(), Overrides::new(), &b);
        assert_eq!(checked.is_ok(), loaded.is_ok(), "{text}");
    }
}
