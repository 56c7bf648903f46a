//! Sandboxes: artifact paths and launch descriptions.

use freeitw::sandbox::{default_sandboxs, BubbleWrap, Host, SandboxKind};

#[test]
fn host_prepare_spawn_runs_artifact_from_wd() {
    let host = Host("/tmp/wd".to_string());
    let args = vec!["alpha".to_string(), "beta".to_string()];
    let launch = host.prepare_spawn("1.bash", &args);
    assert_eq!(launch.program, "/tmp/wd/1.bash");
    assert_eq!(launch.args, args);
    assert_eq!(launch.current_dir.as_deref(), Some("/tmp/wd"));
}

#[test]
fn host_injest_path_joins_wd_and_name() {
    let host = Host("/tmp/wd".to_string());
    assert_eq!(host.injest_path("1.bash"), "/tmp/wd/1.bash");
}

#[test]
fn bwrap_prepare_spawn_builds_jail_command() {
    let sb = BubbleWrap::new(
        "/tmp/jail".to_string(),
        vec!["--unshare-all".to_string(), "--die-with-parent".to_string()],
    );
    let args = vec!["x".to_string()];
    let launch = sb.prepare_spawn("9.py", &args);
    assert_eq!(launch.program, "/usr/bin/bwrap");
    assert!(launch.current_dir.is_none());
    assert_eq!(
        launch.args,
        vec![
            "--bind".to_string(),
            "/tmp/jail".to_string(),
            "/wd".to_string(),
            "--unshare-all".to_string(),
            "--die-with-parent".to_string(),
            "--".to_string(),
            "/wd/9.py".to_string(),
            "x".to_string(),
        ]
    );
}

#[test]
fn sandbox_kind_dispatches() {
    let sb = SandboxKind::Host(Host("/srv".to_string()));
    assert_eq!(sb.injest_path("f"), "/srv/f");
    let launch = sb.prepare_spawn("f", &Vec::new());
    assert_eq!(launch.program, "/srv/f");
}

#[test]
fn default_sandboxs_carry_their_directories_and_flags() {
    let (host, bwrap) = default_sandboxs("/tmp/h".to_string(), "/tmp/b".to_string());
    assert_eq!(host.0, "/tmp/h");
    assert_eq!(bwrap.path, "/tmp/b");
    assert_eq!(bwrap.options.len(), 43);
    assert_eq!(bwrap.options.first().map(String::as_str), Some("--ro-bind"));
    assert_eq!(bwrap.options.last().map(String::as_str), Some("--new-session"));
    assert!(bwrap.options.iter().any(|o| o == "--unshare-all"));
    assert!(bwrap.options.iter().any(|o| o == "RESTRICTED"));
}
