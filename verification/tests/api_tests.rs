//! Endpoint cores: argument splitting, parameter defaults, execution
//! setup, and error rendering.

use freeitw::api::{lambda_exec_setup, lambdas_insert, split_args, ExecParams, LambdasInsert};
use freeitw::catalog::AppState;
use freeitw::error::HttpErr;
use freeitw::lambda_app::{BashApp, LambdaAppKind};
use freeitw::sandbox::{Host, SandboxKind};

#[test]
fn empty_args_split_to_no_arguments() {
    assert!(split_args("").is_empty());
}

#[test]
fn all_whitespace_args_split_to_no_arguments() {
    assert!(split_args("   \t \n ").is_empty());
}

#[test]
fn args_split_on_whitespace() {
    assert_eq!(split_args("alpha beta"), vec!["alpha", "beta"]);
    assert_eq!(split_args("  a \t b  c "), vec!["a", "b", "c"]);
    assert_eq!(split_args("one"), vec!["one"]);
}

#[test]
fn exec_params_default() {
    let p = ExecParams::default();
    assert_eq!(p.sandbox, "host");
    assert_eq!(p.args, "");
    assert!(!p.status);
}

#[test]
fn exec_setup_on_missing_lambda_is_not_found() {
    let state = AppState::new();
    let r = lambda_exec_setup(&state, &"missing".to_string(), &ExecParams::default());
    match r {
        Err(HttpErr::Status(code)) => assert_eq!(code, 404),
        _ => panic!("expected a not-found status"),
    }
}

#[test]
fn exec_setup_on_missing_sandbox_is_not_found() {
    let mut state = AppState::new();
    let _ = lambdas_insert(
        &mut state,
        LambdasInsert {
            name: "e".to_string(),
            app: LambdaAppKind::Bash(BashApp::new("echo hi".to_string())),
        },
    );
    let params = ExecParams { sandbox: "nowhere".to_string(), args: String::new(), status: false };
    let r = lambda_exec_setup(&state, &"e".to_string(), &params);
    assert!(matches!(r, Err(HttpErr::Status(404))));
}

#[test]
fn exec_setup_builds_plan_and_session() {
    let mut state = AppState::new();
    let _ = lambdas_insert(
        &mut state,
        LambdasInsert {
            name: "e".to_string(),
            app: LambdaAppKind::Bash(BashApp::new("echo $1 $2".to_string())),
        },
    );
    state.sandboxs.insert("host".to_string(), SandboxKind::Host(Host("/tmp/wd".to_string())));
    let params = ExecParams {
        sandbox: "host".to_string(),
        args: "alpha beta".to_string(),
        status: true,
    };
    let setup = lambda_exec_setup(&state, &"e".to_string(), &params).expect("setup should work");
    assert_eq!(setup.plan.content, "#!/bin/env bash\necho $1 $2");
    assert!(setup.plan.filename.ends_with(".bash"));
    assert_eq!(
        setup.plan.dest_path,
        format!("/tmp/wd/{}", setup.plan.filename)
    );
    assert_eq!(setup.plan.launch.program, format!("/tmp/wd/{}", setup.plan.filename));
    assert_eq!(setup.plan.launch.args, vec!["alpha".to_string(), "beta".to_string()]);
    assert_eq!(setup.plan.launch.current_dir.as_deref(), Some("/tmp/wd"));
    assert!(setup.mux.stdin_open);
    assert!(setup.mux.print_status);
    assert!(!setup.mux.terminated);
}

#[test]
fn error_variants_render_their_responses() {
    let (code, body) = HttpErr::Generic("lock poisoned".to_string()).response_parts();
    assert_eq!(code, 500);
    assert_eq!(body, "Something went wrong: lock poisoned");

    let (code, body) = HttpErr::Io("pipe broke".to_string()).response_parts();
    assert_eq!(code, 500);
    assert_eq!(body, "IO: pipe broke");

    let (code, body) = HttpErr::Http("bad frame".to_string()).response_parts();
    assert_eq!(code, 500);
    assert_eq!(body, "IO: bad frame");

    let (code, body) = HttpErr::Status(404).response_parts();
    assert_eq!(code, 404);
    assert_eq!(body, "");

    assert!(matches!(HttpErr::from(404u16), HttpErr::Status(404)));
}
