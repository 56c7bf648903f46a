//! Catalog behaviour: insert, get, delete, and paging.

use freeitw::api::{
    lambda_delete, lambda_get, lambdas_index, lambdas_insert, sandboxs_index, LambdasInsert,
};
use freeitw::catalog::AppState;
use freeitw::error::HttpErr;
use freeitw::lambda_app::{BashApp, LambdaAppKind};
use freeitw::pagination::Pagination;
use freeitw::sandbox::{Host, SandboxKind};

fn bash(script: &str) -> LambdaAppKind {
    LambdaAppKind::Bash(BashApp::new(script.to_string()))
}

fn script_of(app: &LambdaAppKind) -> &str {
    match app {
        LambdaAppKind::Bash(b) => b.script.as_str(),
        LambdaAppKind::Py(p) => p.pycode.as_str(),
    }
}

#[test]
fn insert_then_get_returns_inserted() {
    let mut state = AppState::new();
    let status = lambdas_insert(
        &mut state,
        LambdasInsert { name: "e".to_string(), app: bash("echo hi") },
    );
    assert_eq!(status, 201);
    let got = lambda_get(&state, &"e".to_string()).expect("lambda should be found");
    assert_eq!(script_of(got), "echo hi");
}

#[test]
fn insert_delete_get_is_not_found() {
    let mut state = AppState::new();
    let _ = lambdas_insert(
        &mut state,
        LambdasInsert { name: "e".to_string(), app: bash("echo hi") },
    );
    let deleted = lambda_delete(&mut state, &"e".to_string());
    assert!(matches!(deleted, Ok(200)));
    let got = lambda_get(&state, &"e".to_string());
    match got {
        Err(HttpErr::Status(code)) => assert_eq!(code, 404),
        _ => panic!("expected a not-found status"),
    }
}

#[test]
fn get_missing_is_not_found() {
    let state = AppState::new();
    let got = lambda_get(&state, &"missing".to_string());
    match got {
        Err(e) => assert_eq!(e.response_parts().0, 404),
        Ok(_) => panic!("expected an error"),
    }
}

#[test]
fn delete_missing_is_not_found() {
    let mut state = AppState::new();
    let got = lambda_delete(&mut state, &"missing".to_string());
    match got {
        Err(HttpErr::Status(code)) => assert_eq!(code, 404),
        _ => panic!("expected a not-found status"),
    }
}

#[test]
fn insert_replaces_same_name() {
    let mut state = AppState::new();
    let _ = lambdas_insert(
        &mut state,
        LambdasInsert { name: "e".to_string(), app: bash("echo one") },
    );
    let _ = lambdas_insert(
        &mut state,
        LambdasInsert { name: "e".to_string(), app: bash("echo two") },
    );
    let got = lambda_get(&state, &"e".to_string()).expect("lambda should be found");
    assert_eq!(script_of(got), "echo two");
    let page = lambdas_index(&state, &Pagination::default());
    assert_eq!(page.len(), 1);
}

#[test]
fn index_pages_in_insertion_order() {
    let mut state = AppState::new();
    for name in ["a", "b", "c"] {
        let _ = lambdas_insert(
            &mut state,
            LambdasInsert { name: name.to_string(), app: bash("true") },
        );
    }
    let all = lambdas_index(&state, &Pagination::default());
    let names: Vec<&str> = all.iter().map(|(n, _)| n.as_str()).collect();
    assert_eq!(names, vec!["a", "b", "c"]);

    let window = lambdas_index(&state, &Pagination { offset: 1, limit: 1 });
    assert_eq!(window.len(), 1);
    assert_eq!(window[0].0.as_str(), "b");

    let beyond = lambdas_index(&state, &Pagination { offset: 5, limit: 10 });
    assert!(beyond.is_empty());
}

#[test]
fn sandbox_index_lists_registered_sandboxes() {
    let mut state = AppState::new();
    state.sandboxs.insert("host".to_string(), SandboxKind::Host(Host("/tmp/a".to_string())));
    state.sandboxs.insert("other".to_string(), SandboxKind::Host(Host("/tmp/b".to_string())));
    assert_eq!(state.sandboxs.len(), 2);
    let page = sandboxs_index(&state, &Pagination::default());
    assert_eq!(page.len(), 2);
    assert_eq!(page[0].0.as_str(), "host");
    assert_eq!(page[1].0.as_str(), "other");
}

#[test]
fn pagination_default_is_everything() {
    let p = Pagination::default();
    assert_eq!(p.offset, 0);
    assert_eq!(p.limit, usize::MAX);
}
