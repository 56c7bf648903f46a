//! Materialization: shebang handling, hashing, artifact names.

use freeitw::lambda_app::{fnv1a_hash, u64_to_dec, BashApp, LambdaAppKind, PyApp};

#[test]
fn fnv1a_known_values() {
    assert_eq!(fnv1a_hash(b""), 14695981039346656037);
    assert_eq!(fnv1a_hash(b"a"), 12638187200555641996);
    assert_eq!(fnv1a_hash(b"#!/bin/env bash\necho hi"), 6461674932794744109);
}

#[test]
fn decimal_rendering() {
    assert_eq!(u64_to_dec(0), "0");
    assert_eq!(u64_to_dec(7), "7");
    assert_eq!(u64_to_dec(12345), "12345");
    assert_eq!(u64_to_dec(u64::MAX), "18446744073709551615");
}

#[test]
fn bash_effective_script_gets_shebang() {
    let app = LambdaAppKind::Bash(BashApp::new("echo hi".to_string()));
    assert_eq!(app.effective_script(), "#!/bin/env bash\necho hi");
}

#[test]
fn py_effective_script_gets_shebang() {
    let app = LambdaAppKind::Py(PyApp::new("print(1)".to_string(), "main".to_string()));
    assert_eq!(app.effective_script(), "#!/bin/env python3\nprint(1)");
}

#[test]
fn own_shebang_is_kept() {
    let app = LambdaAppKind::Bash(BashApp::new("#!/bin/sh\necho hi".to_string()));
    assert_eq!(app.effective_script(), "#!/bin/sh\necho hi");
}

#[test]
fn filename_is_hash_of_effective_script_plus_extension() {
    let app = LambdaAppKind::Bash(BashApp::new("echo hi".to_string()));
    assert_eq!(app.script_filename(), "6461674932794744109.bash");
    let py = LambdaAppKind::Py(PyApp::new("print(1)".to_string(), "main".to_string()));
    assert!(py.script_filename().ends_with(".py"));
}

#[test]
fn identical_scripts_share_one_artifact() {
    let a = LambdaAppKind::Bash(BashApp::new("cat".to_string()));
    let b = LambdaAppKind::Bash(BashApp::new("cat".to_string()));
    assert_eq!(a.script_filename(), b.script_filename());
    assert_eq!(a.effective_script(), b.effective_script());
    assert_eq!(a.script_filename(), "5754691278884591081.bash");
}

#[test]
fn distinct_scripts_get_distinct_artifacts() {
    let a = LambdaAppKind::Bash(BashApp::new("echo one".to_string()));
    let b = LambdaAppKind::Bash(BashApp::new("echo two".to_string()));
    assert_ne!(a.script_filename(), b.script_filename());
}
