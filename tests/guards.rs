use scoped_env::{pushd, pushenv, DirViolation, Pushd, Pushenv, VarAction, VarChanged};

fn s(x: &str) -> String {
    x.to_string()
}

fn open_dir(target: &str, before: &str, after: &str) -> Pushd {
    let change = pushd::<String>(s(target), Ok(s(before))).unwrap();
    assert_eq!(change.target(), target);
    let changed = change.entered::<String>(Ok(())).unwrap();
    changed.confirm::<String>(Ok(s(after))).unwrap()
}

#[test]
fn pushd_records_and_restores_the_directory() {
    let g = open_dir("/a/b", "/a", "/a/b");
    assert_eq!(g.prev_dir(), "/a");
    assert_eq!(g.dir(), "/a/b");
    assert_eq!(g.close::<String>(Ok(s("/a/b"))), Ok(s("/a")));
}

#[test]
fn pushd_records_the_canonical_form() {
    let g = open_dir("b/../c", "/a", "/a/c");
    assert_eq!(g.dir(), "/a/c");
    assert_eq!(g.close::<String>(Ok(s("/a/c"))), Ok(s("/a")));
}

#[test]
fn pushd_fails_when_the_directory_cannot_be_read() {
    let r = pushd(s("/a/b"), Err(s("unreadable")));
    assert!(matches!(r, Err(e) if e == "unreadable"));
}

#[test]
fn pushd_fails_when_the_directory_cannot_be_entered() {
    let change = pushd::<String>(s("/missing"), Ok(s("/a"))).unwrap();
    let r = change.entered(Err(s("not found")));
    assert!(matches!(r, Err(e) if e == "not found"));
}

#[test]
fn pushd_fails_when_the_new_directory_cannot_be_read() {
    let change = pushd::<String>(s("/a/b"), Ok(s("/a"))).unwrap();
    let changed = change.entered::<String>(Ok(())).unwrap();
    let r = changed.confirm(Err(s("gone")));
    assert!(matches!(r, Err(e) if e == "gone"));
}

#[test]
fn pushd_close_detects_a_changed_directory() {
    let g = open_dir("/a/b", "/a", "/a/b");
    assert_eq!(
        g.close::<String>(Ok(s("/elsewhere"))),
        Err(DirViolation::Changed { expected: s("/a/b"), got: s("/elsewhere") })
    );
}

#[test]
fn pushd_close_fails_when_the_directory_cannot_be_read() {
    let g = Pushd::new(s("/a"), s("/a/b"));
    assert_eq!(g.close(Err(s("unreadable"))), Err(DirViolation::Unreadable(s("unreadable"))));
}

#[test]
fn pushenv_on_an_unset_variable_removes_it_again() {
    let g = pushenv(s("TESTVAR"), s("x"), None);
    assert_eq!(g.setting(), VarAction::SetVar { key: s("TESTVAR"), value: s("x") });
    assert_eq!(g.close(Some(s("x"))), Ok(VarAction::RemoveVar { key: s("TESTVAR") }));
}

#[test]
fn pushenv_restores_the_old_value() {
    let g = pushenv(s("TESTVAR"), s("new"), Some(s("old")));
    assert_eq!(g.setting(), VarAction::SetVar { key: s("TESTVAR"), value: s("new") });
    assert_eq!(g.close(Some(s("new"))), Ok(VarAction::SetVar { key: s("TESTVAR"), value: s("old") }));
}

#[test]
fn pushenv_keeps_an_empty_prior_value() {
    let g = Pushenv::new(s("K"), s("v"), Some(s("")));
    assert_eq!(g.prev_value(), &Some(s("")));
    assert_eq!(g.close(Some(s("v"))), Ok(VarAction::SetVar { key: s("K"), value: s("") }));
}

#[test]
fn pushenv_records_key_and_values() {
    let g = pushenv(s("K"), s("v"), Some(s("p")));
    assert_eq!(g.key(), "K");
    assert_eq!(g.value(), "v");
    assert_eq!(g.prev_value(), &Some(s("p")));
}

#[test]
fn pushenv_close_detects_a_changed_value() {
    let g = pushenv(s("TESTVAR"), s("x"), None);
    assert_eq!(
        g.close(Some(s("y"))),
        Err(VarChanged { key: s("TESTVAR"), expected: s("x"), got: Some(s("y")) })
    );
}

#[test]
fn pushenv_close_detects_a_removed_variable() {
    let g = pushenv(s("TESTVAR"), s("x"), None);
    assert_eq!(
        g.close(None),
        Err(VarChanged { key: s("TESTVAR"), expected: s("x"), got: None })
    );
}
