use keepawake::{Acquire, Failure, IOError, KeepAwake, Mode, Options};

fn options(display: bool, idle: bool, sleep: bool, reason: &str) -> Options {
    Options { display, idle, sleep, reason: reason.to_string() }
}

fn granted(a: Acquire, id: u32) -> Acquire {
    match a.record(0, id) {
        Ok(next) => next,
        Err(_) => panic!("a granted request must not fail"),
    }
}

fn refused(a: Acquire, status: i32) -> Failure {
    match a.record(status, 0) {
        Ok(_) => panic!("a refused request must fail"),
        Err(f) => f,
    }
}

fn finished(a: Acquire) -> KeepAwake {
    assert_eq!(a.pending(), None);
    a.finish()
}

#[test]
fn display_only_render() {
    let a = Acquire::new(options(true, false, false, "render"));
    assert_eq!(a.pending(), Some(Mode::Display));
    assert_eq!(a.reason(), "render");
    let a = granted(a, 17);
    let k = finished(a);
    assert_eq!(k.held(), vec![17]);
    assert_eq!(k.options().reason, "render");
}

#[test]
fn idle_refused_build() {
    let code = 0xE00002C2u32 as i32;
    let a = Acquire::new(options(true, true, true, "build"));
    assert_eq!(a.pending(), Some(Mode::Display));
    let a = granted(a, 11);
    assert_eq!(a.pending(), Some(Mode::Idle));
    let f = refused(a, code);
    assert_eq!(f.error.code(), code);
    assert_eq!(f.error.message(), "IO error: 0xe00002c2");
    // the display assertion granted before the refusal is handed back for release
    assert_eq!(f.release, vec![11]);
}

#[test]
fn nothing_requested_holds_nothing() {
    let a = Acquire::new(options(false, false, false, "nothing"));
    assert_eq!(a.pending(), None);
    let k = a.finish();
    assert!(k.held().is_empty());
}

#[test]
fn all_granted_in_order() {
    let a = Acquire::new(options(true, true, true, "all"));
    assert_eq!(a.pending(), Some(Mode::Display));
    let a = granted(a, 1);
    assert_eq!(a.pending(), Some(Mode::Idle));
    let a = granted(a, 2);
    assert_eq!(a.pending(), Some(Mode::Sleep));
    let a = granted(a, 3);
    let k = finished(a);
    assert_eq!(k.held(), vec![1, 2, 3]);
}

#[test]
fn subset_requests_skip_unrequested_modes() {
    let a = Acquire::new(options(false, true, true, "subset"));
    assert_eq!(a.pending(), Some(Mode::Idle));
    let a = granted(a, 40);
    assert_eq!(a.pending(), Some(Mode::Sleep));
    let a = granted(a, 41);
    assert_eq!(finished(a).held(), vec![40, 41]);

    let a = Acquire::new(options(false, false, true, "sleep"));
    assert_eq!(a.pending(), Some(Mode::Sleep));
    assert_eq!(finished(granted(a, 9)).held(), vec![9]);
}

#[test]
fn first_refused_releases_nothing() {
    let a = Acquire::new(options(false, true, true, "first"));
    assert_eq!(a.pending(), Some(Mode::Idle));
    let f = refused(a, -1);
    assert_eq!(f.error.code(), -1);
    assert_eq!(f.error.message(), "IO error: 0xffffffff");
    assert!(f.release.is_empty());
}

#[test]
fn later_refused_reports_only_its_status() {
    let a = Acquire::new(options(true, false, true, "later"));
    let a = granted(a, 5);
    assert_eq!(a.pending(), Some(Mode::Sleep));
    let f = refused(a, 7);
    assert_eq!(f.error.code(), 7);
    assert_eq!(f.error.message(), "IO error: 0x00000007");
    assert_eq!(f.release, vec![5]);
}

#[test]
fn repeated_cycles_are_independent() {
    let first = finished(granted(Acquire::new(options(true, false, false, "again")), 100));
    assert_eq!(first.held(), vec![100]);
    let second = Acquire::new(options(true, false, false, "again"));
    assert_eq!(second.pending(), Some(Mode::Display));
    let second = finished(granted(second, 200));
    assert_eq!(second.held(), vec![200]);
    assert_eq!(first.held(), vec![100]);
}

#[test]
fn granted_zero_token_is_not_released() {
    let a = Acquire::new(options(true, true, false, "zero"));
    let a = granted(a, 0);
    let a = granted(a, 8);
    assert_eq!(finished(a).held(), vec![8]);
}

#[test]
fn assertion_types() {
    assert_eq!(Mode::Display.assertion_type(), "PreventUserIdleDisplaySleep");
    assert_eq!(Mode::Idle.assertion_type(), "PreventUserIdleSystemSleep");
    assert_eq!(Mode::Sleep.assertion_type(), "PreventSystemSleep");
}

#[test]
fn error_messages() {
    assert_eq!(IOError::new(0).message(), "IO error: 0x00000000");
    assert_eq!(IOError::new(0x1234abcd).message(), "IO error: 0x1234abcd");
    assert_eq!(IOError::new(i32::MIN).message(), "IO error: 0x80000000");
    assert_eq!(IOError::new(i32::MAX).message(), "IO error: 0x7fffffff");
    assert_eq!(IOError::new(-2).code(), -2);
}
