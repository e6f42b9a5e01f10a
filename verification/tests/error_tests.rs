use netnswrap::error::Error;
use netnswrap::pipeline::{failure_error, Action};

#[test]
fn single_error_renders_as_its_message() {
    let e = Error::new("bind failed".to_string());
    assert_eq!(e.render(), "bind failed");
}

#[test]
fn chained_error_renders_outermost_first() {
    let inner = Error::new("permission denied".to_string());
    let outer = Error::chain("setns CLONE_NEWNET failed".to_string(), inner);
    assert_eq!(
        outer.render(),
        "setns CLONE_NEWNET failed\ncaused by: permission denied"
    );
}

#[test]
fn three_level_chain_walks_the_whole_chain() {
    let a = Error::new("a".to_string());
    let b = Error::chain("b".to_string(), a);
    let c = Error::chain("c".to_string(), b);
    assert_eq!(c.render(), "c\ncaused by: b\ncaused by: a");
}

#[test]
fn open_failure_names_the_path() {
    let action = Action::OpenNamespace {
        path: "/nonexistent".to_string(),
    };
    let e = failure_error(&action, "No such file or directory".to_string());
    assert_eq!(e.msg, "unable to open /nonexistent");
    let cause = e.cause.as_ref().expect("open failure keeps its cause");
    assert_eq!(cause.msg, "No such file or directory");
    assert!(cause.cause.is_none());
    assert_eq!(
        e.render(),
        "unable to open /nonexistent\ncaused by: No such file or directory"
    );
}

#[test]
fn switch_failure_names_the_operation() {
    let e = failure_error(&Action::SwitchNamespace, "EPERM".to_string());
    assert_eq!(e.msg, "setns CLONE_NEWNET failed");
    assert_eq!(e.cause.unwrap().msg, "EPERM");
}

#[test]
fn exec_failure_names_the_command() {
    let action = Action::Exec {
        cmd: vec!["/bin/true".to_string(), "-x".to_string(), "y".to_string()],
    };
    let e = failure_error(&action, "ENOENT".to_string());
    assert_eq!(e.msg, "failed to exec /bin/true -x y");
    assert_eq!(e.cause.unwrap().msg, "ENOENT");
}

#[test]
fn bind_failure_passes_the_os_error_through() {
    let action = Action::Bind {
        address: netnswrap::config::IpAddr::V4(0, 0, 0, 0),
        port: 9100,
    };
    let e = failure_error(&action, "address in use".to_string());
    assert_eq!(e.msg, "address in use");
    assert!(e.cause.is_none());
}

#[test]
fn cloexec_failure_passes_the_os_error_through() {
    let e = failure_error(&Action::ClearCloexec, "EBADF".to_string());
    assert_eq!(e.msg, "EBADF");
    assert!(e.cause.is_none());
}
