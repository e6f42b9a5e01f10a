use netnswrap::activation::activation_env;
use netnswrap::config::validate_command;
use netnswrap::text::dec_u64;

#[test]
fn activation_env_matches_the_handoff_convention() {
    let env = activation_env(1234);
    assert_eq!(env.len(), 3);
    assert_eq!(env[0], ("LISTEN_PID".to_string(), "1234".to_string()));
    assert_eq!(env[1], ("LISTEN_FDS".to_string(), "1".to_string()));
    assert_eq!(env[2], ("LISTEN_FDNAMES".to_string(), "netnswrap".to_string()));
}

#[test]
fn activation_env_renders_pid_zero() {
    let env = activation_env(0);
    assert_eq!(env[0].1, "0");
}

#[test]
fn decimal_rendering_of_small_numbers() {
    assert_eq!(dec_u64(0), "0");
    assert_eq!(dec_u64(7), "7");
    assert_eq!(dec_u64(10), "10");
    assert_eq!(dec_u64(9100), "9100");
}

#[test]
fn decimal_rendering_of_the_largest_value() {
    assert_eq!(dec_u64(u64::MAX), "18446744073709551615");
}

#[test]
fn validate_command_accepts_a_plain_command() {
    let cmd = vec!["/bin/true".to_string(), "--flag".to_string()];
    assert!(validate_command(&cmd).is_ok());
}

#[test]
fn validate_command_rejects_an_embedded_null() {
    let cmd = vec!["ok".to_string(), "bad\0arg".to_string()];
    let e = validate_command(&cmd).unwrap_err();
    assert_eq!(e.msg, "command argument contains a null byte");
}
