//! The pipeline planner: from a configuration, the exact ordered sequence
//! of OS actions to perform, or the error that rejects it; and the wrapped
//! error for a failure at any step.

use vstd::prelude::*;
use crate::config::{cmd_ok, validate_command, Config, IpAddr};
use crate::error::Error;
use crate::text::{join_spaces, join_spaces_seq};

verus! {

/// The process exit code on any fatal error.
pub const FAILURE_EXIT_CODE: u8 = 253;

/// One OS-level action of the pipeline. The unverified runner performs
/// each in turn, stopping at the first failure.
#[derive(Debug)]
pub enum Action {
    /// Create a TCP listening socket bound to this address and port, in
    /// the network namespace the process currently occupies.
    Bind { address: IpAddr, port: u16 },
    /// Clear the close-on-exec flag on the bound socket's descriptor.
    ClearCloexec,
    /// Set the three socket-activation environment variables.
    PrepareActivationEnv,
    /// Open the namespace reference file at this path.
    OpenNamespace { path: String },
    /// Re-associate the process's network namespace with the opened
    /// reference; no other namespace kind changes.
    SwitchNamespace,
    /// Replace the process image with this command; on success control
    /// never returns.
    Exec { cmd: Vec<String> },
}

/// The full action sequence of a successful run: bind first, in the
/// original namespace; then expose the descriptor, prepare the
/// environment, open and enter the target namespace, and exec.
pub open spec fn successful_trace(c: Config) -> Seq<Action> {
    seq![
        Action::Bind { address: c.address, port: c.port },
        Action::ClearCloexec,
        Action::PrepareActivationEnv,
        Action::OpenNamespace { path: c.target_ns },
        Action::SwitchNamespace,
        Action::Exec { cmd: c.cmd },
    ]
}

/// Plan the pipeline for `config`. Command validation runs first, so a
/// rejected command vector means no action is ever emitted and no socket
/// is created; an unsupported or unknown protocol likewise yields no
/// action at all.
pub fn plan(config: Config) -> (r: Result<Vec<Action>, Error>)
    ensures
        r is Ok <==> cmd_ok(config.cmd.deep_view()) && config.protocol@ == "tcp"@,
        r matches Ok(actions) ==> actions@ =~= successful_trace(config),
        config.cmd@.len() == 0 ==> (r matches Err(e) && e.msg@ == "command vector is empty"@
            && e.cause is None),
        config.cmd@.len() > 0 && !cmd_ok(config.cmd.deep_view()) ==> (r matches Err(e)
            && e.msg@ == "command argument contains a null byte"@ && e.cause is None),
        cmd_ok(config.cmd.deep_view()) && config.protocol@ == "udp"@ ==> (r matches Err(e)
            && e.msg@ == "unsupported protocol udp"@ && e.cause is None),
        cmd_ok(config.cmd.deep_view()) && config.protocol@ != "tcp"@ && config.protocol@
            != "udp"@ ==> (r matches Err(e) && e.msg@ == "unknown protocol "@ + config.protocol@
            && e.cause is None),
{
    proof {
        reveal_strlit("tcp");
        reveal_strlit("udp");
        assert("tcp"@[0] == 't' && "udp"@[0] == 'u');
    }
    match validate_command(&config.cmd) {
        Err(e) => {
            return Err(e);
        },
        Ok(()) => {},
    }
    let udp = String::from_str("udp");
    if config.protocol == udp {
        return Err(Error::new(String::from_str("unsupported protocol udp")));
    }
    let tcp = String::from_str("tcp");
    if !(config.protocol == tcp) {
        let mut m = String::from_str("unknown protocol ");
        m.append(config.protocol.as_str());
        return Err(Error::new(m));
    }
    let mut actions: Vec<Action> = Vec::new();
    actions.push(Action::Bind { address: config.address, port: config.port });
    actions.push(Action::ClearCloexec);
    actions.push(Action::PrepareActivationEnv);
    actions.push(Action::OpenNamespace { path: config.target_ns });
    actions.push(Action::SwitchNamespace);
    actions.push(Action::Exec { cmd: config.cmd });
    Ok(actions)
}

/// Whether `r` wraps exactly one deeper error whose message is `inner`.
pub open spec fn wraps(r: Error, inner: Seq<char>) -> bool {
    r.cause matches Some(c) && c.msg@ == inner && c.cause is None
}

/// The fatal error for a failure of `action`, with `os_error` as the
/// OS-reported cause. Bind, flag and environment failures pass the OS
/// error through; the open names the path that could not be opened, the
/// switch names the operation, and the exec names the attempted command.
pub fn failure_error(action: &Action, os_error: String) -> (r: Error)
    ensures
        (action matches Action::Bind { .. } || action is ClearCloexec
            || action is PrepareActivationEnv) ==> r.msg@ == os_error@ && r.cause is None,
        action matches Action::OpenNamespace { path } ==> r.msg@ == "unable to open "@ + path@
            && wraps(r, os_error@),
        action is SwitchNamespace ==> r.msg@ == "setns CLONE_NEWNET failed"@ && wraps(
            r,
            os_error@,
        ),
        action matches Action::Exec { cmd } ==> r.msg@ == "failed to exec "@ + join_spaces_seq(
            cmd.deep_view(),
        ) && wraps(r, os_error@),
{
    match action {
        Action::Bind { .. } => Error::new(os_error),
        Action::ClearCloexec => Error::new(os_error),
        Action::PrepareActivationEnv => Error::new(os_error),
        Action::OpenNamespace { path } => {
            let mut m = String::from_str("unable to open ");
            m.append(path.as_str());
            Error::chain(m, Error::new(os_error))
        },
        Action::SwitchNamespace => Error::chain(
            String::from_str("setns CLONE_NEWNET failed"),
            Error::new(os_error),
        ),
        Action::Exec { cmd } => {
            let mut m = String::from_str("failed to exec ");
            let joined = join_spaces(cmd);
            m.append(joined.as_str());
            Error::chain(m, Error::new(os_error))
        },
    }
}

/// In every successful plan the bind comes strictly before the namespace
/// switch: the socket is bound in the namespace the process started in.
pub proof fn lemma_bind_precedes_switch(c: Config)
    ensures
        successful_trace(c)[0] is Bind,
        forall|i: int, j: int|
            0 <= i < successful_trace(c).len() && 0 <= j < successful_trace(c).len()
                && successful_trace(c)[i] is Bind && successful_trace(c)[j] is SwitchNamespace
                ==> i < j,
{
    let t = successful_trace(c);
    assert(t.len() == 6);
    assert forall|i: int, j: int|
        0 <= i < t.len() && 0 <= j < t.len() && t[i] is Bind && t[j] is SwitchNamespace implies i
        < j by {
        assert(t[i] is Bind ==> i == 0);
        assert(t[j] is SwitchNamespace ==> j == 4);
    }
}

/// In every successful plan the descriptor is exposed (close-on-exec
/// cleared) after the bind and before the exec, so the descriptor the
/// successor inherits is the bound socket's.
pub proof fn lemma_expose_between_bind_and_exec(c: Config)
    ensures
        forall|i: int, j: int, k: int|
            0 <= i < successful_trace(c).len() && 0 <= j < successful_trace(c).len() && 0 <= k
                < successful_trace(c).len() && successful_trace(c)[i] is Bind && successful_trace(
                c,
            )[j] is ClearCloexec && successful_trace(c)[k] is Exec ==> i < j < k,
{
    let t = successful_trace(c);
    assert(t.len() == 6);
    assert forall|i: int, j: int, k: int|
        0 <= i < t.len() && 0 <= j < t.len() && 0 <= k < t.len() && t[i] is Bind
            && t[j] is ClearCloexec && t[k] is Exec implies i < j < k by {
        assert(t[i] is Bind ==> i == 0);
        assert(t[j] is ClearCloexec ==> j == 1);
        assert(t[k] is Exec ==> k == 5);
    }
}

/// In every successful plan the namespace reference is opened and entered
/// strictly before the exec: a failed open or switch stops the run while
/// no exec has yet been attempted.
pub proof fn lemma_open_and_switch_precede_exec(c: Config)
    ensures
        forall|i: int, j: int, k: int|
            0 <= i < successful_trace(c).len() && 0 <= j < successful_trace(c).len() && 0 <= k
                < successful_trace(c).len() && successful_trace(c)[i] is OpenNamespace
                && successful_trace(c)[j] is SwitchNamespace && successful_trace(c)[k] is Exec
                ==> i < j < k,
{
    let t = successful_trace(c);
    assert(t.len() == 6);
    assert forall|i: int, j: int, k: int|
        0 <= i < t.len() && 0 <= j < t.len() && 0 <= k < t.len() && t[i] is OpenNamespace
            && t[j] is SwitchNamespace && t[k] is Exec implies i < j < k by {
        assert(t[i] is OpenNamespace ==> i == 3);
        assert(t[j] is SwitchNamespace ==> j == 4);
        assert(t[k] is Exec ==> k == 5);
    }
}

} // verus!
