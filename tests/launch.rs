use confirm_proxy::launcher::{agent_program, launch_outcome, parse_auth_sock, LaunchError, AUTH_SOCK_VAR};
use confirm_proxy::lifecycle::{setup_steps, shutdown_steps, SetupStep, ShutdownStep};

#[test]
fn address_is_read_up_to_semicolon() {
    assert_eq!(
        parse_auth_sock("SSH_AUTH_SOCK=/tmp/agent.123;foo=bar"),
        Ok(String::from("/tmp/agent.123"))
    );
}

#[test]
fn address_from_openssh_output() {
    let out = "SSH_AUTH_SOCK=/tmp/ssh-XXXXabc/agent.4242; export SSH_AUTH_SOCK;\n\
               SSH_AGENT_PID=4243; export SSH_AGENT_PID;\n\
               echo Agent pid 4243;\n";
    assert_eq!(parse_auth_sock(out), Ok(String::from("/tmp/ssh-XXXXabc/agent.4242")));
}

#[test]
fn address_line_may_come_later() {
    let out = "some banner\nSSH_AGENT_PID=1; export SSH_AGENT_PID;\nSSH_AUTH_SOCK=/run/a.sock;\n";
    assert_eq!(parse_auth_sock(out), Ok(String::from("/run/a.sock")));
}

#[test]
fn first_address_line_wins() {
    let out = "SSH_AUTH_SOCK=/first;\nSSH_AUTH_SOCK=/second;\n";
    assert_eq!(parse_auth_sock(out), Ok(String::from("/first")));
}

#[test]
fn key_must_open_the_line() {
    let out = "export SSH_AUTH_SOCK=/nope;\n";
    assert_eq!(parse_auth_sock(out), Err(LaunchError::MissingAuthSock));
}

#[test]
fn line_without_semicolon_does_not_count() {
    assert_eq!(parse_auth_sock("SSH_AUTH_SOCK=/a/b\nnext"), Err(LaunchError::MissingAuthSock));
    assert_eq!(parse_auth_sock("SSH_AUTH_SOCK=/a/b\r\nnext"), Err(LaunchError::MissingAuthSock));
    assert_eq!(parse_auth_sock("SSH_AUTH_SOCK=/a"), Err(LaunchError::MissingAuthSock));
    assert_eq!(
        parse_auth_sock("SSH_AUTH_SOCK=/x\nSSH_AUTH_SOCK=/y;\n"),
        Ok(String::from("/y"))
    );
}

#[test]
fn equals_sign_stays_in_address() {
    assert_eq!(parse_auth_sock("SSH_AUTH_SOCK=/tmp/a=b;x"), Ok(String::from("/tmp/a=b")));
}

#[test]
fn empty_address_is_empty() {
    assert_eq!(parse_auth_sock("SSH_AUTH_SOCK=;"), Ok(String::new()));
}

#[test]
fn missing_address_line_is_an_error() {
    assert_eq!(parse_auth_sock(""), Err(LaunchError::MissingAuthSock));
    assert_eq!(
        parse_auth_sock("SSH_AGENT_PID=12; export SSH_AGENT_PID;\n"),
        Err(LaunchError::MissingAuthSock)
    );
    assert_eq!(parse_auth_sock("SSH_AUTH_SOCK"), Err(LaunchError::MissingAuthSock));
}

#[test]
fn failed_agent_is_fatal_whatever_it_printed() {
    assert_eq!(
        launch_outcome(false, "SSH_AUTH_SOCK=/tmp/agent.123;"),
        Err(LaunchError::AgentFailed)
    );
    assert_eq!(
        launch_outcome(true, "SSH_AUTH_SOCK=/tmp/agent.123;"),
        Ok(String::from("/tmp/agent.123"))
    );
    assert_eq!(launch_outcome(true, "nothing here\n"), Err(LaunchError::MissingAuthSock));
}

#[test]
fn default_agent_program() {
    assert_eq!(agent_program(None), "ssh-agent");
    assert_eq!(agent_program(Some(String::from("/usr/bin/ssh-agent"))), "/usr/bin/ssh-agent");
    assert_eq!(AUTH_SOCK_VAR, "SSH_AUTH_SOCK");
}

#[test]
fn setup_creates_parent_and_clears_stale_socket_before_bind() {
    assert_eq!(
        setup_steps(true, true),
        vec![SetupStep::CreateParentDir, SetupStep::RemoveStaleSocket, SetupStep::Bind]
    );
    assert_eq!(setup_steps(false, true), vec![SetupStep::RemoveStaleSocket, SetupStep::Bind]);
    assert_eq!(setup_steps(true, false), vec![SetupStep::CreateParentDir, SetupStep::Bind]);
    assert_eq!(setup_steps(false, false), vec![SetupStep::Bind]);
}

#[test]
fn shutdown_removes_socket_and_exits_successfully() {
    assert_eq!(
        shutdown_steps(true),
        vec![ShutdownStep::RemoveSocket, ShutdownStep::Exit(0)]
    );
    assert_eq!(shutdown_steps(false), vec![ShutdownStep::Exit(0)]);
}
