use libssh_rs::{
    AuthMethod, AuthStatus, ChannelState, EngineError, EngineGuard, Error, InteractiveAuthPrompt,
    KnownHosts, LogLevel, RawPrompt, Session, SshOption, Stage,
};
use libssh_rs::Duration;

fn ready_guard() -> EngineGuard {
    let mut guard = EngineGuard::new();
    guard.setup(0);
    guard
}

fn new_session() -> Session {
    Session::new(&ready_guard(), true).unwrap()
}

fn pending(code: i32, text: &str) -> EngineError {
    EngineError { code, reason: Some(text.as_bytes().to_vec()) }
}

fn connected_session() -> Session {
    let mut sess = new_session();
    sess.set_option(SshOption::Hostname("example.org".to_string()), 0, EngineError::none())
        .unwrap();
    sess.connect(0, EngineError::none()).unwrap();
    sess
}

#[test]
fn init() {
    let mut sess = new_session();
    assert!(!sess.is_connected());
    assert!(sess.last_error().is_none());
    assert_eq!(
        sess.connect(-1, pending(2, "Hostname required")),
        Err(Error::fatal("Hostname required"))
    );
}

#[test]
fn fresh_session_is_created_blocking_and_unconfigured() {
    let sess = new_session();
    assert_eq!(sess.stage(), Stage::Created);
    assert!(sess.is_blocking());
    assert!(sess.config().hostname.is_none());
    assert!(sess.config().user.is_none());
    assert!(sess.config().identities.is_empty());
}

#[test]
fn no_session_without_engine() {
    let guard = EngineGuard::new();
    assert_eq!(
        Session::new(&guard, true).err(),
        Some(Error::fatal("engine initialization failed"))
    );
    let mut failed = EngineGuard::new();
    failed.setup(-1);
    assert_eq!(
        Session::new(&failed, true).err(),
        Some(Error::fatal("engine initialization failed"))
    );
}

#[test]
fn no_session_without_handle() {
    assert_eq!(
        Session::new(&ready_guard(), false).err(),
        Some(Error::fatal("ssh_new failed"))
    );
}

#[test]
fn connect_without_hostname_fails_whatever_the_engine_says() {
    let mut sess = new_session();
    assert_eq!(sess.connect_request(), Err(Error::fatal("Hostname required")));
    assert_eq!(
        sess.connect(0, EngineError::none()),
        Err(Error::fatal("Hostname required"))
    );
    assert!(!sess.is_connected());
    assert_eq!(sess.stage(), Stage::Created);
}

#[test]
fn connect_with_hostname_follows_the_engine() {
    let mut sess = new_session();
    sess.set_option(SshOption::Hostname("example.org".to_string()), 0, EngineError::none())
        .unwrap();
    assert_eq!(sess.stage(), Stage::Configured);
    assert_eq!(sess.connect_request(), Ok(()));
    assert_eq!(sess.connect(-2, EngineError::none()), Err(Error::TryAgain));
    assert!(!sess.is_connected());
    assert_eq!(
        sess.connect(-1, pending(2, "Connection refused")),
        Err(Error::Fatal("Connection refused".to_string()))
    );
    assert_eq!(sess.last_error(), Some(Error::Fatal("Connection refused".to_string())));
    assert_eq!(
        sess.connect(-1, EngineError::none()),
        Err(Error::fatal("ssh_connect failed"))
    );
    assert_eq!(sess.connect(0, EngineError::none()), Ok(()));
    assert!(sess.is_connected());
    assert_eq!(sess.stage(), Stage::Connected);
    assert!(sess.last_error().is_none());
}

#[test]
fn disconnect_returns_to_configured_and_allows_reconnect() {
    let mut sess = connected_session();
    sess.disconnect();
    assert!(!sess.is_connected());
    assert_eq!(sess.stage(), Stage::Configured);
    assert_eq!(sess.connect(0, EngineError::none()), Ok(()));
    assert!(sess.is_connected());
}

#[test]
fn disconnect_of_a_new_session_changes_nothing() {
    let mut sess = new_session();
    sess.disconnect();
    assert_eq!(sess.stage(), Stage::Created);
}

#[test]
fn observed_connection_is_recorded() {
    let mut sess = connected_session();
    sess.observe_connection(0);
    assert!(!sess.is_connected());
    assert_eq!(sess.stage(), Stage::Configured);
    sess.observe_connection(1);
    assert!(sess.is_connected());
}

#[test]
fn options_are_read_back_as_set() {
    let mut sess = new_session();
    let none = EngineError::none;
    sess.set_option(SshOption::Hostname("host".to_string()), 0, none()).unwrap();
    sess.set_option(SshOption::Port(2222), 0, none()).unwrap();
    sess.set_option(SshOption::LogLevel(LogLevel::Packet), 0, none()).unwrap();
    sess.set_option(SshOption::Socket(7), 0, none()).unwrap();
    sess.set_option(SshOption::BindAddress("10.0.0.1".to_string()), 0, none()).unwrap();
    sess.set_option(SshOption::User(Some("alice".to_string())), 0, none()).unwrap();
    sess.set_option(SshOption::SshDir(Some("/tmp/ssh".to_string())), 0, none()).unwrap();
    sess.set_option(SshOption::KnownHosts(Some("/tmp/kh".to_string())), 0, none()).unwrap();
    sess.set_option(SshOption::AddIdentity("id_a".to_string()), 0, none()).unwrap();
    sess.set_option(SshOption::AddIdentity("id_b".to_string()), 0, none()).unwrap();
    sess.set_option(SshOption::Timeout(Duration::from_secs(3)), 0, none()).unwrap();
    let config = sess.config();
    assert_eq!(config.hostname.as_deref(), Some("host"));
    assert_eq!(config.port, Some(2222));
    assert_eq!(config.log_level, Some(LogLevel::Packet));
    assert_eq!(config.socket, Some(7));
    assert_eq!(config.bind_address.as_deref(), Some("10.0.0.1"));
    assert_eq!(config.user.as_deref(), Some("alice"));
    assert_eq!(config.ssh_dir.as_deref(), Some("/tmp/ssh"));
    assert_eq!(config.known_hosts.as_deref(), Some("/tmp/kh"));
    assert_eq!(config.identities, vec!["id_a".to_string(), "id_b".to_string()]);
    assert_eq!(config.timeout, Some(Duration::from_secs(3)));
}

#[test]
fn absent_text_restores_the_default() {
    let mut sess = new_session();
    sess.set_option(SshOption::User(Some("alice".to_string())), 0, EngineError::none()).unwrap();
    sess.set_option(SshOption::User(None), 0, EngineError::none()).unwrap();
    assert_eq!(sess.config().user, None);
    sess.set_option(SshOption::SshDir(Some("d".to_string())), 0, EngineError::none()).unwrap();
    sess.set_option(SshOption::SshDir(None), 0, EngineError::none()).unwrap();
    assert_eq!(sess.config().ssh_dir, None);
    sess.set_option(SshOption::KnownHosts(Some("k".to_string())), 0, EngineError::none())
        .unwrap();
    sess.set_option(SshOption::KnownHosts(None), 0, EngineError::none()).unwrap();
    assert_eq!(sess.config().known_hosts, None);
}

#[test]
fn setting_an_option_twice_is_as_setting_it_once() {
    let mut sess = new_session();
    sess.set_option(SshOption::Port(22), 0, EngineError::none()).unwrap();
    sess.set_option(SshOption::Port(22), 0, EngineError::none()).unwrap();
    assert_eq!(sess.config().port, Some(22));
    assert_eq!(sess.stage(), Stage::Configured);
}

#[test]
fn refused_option_is_not_recorded() {
    let mut sess = new_session();
    assert_eq!(
        sess.set_option(SshOption::Port(0), -1, pending(2, "Invalid argument in ssh_options_set")),
        Err(Error::Fatal("Invalid argument in ssh_options_set".to_string()))
    );
    assert_eq!(sess.config().port, None);
    assert_eq!(sess.stage(), Stage::Created);
    assert_eq!(
        sess.set_option(SshOption::Port(0), -1, EngineError::none()),
        Err(Error::fatal("failed to set option"))
    );
}

#[test]
fn option_with_zero_byte_is_refused_before_the_engine() {
    let mut sess = new_session();
    assert_eq!(
        sess.set_option(SshOption::Hostname("ho\0st".to_string()), 0, pending(2, "ignored")),
        Err(Error::fatal("nul byte found in provided data at position: 2"))
    );
    assert!(sess.config().hostname.is_none());
    assert!(sess.last_error().is_none());
    assert_eq!(sess.stage(), Stage::Created);
    assert_eq!(
        sess.set_option(SshOption::User(Some("\0".to_string())), 0, EngineError::none()),
        Err(Error::fatal("nul byte found in provided data at position: 0"))
    );
}

#[test]
fn blocking_mode_is_toggled() {
    let mut sess = new_session();
    assert_eq!(sess.set_blocking(false), 0);
    assert!(!sess.is_blocking());
    assert_eq!(sess.set_blocking(true), 1);
    assert!(sess.is_blocking());
}

#[test]
fn known_host_check_has_five_outcomes() {
    let mut sess = new_session();
    assert_eq!(sess.is_known_server(-1, EngineError::none()), Ok(KnownHosts::NotFound));
    assert_eq!(sess.is_known_server(0, EngineError::none()), Ok(KnownHosts::Unknown));
    assert_eq!(sess.is_known_server(1, EngineError::none()), Ok(KnownHosts::KnownOk));
    assert_eq!(sess.is_known_server(2, EngineError::none()), Ok(KnownHosts::Changed));
    assert_eq!(sess.is_known_server(3, EngineError::none()), Ok(KnownHosts::Other));
    assert_eq!(
        sess.is_known_server(-2, pending(2, "no server key")),
        Err(Error::Fatal("no server key".to_string()))
    );
    assert_eq!(
        sess.is_known_server(-2, EngineError::none()),
        Err(Error::fatal("unknown error in ssh_session_is_known_server"))
    );
    assert_eq!(
        sess.is_known_server(17, EngineError::none()),
        Err(Error::fatal("unknown error in ssh_session_is_known_server"))
    );
}

#[test]
fn known_hosts_not_found_then_ok_after_update() {
    let mut sess = new_session();
    assert_eq!(sess.is_known_server(-1, EngineError::none()), Ok(KnownHosts::NotFound));
    sess.set_option(SshOption::Hostname("example.org".to_string()), 0, EngineError::none())
        .unwrap();
    sess.connect(0, EngineError::none()).unwrap();
    assert_eq!(sess.update_known_hosts_file(0, EngineError::none()), Ok(()));
    sess.disconnect();
    sess.connect(0, EngineError::none()).unwrap();
    assert_eq!(sess.is_known_server(1, EngineError::none()), Ok(KnownHosts::KnownOk));
}

#[test]
fn update_known_hosts_failure_is_fatal() {
    let mut sess = connected_session();
    assert_eq!(
        sess.update_known_hosts_file(-1, pending(2, "Permission denied")),
        Err(Error::Fatal("Permission denied".to_string()))
    );
    assert_eq!(
        sess.update_known_hosts_file(-1, EngineError::none()),
        Err(Error::fatal("error updating known hosts file"))
    );
    assert_eq!(
        sess.update_known_hosts_file(-2, EngineError::none()),
        Err(Error::fatal("error updating known hosts file"))
    );
}

#[test]
fn parse_config_outcomes() {
    let mut sess = new_session();
    assert_eq!(sess.options_parse_config(None, 0, EngineError::none()), Ok(()));
    assert_eq!(
        sess.options_parse_config(None, -1, EngineError::none()),
        Err(Error::fatal("error parsing config file: None"))
    );
    assert_eq!(
        sess.options_parse_config(Some("/etc/ssh/cfg"), -1, EngineError::none()),
        Err(Error::fatal("error parsing config file: Some(\"/etc/ssh/cfg\")"))
    );
    assert_eq!(
        sess.options_parse_config(Some("cfg"), -1, pending(2, "Hostname required")),
        Err(Error::Fatal("Hostname required".to_string()))
    );
    assert_eq!(
        sess.options_parse_config(Some("a\0b"), 0, EngineError::none()),
        Err(Error::fatal("nul byte found in provided data at position: 1"))
    );
}

#[test]
fn user_name_outcomes() {
    let mut sess = new_session();
    assert_eq!(
        sess.get_user_name(0, Some(b"alice".to_vec()), EngineError::none()),
        Ok("alice".to_string())
    );
    assert_eq!(
        sess.get_user_name(0, None, EngineError::none()),
        Err(Error::fatal("error getting user name"))
    );
    assert_eq!(
        sess.get_user_name(-1, Some(b"alice".to_vec()), pending(2, "oom")),
        Err(Error::Fatal("oom".to_string()))
    );
}

#[test]
fn user_name_round_trip_through_the_engine() {
    let mut sess = new_session();
    let option = SshOption::User(Some("zoë".to_string()));
    let request = option.request().unwrap();
    let handed = match request.value {
        libssh_rs::OptionValue::Text(Some(text)) => text.as_bytes().to_vec(),
        _ => unreachable!(),
    };
    sess.set_option(option, 0, EngineError::none()).unwrap();
    let read = sess.get_user_name(0, Some(handed), EngineError::none()).unwrap();
    assert_eq!(Some(read), sess.config().user);
}

#[test]
fn server_key_outcomes() {
    let mut sess = connected_session();
    assert!(sess.get_server_public_key(0, true, EngineError::none()).is_ok());
    assert_eq!(
        sess.get_server_public_key(0, false, EngineError::none()).err(),
        Some(Error::fatal("failed to get server public key"))
    );
    assert_eq!(
        sess.get_server_public_key(-1, true, pending(2, "no key")).err(),
        Some(Error::Fatal("no key".to_string()))
    );
}

#[test]
fn authentication_outcomes() {
    let mut sess = connected_session();
    let none = EngineError::none;
    assert_eq!(sess.userauth_none(None, 0, none()), Ok(AuthStatus::Success));
    assert_eq!(sess.userauth_none(None, 1, none()), Ok(AuthStatus::Denied));
    assert_eq!(sess.userauth_password(None, Some("pw"), 2, none()), Ok(AuthStatus::Partial));
    assert_eq!(
        sess.userauth_keyboard_interactive(None, None, 3, none()),
        Ok(AuthStatus::Info)
    );
    assert_eq!(
        sess.userauth_public_key_auto(None, None, 4, none()),
        Ok(AuthStatus::Again)
    );
    assert_eq!(
        sess.userauth_password(Some("bob"), Some("pw"), -1, pending(1, "Access denied")),
        Err(Error::RequestDenied("Access denied".to_string()))
    );
    assert_eq!(
        sess.userauth_password(None, Some("pw"), -1, none()),
        Err(Error::fatal("authentication error"))
    );
    assert_eq!(
        sess.userauth_password(None, Some("pw"), 9, none()),
        Err(Error::fatal("authentication error"))
    );
}

#[test]
fn authentication_refuses_text_with_zero_byte() {
    let mut sess = connected_session();
    assert_eq!(
        sess.userauth_password(Some("b\0b"), Some("\0"), 0, pending(2, "x")),
        Err(Error::fatal("nul byte found in provided data at position: 1"))
    );
    assert_eq!(
        sess.userauth_password(Some("bob"), Some("pw\0"), 0, EngineError::none()),
        Err(Error::fatal("nul byte found in provided data at position: 2"))
    );
    assert!(sess.last_error().is_none());
}

#[test]
fn userauth_list_before_none_does_not_fail() {
    let mut sess = connected_session();
    let methods = sess.userauth_list(None, 0, EngineError::none()).unwrap();
    assert!(methods.is_empty());
    let methods = sess.userauth_list(None, 0, pending(2, "stale")).unwrap();
    assert!(methods.is_empty());
}

#[test]
fn userauth_list_names_the_methods_of_the_mask() {
    let mut sess = connected_session();
    sess.userauth_none(None, 1, EngineError::none()).unwrap();
    let methods = sess.userauth_list(None, 2 | 4 | 16, EngineError::none()).unwrap();
    assert!(methods.has(AuthMethod::Password));
    assert!(methods.has(AuthMethod::PublicKey));
    assert!(methods.has(AuthMethod::Interactive));
    assert!(!methods.has(AuthMethod::NoAuth));
    assert!(!methods.has(AuthMethod::HostBased));
    assert!(!methods.has(AuthMethod::GssapiMic));
    assert_eq!(methods.bits(), 22);
    let methods = sess.userauth_list(None, 0x140 | 1, EngineError::none()).unwrap();
    assert_eq!(methods.bits(), 1);
}

#[test]
fn prompts_before_any_round_are_none() {
    let mut sess = connected_session();
    let info = sess.userauth_keyboard_interactive_info(None, None, -1, vec![]).unwrap();
    assert_eq!(info.name, "");
    assert_eq!(info.instruction, "");
    assert!(info.prompts.is_empty());
    assert_eq!(sess.userauth_keyboard_interactive_set_answers(&[], &[], EngineError::none()), Ok(()));
}

#[test]
fn keyboard_interactive_round() {
    let mut sess = connected_session();
    assert_eq!(
        sess.userauth_keyboard_interactive(None, None, 3, EngineError::none()),
        Ok(AuthStatus::Info)
    );
    let info = sess
        .userauth_keyboard_interactive_info(
            Some(b"Login".to_vec()),
            Some(b"Answer both".to_vec()),
            2,
            vec![
                RawPrompt { text: Some(b"Password: ".to_vec()), echo: 0 },
                RawPrompt { text: Some(b"Token: ".to_vec()), echo: 1 },
            ],
        )
        .unwrap();
    assert_eq!(info.name, "Login");
    assert_eq!(info.instruction, "Answer both");
    assert_eq!(
        info.prompts,
        vec![
            InteractiveAuthPrompt { prompt: "Password: ".to_string(), echo: false },
            InteractiveAuthPrompt { prompt: "Token: ".to_string(), echo: true },
        ]
    );
    let answers = vec!["secret".to_string(), "123456".to_string()];
    let marshalled = sess.userauth_keyboard_interactive_set_answers_request(&answers).unwrap();
    assert_eq!(marshalled.len(), 2);
    assert_eq!(marshalled[0].as_bytes(), b"secret");
    assert_eq!(marshalled[1].as_bytes(), b"123456");
    assert_eq!(
        sess.userauth_keyboard_interactive_set_answers(&answers, &[0, 0], EngineError::none()),
        Ok(())
    );
    assert_eq!(
        sess.userauth_keyboard_interactive(None, None, 0, EngineError::none()),
        Ok(AuthStatus::Success)
    );
}

#[test]
fn prompts_beyond_the_count_are_left_out() {
    let mut sess = connected_session();
    let info = sess
        .userauth_keyboard_interactive_info(
            None,
            None,
            1,
            vec![
                RawPrompt { text: Some(b"a".to_vec()), echo: 1 },
                RawPrompt { text: Some(b"b".to_vec()), echo: 1 },
            ],
        )
        .unwrap();
    assert_eq!(info.prompts, vec![InteractiveAuthPrompt { prompt: "a".to_string(), echo: true }]);
}

#[test]
fn answers_must_match_prompts_in_number() {
    let mut sess = connected_session();
    sess.userauth_keyboard_interactive(None, None, 3, EngineError::none()).unwrap();
    sess.userauth_keyboard_interactive_info(
        None,
        None,
        2,
        vec![RawPrompt { text: None, echo: 0 }, RawPrompt { text: None, echo: 0 }],
    )
    .unwrap();
    let one = vec!["a".to_string()];
    assert_eq!(
        sess.userauth_keyboard_interactive_set_answers_request(&one).err(),
        Some(Error::fatal("keyboard-interactive: 1 answers given to 2 prompts"))
    );
    assert_eq!(
        sess.userauth_keyboard_interactive_set_answers(&one, &[0], pending(2, "x")),
        Err(Error::fatal("keyboard-interactive: 1 answers given to 2 prompts"))
    );
    assert!(sess.last_error().is_none());
    let three = vec!["a".to_string(), "b".to_string(), "c".to_string()];
    assert_eq!(
        sess.userauth_keyboard_interactive_set_answers(&three, &[0, 0, 0], EngineError::none()),
        Err(Error::fatal("keyboard-interactive: 3 answers given to 2 prompts"))
    );
    assert_eq!(
        sess.userauth_keyboard_interactive_set_answers(&[], &[], EngineError::none()),
        Err(Error::fatal("keyboard-interactive: 0 answers given to 2 prompts"))
    );
}

#[test]
fn answers_with_zero_byte_are_refused() {
    let mut sess = connected_session();
    sess.userauth_keyboard_interactive_info(
        None,
        None,
        2,
        vec![RawPrompt { text: None, echo: 0 }, RawPrompt { text: None, echo: 0 }],
    )
    .unwrap();
    let answers = vec!["fine".to_string(), "no\0t".to_string()];
    assert_eq!(
        sess.userauth_keyboard_interactive_set_answers(&answers, &[0, 0], EngineError::none()),
        Err(Error::fatal("nul byte found in provided data at position: 2"))
    );
}

#[test]
fn refused_answer_is_reported() {
    let mut sess = connected_session();
    sess.userauth_keyboard_interactive_info(
        None,
        None,
        2,
        vec![RawPrompt { text: None, echo: 0 }, RawPrompt { text: None, echo: 0 }],
    )
    .unwrap();
    let answers = vec!["a".to_string(), "b".to_string()];
    assert_eq!(
        sess.userauth_keyboard_interactive_set_answers(&answers, &[0, -1], pending(2, "bad")),
        Err(Error::Fatal("bad".to_string()))
    );
    assert_eq!(
        sess.userauth_keyboard_interactive_set_answers(&answers, &[-1], EngineError::none()),
        Err(Error::fatal("error setting answer"))
    );
}

#[test]
fn new_round_outdates_the_prompts() {
    let mut sess = connected_session();
    sess.userauth_keyboard_interactive_info(None, None, 1, vec![RawPrompt { text: None, echo: 0 }])
        .unwrap();
    sess.userauth_keyboard_interactive(None, None, 3, EngineError::none()).unwrap();
    let answers = vec!["a".to_string()];
    assert_eq!(
        sess.userauth_keyboard_interactive_set_answers(&answers, &[0], EngineError::none()),
        Err(Error::fatal("keyboard-interactive: 1 answers given to 0 prompts"))
    );
}

#[test]
fn forward_round_trip() {
    let mut sess = connected_session();
    let bound = sess.listen_forward(None, 0, 0, 40123, EngineError::none()).unwrap();
    assert_eq!(bound, 40123);
    assert_ne!(bound, 0);
    assert_eq!(Duration::from_millis(10).to_wait_millis(), 10);
    assert_eq!(sess.accept_forward(false, 0, EngineError::none()).err(), Some(Error::TryAgain));
}

#[test]
fn listen_forward_outcomes() {
    let mut sess = connected_session();
    assert_eq!(sess.listen_forward(Some("0.0.0.0"), 8080, 0, 0, EngineError::none()), Ok(8080));
    assert_eq!(
        sess.listen_forward(None, 80, -1, 0, pending(1, "forward refused")),
        Err(Error::RequestDenied("forward refused".to_string()))
    );
    assert_eq!(
        sess.listen_forward(None, 80, -1, 0, EngineError::none()),
        Err(Error::fatal("error in ssh_channel_listen_forward"))
    );
    assert_eq!(
        sess.listen_forward(Some("a\0"), 80, 0, 0, EngineError::none()),
        Err(Error::fatal("nul byte found in provided data at position: 1"))
    );
}

#[test]
fn accept_forward_outcomes() {
    let mut sess = connected_session();
    let (port, channel) = sess.accept_forward(true, 40123, EngineError::none()).unwrap();
    assert_eq!(port, 40123);
    assert_eq!(channel.current_state(), ChannelState::Open);
    assert_eq!(
        sess.accept_forward(false, 0, pending(2, "Socket error")).err(),
        Some(Error::Fatal("Socket error".to_string()))
    );
    assert!(!sess.release_channel(channel));
}

#[test]
fn poll_state_reads_the_two_flags() {
    let sess = new_session();
    assert_eq!(sess.get_poll_state(0), (false, false));
    assert_eq!(sess.get_poll_state(2), (true, false));
    assert_eq!(sess.get_poll_state(8), (false, true));
    assert_eq!(sess.get_poll_state(2 | 8 | 1), (true, true));
    assert_eq!(sess.get_poll_state(1 | 4), (false, false));
}

#[test]
fn blocking_flush_outcomes() {
    let mut sess = connected_session();
    assert_eq!(Session::blocking_flush_wait(None), -1);
    assert_eq!(Session::blocking_flush_wait(Some(Duration::from_millis(1500))), 1500);
    assert_eq!(
        Session::blocking_flush_wait(Some(Duration::from_secs(u64::MAX))),
        i32::MAX
    );
    assert_eq!(sess.blocking_flush(0, EngineError::none()), Ok(()));
    assert_eq!(sess.blocking_flush(-2, EngineError::none()), Err(Error::TryAgain));
    assert_eq!(
        sess.blocking_flush(-1, EngineError::none()),
        Err(Error::fatal("blocking_flush"))
    );
    assert_eq!(
        sess.blocking_flush(-1, pending(2, "Socket error")),
        Err(Error::Fatal("Socket error".to_string()))
    );
}

#[test]
fn channel_needs_a_connection() {
    let mut sess = new_session();
    assert_eq!(sess.channel_request(), Err(Error::fatal("session is not connected")));
    assert_eq!(
        sess.new_channel(true, EngineError::none()).err(),
        Some(Error::fatal("session is not connected"))
    );
}

#[test]
fn channel_creation_outcomes() {
    let mut sess = connected_session();
    let channel = sess.new_channel(true, EngineError::none()).unwrap();
    assert_eq!(channel.current_state(), ChannelState::Allocated);
    assert_eq!(
        sess.new_channel(false, EngineError::none()).err(),
        Some(Error::fatal("ssh_channel_new failed"))
    );
    assert_eq!(
        sess.new_channel(false, pending(2, "oom")).err(),
        Some(Error::Fatal("oom".to_string()))
    );
    assert!(!sess.release_channel(channel));
}

#[test]
fn channels_before_session_release_once() {
    let mut sess = connected_session();
    let a = sess.new_channel(true, EngineError::none()).unwrap();
    let b = sess.new_channel(true, EngineError::none()).unwrap();
    assert!(!sess.release_channel(a));
    assert!(!sess.release_channel(b));
    assert!(sess.release());
    assert!(!sess.release());
}

#[test]
fn session_before_channels_release_once() {
    let mut sess = connected_session();
    let a = sess.new_channel(true, EngineError::none()).unwrap();
    let b = sess.new_channel(true, EngineError::none()).unwrap();
    assert!(!sess.release());
    assert!(!sess.release_channel(a));
    assert!(sess.release_channel(b));
    assert!(!sess.release());
    assert_eq!(
        sess.new_channel(true, EngineError::none()).err(),
        Some(Error::fatal("session cannot hold another channel"))
    );
}

#[test]
fn channel_operations_follow_the_engine() {
    let mut sess = connected_session();
    let mut channel = sess.new_channel(true, EngineError::none()).unwrap();
    assert!(!channel.is_open());
    assert_eq!(channel.open_session(&mut sess, -2, EngineError::none()), Err(Error::TryAgain));
    assert_eq!(channel.current_state(), ChannelState::Allocated);
    assert_eq!(channel.open_session(&mut sess, 0, EngineError::none()), Ok(()));
    assert!(channel.is_open());
    assert_eq!(channel.request_exec(&mut sess, "whoami", 0, EngineError::none()), Ok(()));
    assert_eq!(
        channel.request_exec(&mut sess, "who\0ami", 0, EngineError::none()),
        Err(Error::fatal("nul byte found in provided data at position: 3"))
    );
    assert_eq!(
        channel.request_shell(&mut sess, -1, pending(1, "no shell")),
        Err(Error::RequestDenied("no shell".to_string()))
    );
    assert_eq!(sess.last_error(), Some(Error::RequestDenied("no shell".to_string())));
    assert_eq!(channel.read(&mut sess, 5, EngineError::none()), Ok(5));
    assert_eq!(channel.read(&mut sess, 0, EngineError::none()), Ok(0));
    assert_eq!(channel.read(&mut sess, -2, EngineError::none()), Err(Error::TryAgain));
    assert_eq!(
        channel.read(&mut sess, -1, EngineError::none()),
        Err(Error::fatal("ssh_channel_read failed"))
    );
    assert_eq!(channel.write(&mut sess, 3, EngineError::none()), Ok(3));
    assert_eq!(
        channel.write(&mut sess, -1, pending(2, "Remote channel is closed")),
        Err(Error::Fatal("Remote channel is closed".to_string()))
    );
    assert_eq!(channel.get_exit_status(-1), None);
    assert_eq!(channel.get_exit_status(0), Some(0));
    assert_eq!(channel.get_exit_status(127), Some(127));
    assert_eq!(channel.send_eof(&mut sess, 0, EngineError::none()), Ok(()));
    assert_eq!(channel.current_state(), ChannelState::HalfClosed);
    assert!(channel.is_open());
    assert_eq!(channel.close(&mut sess, 0, EngineError::none()), Ok(()));
    assert!(channel.is_closed());
    assert!(!sess.release_channel(channel));
}
