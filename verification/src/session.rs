//! The session: one logical connection to a remote host, from its
//! configuration to its end.
//!
//! A session here is the record of what is known of the engine's session:
//! what was configured, whether it is connected, what the engine last
//! reported as its error. Each operation takes the engine's answer to the
//! call that the operation stands for, together with the last-error slot as
//! it was read after the call, and says what the caller is to be told.

use crate::auth::{
    answers_error, answers_outcome, answers_result, auth_outcome, auth_result, auth_view,
    describes, interactive_info, marshal_answers, marshalled_answers, mismatch_error,
    mismatch_reason, AuthStatus, InteractiveAuthInfo, RawPrompt,
};
use crate::channel::{transfer_outcome, transfer_view, Channel, ChannelState};
use crate::error::{
    basic_status, error_view, failed, failure, last_error, status_outcome, status_view,
    EngineError, Error, ErrorView, SshResult, SSH_AGAIN, SSH_NO_ERROR, SSH_OK,
};
use crate::key::SshKey;
use crate::known_hosts::{known_hosts_outcome, known_hosts_result, known_hosts_view, KnownHosts};
use crate::library::{setup_failed_reason, EngineGuard, SetupStage};
use crate::methods::{methods_of, AuthMethods};
use crate::options::{configured, unconfigured, Config, SshOption};
use crate::ownership::{OwnerEvent, Owners};
use crate::text::{decode_optional, marshal_optional, text_of, EngineString};
use crate::time::{wait_or_forever, Duration, WAIT_FOREVER};
use vstd::prelude::*;

verus! {

/// How far a session has come.
#[derive(Debug, Clone, Copy, PartialEq, Eq)]
pub enum Stage {
    /// Just created: nothing is configured.
    Created,
    /// At least one option is set; there is no connection.
    Configured,
    /// Connected to the peer.
    Connected,
}

/// What is known of a session.
pub struct SessionView {
    /// How far the session has come.
    pub stage: Stage,
    /// What was configured.
    pub config: Config,
    /// Whether calls wait until they are done.
    pub blocking: bool,
    /// The engine's last-error slot as it was last read.
    pub error: EngineError,
    /// The number of prompts of the open round of keyboard-interactive
    /// authentication, once they have been fetched.
    pub prompts: Option<nat>,
    /// Who holds the engine's handle.
    pub owners: Owners,
}

impl SessionView {
    /// The same session after the engine's last-error slot was read again.
    pub open spec fn with_error(self, error: EngineError) -> SessionView {
        SessionView { error, ..self }
    }

    /// The same session in another stage.
    pub open spec fn with_stage(self, stage: Stage) -> SessionView {
        SessionView { stage, ..self }
    }

    /// Whether a host name is configured.
    pub open spec fn has_hostname(self) -> bool {
        self.config.hostname is Some
    }

    /// The number of answers that the open round asks for: as many as it
    /// has prompts, none while no prompts were fetched.
    pub open spec fn answers_expected(self) -> nat {
        match self.prompts {
            Some(n) => n,
            None => 0,
        }
    }
}

/// A session of which nothing is known yet but that the engine made it.
pub open spec fn fresh(v: SessionView) -> bool {
    &&& v.stage == Stage::Created
    &&& unconfigured(v.config)
    &&& v.blocking
    &&& v.error.code == SSH_NO_ERROR
    &&& v.error.reason is None
    &&& v.prompts is None
    &&& v.owners == (Owners { session: true, channels: 0 })
}

/// One logical connection to a remote host. A session can open several
/// channels, and lives as long as any of them.
#[derive(Debug)]
pub struct Session {
    stage: Stage,
    config: Config,
    blocking: bool,
    error: EngineError,
    prompts: Option<usize>,
    owners: Owners,
}

impl View for Session {
    type V = SessionView;

    closed spec fn view(&self) -> SessionView {
        SessionView {
            stage: self.stage,
            config: self.config,
            blocking: self.blocking,
            error: self.error,
            prompts: match self.prompts {
                Some(n) => Some(n as nat),
                None => None,
            },
            owners: self.owners,
        }
    }
}

/// A text that may be absent, as characters.
pub open spec fn chars_of(text: Option<&str>) -> Option<Seq<char>> {
    match text {
        Some(t) => Some(t@),
        None => None,
    }
}

/// The reason given when a connection is asked for and no host is set.
pub open spec fn hostname_required() -> Seq<char> {
    "Hostname required"@
}

/// The reason given when a channel is asked of a session that is not
/// connected.
pub open spec fn not_connected() -> Seq<char> {
    "session is not connected"@
}

/// The reason given when a channel is asked of a session whose handle
/// cannot take another holder.
pub open spec fn no_room() -> Seq<char> {
    "session cannot hold another channel"@
}

/// What creating a session comes to: the session, if the engine is set up
/// and made one; else the permanent failure of the setup, or the failure to
/// make a session.
pub open spec fn creation_outcome(stage: SetupStage, allocated: bool) -> Result<(), ErrorView> {
    if stage != SetupStage::Ready {
        Err(ErrorView::Fatal(setup_failed_reason()))
    } else if !allocated {
        Err(ErrorView::Fatal("ssh_new failed"@))
    } else {
        Ok(())
    }
}

/// What setting an option comes to, once the engine was asked: success for
/// the status 0, else the failure that the slot explains.
pub open spec fn option_outcome(res: i32, slot: EngineError) -> Result<(), ErrorView> {
    if res == 0 {
        Ok(())
    } else {
        Err(failure(slot, "failed to set option"@))
    }
}

/// What a call comes to that either succeeds or fails: success for
/// `SSH_OK`, else the failure that the slot explains.
pub open spec fn plain_outcome(res: i32, slot: EngineError, fallback: Seq<char>) -> Result<
    (),
    ErrorView,
> {
    if res == SSH_OK {
        Ok(())
    } else {
        Err(failure(slot, fallback))
    }
}

/// The reason given when the engine fails to read a configuration file and
/// explains no error.
pub open spec fn parse_failed_reason(file_name: Option<Seq<char>>) -> Seq<char> {
    match file_name {
        Some(name) => "error parsing config file: Some(\""@ + name + "\")"@,
        None => "error parsing config file: None"@,
    }
}

/// What asking for the user name comes to: the name that the engine handed
/// out, decoded, if it reported success and handed one out; else the
/// failure that the slot explains.
pub open spec fn user_name_outcome(res: i32, name: Option<Vec<u8>>, slot: EngineError) -> Result<
    Seq<char>,
    ErrorView,
> {
    if res == SSH_OK && name is Some {
        Ok(text_of(name))
    } else {
        Err(failure(slot, "error getting user name"@))
    }
}

/// The port that a forward is bound to once the engine took the request:
/// the one that was asked for, or, where the peer was left to choose by
/// asking for port 0, the one that the engine reports.
pub open spec fn bound_port_of(port: u16, reported: i32) -> u16 {
    if port == 0 {
        reported as u16
    } else {
        port
    }
}

/// What a request to listen for forwarded connections comes to.
pub open spec fn listen_outcome(port: u16, res: i32, reported: i32, slot: EngineError) -> Result<
    u16,
    ErrorView,
> {
    if res == SSH_OK {
        Ok(bound_port_of(port, reported))
    } else {
        Err(failure(slot, "error in ssh_channel_listen_forward"@))
    }
}

/// The error of waiting for a forwarded connection in vain: the one
/// pending in the slot, and a retry if none is pending, because the wait
/// has then only run out.
pub open spec fn nothing_accepted(slot: EngineError) -> ErrorView {
    match slot.pending() {
        Some(e) => e,
        None => ErrorView::TryAgain,
    }
}

/// The two interests of the engine in its socket: in reading, in writing.
pub open spec fn poll_state(flags: i32) -> (bool, bool) {
    (flags & 2 != 0, flags & 8 != 0)
}

impl Session {
    /// Creates the session for a handle that the engine was asked for.
    /// `allocated` says whether the engine gave one out. There is no
    /// session while the engine is not set up.
    pub fn new(guard: &EngineGuard, allocated: bool) -> (r: SshResult<Session>)
        ensures
            match r {
                Ok(session) => creation_outcome(guard.stage(), allocated) is Ok && fresh(session@),
                Err(e) => creation_outcome(guard.stage(), allocated) == Err::<(), ErrorView>(e@),
            },
    {
        match guard.initialize() {
            Ok(()) => {},
            Err(e) => {
                return Err(e);
            },
        }
        if !allocated {
            return Err(Error::fatal("ssh_new failed"));
        }
        Ok(
            Session {
                stage: Stage::Created,
                config: Config::new(),
                blocking: true,
                error: EngineError::none(),
                prompts: None,
                owners: Owners::new(),
            },
        )
    }

    /// How far the session has come.
    pub fn stage(&self) -> (stage: Stage)
        ensures
            stage == self@.stage,
    {
        self.stage
    }

    /// What was configured.
    pub fn config(&self) -> (config: &Config)
        ensures
            *config == self@.config,
    {
        &self.config
    }

    /// Whether the session is connected, as far as the engine has told.
    pub fn is_connected(&self) -> (connected: bool)
        ensures
            connected == (self@.stage == Stage::Connected),
    {
        matches!(self.stage, Stage::Connected)
    }

    /// Takes what the engine says of the connection, which the peer or the
    /// network may have ended: anything but 0 means that it stands.
    pub fn observe_connection(&mut self, alive: i32)
        ensures
            final(self)@ == old(self)@.with_stage(
                if alive != 0 {
                    Stage::Connected
                } else if old(self)@.stage == Stage::Connected {
                    Stage::Configured
                } else {
                    old(self)@.stage
                },
            ),
    {
        if alive != 0 {
            self.stage = Stage::Connected;
        } else if let Stage::Connected = self.stage {
            self.stage = Stage::Configured;
        }
    }

    /// Whether calls on the session and its channels wait until they are
    /// done. If not, they may report `TryAgain`.
    pub fn is_blocking(&self) -> (blocking: bool)
        ensures
            blocking == self@.blocking,
    {
        self.blocking
    }

    /// Switches between waiting and not waiting. The result is what the
    /// engine is to be given: 1 for waiting, 0 for not.
    pub fn set_blocking(&mut self, blocking: bool) -> (flag: i32)
        ensures
            final(self)@ == (SessionView { blocking, ..old(self)@ }),
            flag == if blocking {
                1i32
            } else {
                0i32
            },
    {
        self.blocking = blocking;
        if blocking {
            1
        } else {
            0
        }
    }

    /// The error that is pending in the engine's last-error slot, as it
    /// was last read.
    pub fn last_error(&self) -> (e: Option<Error>)
        ensures
            error_view(e) == self@.error.pending(),
    {
        last_error(&self.error)
    }

    /// Takes the status of an engine call that returns nothing else,
    /// together with the slot as read after it.
    pub fn basic_status(&mut self, res: i32, error: EngineError, what: &str) -> (r: SshResult<()>)
        ensures
            status_view(r) == status_outcome(res, error, what@),
            final(self)@ == old(self)@.with_error(error),
    {
        self.error = error;
        basic_status(res, &self.error, what)
    }

    /// Takes the answer of an engine call that moves bytes, together with
    /// the slot as read after it.
    pub fn transfer_status(&mut self, n: i32, error: EngineError, what: &str) -> (r: SshResult<
        usize,
    >)
        ensures
            transfer_view(r) == transfer_outcome(n, error, what@),
            final(self)@ == old(self)@.with_error(error),
    {
        self.error = error;
        if n >= 0 {
            Ok(n as usize)
        } else if n == SSH_AGAIN {
            Err(Error::TryAgain)
        } else {
            Err(failed(&self.error, what))
        }
    }

    /// Takes the engine's answer to setting an option. An option that
    /// cannot be handed to the engine is refused whatever the answer, and
    /// nothing changes. An option that the engine took is recorded; the
    /// session then counts as configured.
    pub fn set_option(&mut self, option: SshOption, res: i32, error: EngineError) -> (r: SshResult<
        (),
    >)
        ensures
            status_view(r) == match option.spec_request() {
                Ok(_) => option_outcome(res, error),
                Err(e) => Err(e),
            },
            option.spec_request() is Err ==> final(self)@ == old(self)@,
            option.spec_request() is Ok && res != 0 ==> final(self)@ == old(self)@.with_error(
                error,
            ),
            option.spec_request() is Ok && res == 0 ==> {
                &&& configured(old(self)@.config, option, final(self)@.config)
                &&& final(self)@ == (SessionView {
                    config: final(self)@.config,
                    stage: if old(self)@.stage == Stage::Created {
                        Stage::Configured
                    } else {
                        old(self)@.stage
                    },
                    error,
                    ..old(self)@
                })
            },
    {
        match option.request() {
            Ok(_) => {},
            Err(e) => {
                return Err(e);
            },
        }
        self.error = error;
        if res == 0 {
            self.config.set(option);
            if let Stage::Created = self.stage {
                self.stage = Stage::Configured;
            }
            Ok(())
        } else {
            Err(failed(&self.error, "failed to set option"))
        }
    }

    /// Says whether the engine may be asked to connect: not before a host
    /// name is configured.
    pub fn connect_request(&self) -> (r: SshResult<()>)
        ensures
            status_view(r) == if self@.has_hostname() {
                Ok::<(), ErrorView>(())
            } else {
                Err::<(), ErrorView>(ErrorView::Fatal(hostname_required()))
            },
    {
        if self.config.hostname.is_some() {
            Ok(())
        } else {
            Err(Error::fatal("Hostname required"))
        }
    }

    /// Takes the engine's answer to connecting. Without a host name the
    /// attempt fails whatever the answer, and nothing changes. The session
    /// is connected once the engine reports success.
    pub fn connect(&mut self, res: i32, error: EngineError) -> (r: SshResult<()>)
        ensures
            status_view(r) == if old(self)@.has_hostname() {
                status_outcome(res, error, "ssh_connect failed"@)
            } else {
                Err(ErrorView::Fatal(hostname_required()))
            },
            final(self)@ == if !old(self)@.has_hostname() {
                old(self)@
            } else if res == SSH_OK {
                old(self)@.with_error(error).with_stage(Stage::Connected)
            } else {
                old(self)@.with_error(error)
            },
    {
        match self.connect_request() {
            Ok(()) => {},
            Err(e) => {
                return Err(e);
            },
        }
        let r = self.basic_status(res, error, "ssh_connect failed");
        if r.is_ok() {
            self.stage = Stage::Connected;
        }
        r
    }

    /// Records that the engine was told to disconnect. A connected session
    /// is configured again and can connect anew; an open round of
    /// keyboard-interactive authentication is over.
    pub fn disconnect(&mut self)
        ensures
            final(self)@ == (SessionView {
                stage: if old(self)@.stage == Stage::Connected {
                    Stage::Configured
                } else {
                    old(self)@.stage
                },
                prompts: None,
                ..old(self)@
            }),
    {
        if let Stage::Connected = self.stage {
            self.stage = Stage::Configured;
        }
        self.prompts = None;
    }

    /// Takes the engine's answer to the question whether the key of the
    /// connected peer is known.
    pub fn is_known_server(&mut self, res: i32, error: EngineError) -> (r: SshResult<KnownHosts>)
        ensures
            known_hosts_view(r) == known_hosts_outcome(res, error),
            final(self)@ == old(self)@.with_error(error),
    {
        self.error = error;
        known_hosts_result(res, &self.error)
    }

    /// Takes the engine's answer to adding the key of the connected peer to
    /// the user's known-hosts file.
    pub fn update_known_hosts_file(&mut self, res: i32, error: EngineError) -> (r: SshResult<()>)
        ensures
            status_view(r) == plain_outcome(res, error, "error updating known hosts file"@),
            final(self)@ == old(self)@.with_error(error),
    {
        self.error = error;
        if res == SSH_OK {
            Ok(())
        } else {
            Err(failed(&self.error, "error updating known hosts file"))
        }
    }

    /// Takes the engine's answer to reading a configuration file, the
    /// default one where no name is given. A name that cannot be handed to
    /// the engine is refused whatever the answer.
    pub fn options_parse_config(&mut self, file_name: Option<&str>, res: i32, error: EngineError) -> (r:
        SshResult<()>)
        ensures
            status_view(r) == match marshal_optional(chars_of(file_name)) {
                Ok(_) => plain_outcome(res, error, parse_failed_reason(chars_of(file_name))),
                Err(e) => Err(e),
            },
            final(self)@ == if marshal_optional(chars_of(file_name)) is Ok {
                old(self)@.with_error(error)
            } else {
                old(self)@
            },
    {
        match EngineString::optional(file_name) {
            Ok(_) => {},
            Err(e) => {
                return Err(e);
            },
        }
        self.error = error;
        if res == SSH_OK {
            return Ok(());
        }
        match last_error(&self.error) {
            Some(e) => Err(e),
            None => {
                let reason = match file_name {
                    Some(name) => {
                        let mut reason = "error parsing config file: Some(\"".to_owned();
                        reason.append(name);
                        reason.append("\")");
                        reason
                    },
                    None => "error parsing config file: None".to_owned(),
                };
                Err(Error::Fatal(reason))
            },
        }
    }

    /// Takes the engine's answer to the question which user name will be
    /// used for authentication: the status, and the name where the engine
    /// handed one out.
    pub fn get_user_name(&mut self, res: i32, name: Option<Vec<u8>>, error: EngineError) -> (r:
        SshResult<String>)
        ensures
            crate::key::text_view(r) == user_name_outcome(res, name, error),
            final(self)@ == old(self)@.with_error(error),
    {
        self.error = error;
        if res != SSH_OK || name.is_none() {
            Err(failed(&self.error, "error getting user name"))
        } else {
            Ok(decode_optional(&name))
        }
    }

    /// Takes the engine's answer to the request for the peer's public key:
    /// the status, and whether the engine handed a key out.
    pub fn get_server_public_key(&mut self, res: i32, has_key: bool, error: EngineError) -> (r:
        SshResult<SshKey>)
        ensures
            match r {
                Ok(key) => res == SSH_OK && has_key && !key.is_released(),
                Err(e) => !(res == SSH_OK && has_key) && e@ == failure(
                    error,
                    "failed to get server public key"@,
                ),
            },
            final(self)@ == old(self)@.with_error(error),
    {
        self.error = error;
        if res == SSH_OK && has_key {
            Ok(SshKey::new())
        } else {
            Err(failed(&self.error, "failed to get server public key"))
        }
    }

    fn auth_status(
        &mut self,
        username: Option<&str>,
        secret: Option<&str>,
        res: i32,
        error: EngineError,
    ) -> (r: SshResult<AuthStatus>)
        ensures
            auth_view(r) == attempt_outcome(chars_of(username), chars_of(secret), res, error),
            final(self)@ == if marshal_optional(chars_of(username)) is Ok && marshal_optional(
                chars_of(secret),
            ) is Ok {
                old(self)@.with_error(error)
            } else {
                old(self)@
            },
    {
        match EngineString::optional(username) {
            Ok(_) => {},
            Err(e) => {
                return Err(e);
            },
        }
        match EngineString::optional(secret) {
            Ok(_) => {},
            Err(e) => {
                return Err(e);
            },
        }
        self.error = error;
        auth_result(res, &self.error, "authentication error")
    }

    /// Takes the engine's answer to an attempt to authenticate with the
    /// keys of the agent and of the configured identities. `username` is
    /// best left out, so that the configured user is taken; `password`
    /// unlocks the private key.
    pub fn userauth_public_key_auto(
        &mut self,
        username: Option<&str>,
        password: Option<&str>,
        res: i32,
        error: EngineError,
    ) -> (r: SshResult<AuthStatus>)
        ensures
            auth_view(r) == attempt_outcome(chars_of(username), chars_of(password), res, error),
            final(self)@ == if marshal_optional(chars_of(username)) is Ok && marshal_optional(
                chars_of(password),
            ) is Ok {
                old(self)@.with_error(error)
            } else {
                old(self)@
            },
    {
        self.auth_status(username, password, res, error)
    }

    /// Takes the engine's answer to an attempt to authenticate with the
    /// method `"none"`. Peers rarely let it succeed; it is made first to
    /// learn which methods they permit.
    pub fn userauth_none(&mut self, username: Option<&str>, res: i32, error: EngineError) -> (r:
        SshResult<AuthStatus>)
        ensures
            auth_view(r) == attempt_outcome(chars_of(username), None, res, error),
            final(self)@ == if marshal_optional(chars_of(username)) is Ok {
                old(self)@.with_error(error)
            } else {
                old(self)@
            },
    {
        self.auth_status(username, None, res, error)
    }

    /// Takes the engine's answer to the question which methods the peer
    /// permits: a mask of them. The answer is never a failure of its own:
    /// before the first attempt with `"none"` the set is what the engine
    /// knows by then, which may be nothing.
    pub fn userauth_list(&mut self, username: Option<&str>, mask: i32, error: EngineError) -> (r:
        SshResult<AuthMethods>)
        ensures
            match marshal_optional(chars_of(username)) {
                Ok(_) => r matches Ok(methods) && methods@ == methods_of(mask as u32),
                Err(e) => r matches Err(err) && err@ == e,
            },
            final(self)@ == if marshal_optional(chars_of(username)) is Ok {
                old(self)@.with_error(error)
            } else {
                old(self)@
            },
    {
        match EngineString::optional(username) {
            Ok(_) => {},
            Err(e) => {
                return Err(e);
            },
        }
        self.error = error;
        Ok(AuthMethods::from_bits_truncate(#[verifier::truncate] (mask as u32)))
    }

    /// Takes the engine's answers about the open round of
    /// keyboard-interactive authentication: its name, its instructions,
    /// the number of its prompts and the prompts as they were fetched.
    /// Where no round is open the engine has none of them, and the round
    /// described is one without prompts. The number of prompts is kept:
    /// the answers must match it.
    pub fn userauth_keyboard_interactive_info(
        &mut self,
        name: Option<Vec<u8>>,
        instruction: Option<Vec<u8>>,
        n_prompts: i32,
        prompts: Vec<RawPrompt>,
    ) -> (r: SshResult<InteractiveAuthInfo>)
        ensures
            r matches Ok(info) && describes(info, name, instruction, n_prompts, prompts@),
            r matches Ok(info) && final(self)@ == (SessionView {
                prompts: Some(info.prompts@.len()),
                ..old(self)@
            }),
    {
        let info = interactive_info(&name, &instruction, n_prompts, &prompts);
        self.prompts = Some(info.prompts.len());
        Ok(info)
    }

    /// Says what the engine is to be given as the answers to the prompts
    /// of the open round, one string for each prompt in the order of the
    /// prompts. Answers that differ in number from the prompts that were
    /// fetched are refused, and none of them is handed on.
    pub fn userauth_keyboard_interactive_set_answers_request(&self, answers: &[String]) -> (r:
        SshResult<Vec<EngineString>>)
        ensures
            match r {
                Ok(out) => submission_error(self@.answers_expected(), answers@) is None
                    && marshalled_answers(answers@, out@),
                Err(e) => submission_error(self@.answers_expected(), answers@) == Some(e@),
            },
    {
        let expected = match self.prompts {
            Some(n) => n,
            None => 0,
        };
        if answers.len() != expected {
            return Err(mismatch_error(expected, answers.len()));
        }
        marshal_answers(answers)
    }

    /// Takes the engine's answers to the submitted strings: one status for
    /// each string that was submitted, up to the first that the engine
    /// refused. Answers that were not to be submitted are refused whatever
    /// the statuses, and nothing changes.
    pub fn userauth_keyboard_interactive_set_answers(
        &mut self,
        answers: &[String],
        results: &[i32],
        error: EngineError,
    ) -> (r: SshResult<()>)
        ensures
            status_view(r) == match submission_error(old(self)@.answers_expected(), answers@) {
                Some(e) => Err(e),
                None => answers_outcome(results@, error),
            },
            final(self)@ == if submission_error(old(self)@.answers_expected(), answers@) is None {
                old(self)@.with_error(error)
            } else {
                old(self)@
            },
    {
        match self.userauth_keyboard_interactive_set_answers_request(answers) {
            Ok(_) => {},
            Err(e) => {
                return Err(e);
            },
        }
        self.error = error;
        answers_result(results, &self.error)
    }

    /// Takes the engine's answer to an attempt at keyboard-interactive
    /// authentication, which also presents the answers that were set. If
    /// the outcome is `Info`, the peer has opened a round of prompts: they
    /// are to be fetched and answered before the next attempt. Prompts
    /// that were fetched before are out of date.
    pub fn userauth_keyboard_interactive(
        &mut self,
        username: Option<&str>,
        sub_methods: Option<&str>,
        res: i32,
        error: EngineError,
    ) -> (r: SshResult<AuthStatus>)
        ensures
            auth_view(r) == attempt_outcome(chars_of(username), chars_of(sub_methods), res, error),
            final(self)@ == if marshal_optional(chars_of(username)) is Ok && marshal_optional(
                chars_of(sub_methods),
            ) is Ok {
                SessionView { error, prompts: None, ..old(self)@ }
            } else {
                old(self)@
            },
    {
        match EngineString::optional(username) {
            Ok(_) => {},
            Err(e) => {
                return Err(e);
            },
        }
        match EngineString::optional(sub_methods) {
            Ok(_) => {},
            Err(e) => {
                return Err(e);
            },
        }
        self.error = error;
        self.prompts = None;
        auth_result(res, &self.error, "authentication error")
    }

    /// Takes the engine's answer to an attempt to authenticate with a
    /// password.
    pub fn userauth_password(
        &mut self,
        username: Option<&str>,
        password: Option<&str>,
        res: i32,
        error: EngineError,
    ) -> (r: SshResult<AuthStatus>)
        ensures
            auth_view(r) == attempt_outcome(chars_of(username), chars_of(password), res, error),
            final(self)@ == if marshal_optional(chars_of(username)) is Ok && marshal_optional(
                chars_of(password),
            ) is Ok {
                old(self)@.with_error(error)
            } else {
                old(self)@
            },
    {
        self.auth_status(username, password, res, error)
    }

    /// Takes the engine's answer to the request that the peer listen for
    /// connections to forward: the status, and the port that the engine
    /// reports as bound. With `port` 0 the peer chooses the port. An
    /// address that cannot be handed to the engine is refused whatever the
    /// answer.
    pub fn listen_forward(
        &mut self,
        bind_address: Option<&str>,
        port: u16,
        res: i32,
        bound_port: i32,
        error: EngineError,
    ) -> (r: SshResult<u16>)
        ensures
            match marshal_optional(chars_of(bind_address)) {
                Ok(_) => match listen_outcome(port, res, bound_port, error) {
                    Ok(bound) => r == Ok::<u16, Error>(bound),
                    Err(e) => r matches Err(err) && err@ == e,
                },
                Err(e) => r matches Err(err) && err@ == e,
            },
            final(self)@ == if marshal_optional(chars_of(bind_address)) is Ok {
                old(self)@.with_error(error)
            } else {
                old(self)@
            },
    {
        match EngineString::optional(bind_address) {
            Ok(_) => {},
            Err(e) => {
                return Err(e);
            },
        }
        self.error = error;
        if res == SSH_OK {
            if port == 0 {
                Ok(#[verifier::truncate] (bound_port as u16))
            } else {
                Ok(port)
            }
        } else {
            Err(failed(&self.error, "error in ssh_channel_listen_forward"))
        }
    }

    /// Says whether the engine may be asked for a channel: only while the
    /// session is connected.
    pub fn channel_request(&self) -> (r: SshResult<()>)
        ensures
            status_view(r) == if self@.stage == Stage::Connected {
                Ok::<(), ErrorView>(())
            } else {
                Err::<(), ErrorView>(ErrorView::Fatal(not_connected()))
            },
    {
        if let Stage::Connected = self.stage {
            Ok(())
        } else {
            Err(Error::fatal("session is not connected"))
        }
    }

    fn adopt(&mut self, state: ChannelState) -> (r: SshResult<Channel>)
        ensures
            match r {
                Ok(channel) => {
                    &&& old(self)@.owners.held()
                    &&& old(self)@.owners.channels < usize::MAX
                    &&& channel.state() == state
                },
                Err(e) => {
                    &&& !(old(self)@.owners.held() && old(self)@.owners.channels < usize::MAX)
                    &&& e@ == ErrorView::Fatal(no_room())
                },
            },
            final(self)@ == (SessionView {
                owners: old(self)@.owners.after(OwnerEvent::OpenChannel),
                ..old(self)@
            }),
    {
        if self.owners.open_channel() {
            Ok(Channel::new(state))
        } else {
            Err(Error::fatal("session cannot hold another channel"))
        }
    }

    /// Takes the engine's answer to the request for a new channel:
    /// whether it made one. A session that is not connected has no
    /// channels, whatever the answer. The new channel holds the session's
    /// handle together with the session.
    pub fn new_channel(&mut self, allocated: bool, error: EngineError) -> (r: SshResult<Channel>)
        ensures
            match r {
                Ok(channel) => {
                    &&& old(self)@.stage == Stage::Connected
                    &&& allocated
                    &&& old(self)@.owners.held()
                    &&& old(self)@.owners.channels < usize::MAX
                    &&& channel.state() == ChannelState::Allocated
                    &&& final(self)@ == (SessionView {
                        error,
                        owners: old(self)@.owners.after(OwnerEvent::OpenChannel),
                        ..old(self)@
                    })
                },
                Err(e) => {
                    if old(self)@.stage != Stage::Connected {
                        e@ == ErrorView::Fatal(not_connected()) && final(self)@ == old(self)@
                    } else if !allocated {
                        e@ == failure(error, "ssh_channel_new failed"@) && final(self)@ == old(
                            self,
                        )@.with_error(error)
                    } else {
                        &&& !(old(self)@.owners.held() && old(self)@.owners.channels < usize::MAX)
                        &&& e@ == ErrorView::Fatal(no_room())
                        &&& final(self)@ == old(self)@.with_error(error)
                    }
                },
            },
    {
        match self.channel_request() {
            Ok(()) => {},
            Err(e) => {
                return Err(e);
            },
        }
        self.error = error;
        if !allocated {
            return Err(failed(&self.error, "ssh_channel_new failed"));
        }
        self.adopt(ChannelState::Allocated)
    }

    /// Takes the engine's answer to waiting for a forwarded connection:
    /// whether it accepted one, and the port that the connection was made
    /// to, which tells the forwards apart. A wait that ran out without a
    /// connection and without an error is to be repeated. The channel of
    /// an accepted connection is open.
    pub fn accept_forward(&mut self, accepted: bool, port: i32, error: EngineError) -> (r: SshResult<
        (u16, Channel),
    >)
        ensures
            match r {
                Ok((to, channel)) => {
                    &&& accepted
                    &&& old(self)@.owners.held()
                    &&& old(self)@.owners.channels < usize::MAX
                    &&& to == port as u16
                    &&& channel.state() == ChannelState::Open
                    &&& final(self)@ == (SessionView {
                        error,
                        owners: old(self)@.owners.after(OwnerEvent::OpenChannel),
                        ..old(self)@
                    })
                },
                Err(e) => {
                    &&& final(self)@ == old(self)@.with_error(error)
                    &&& if !accepted {
                        e@ == nothing_accepted(error)
                    } else {
                        &&& !(old(self)@.owners.held() && old(self)@.owners.channels < usize::MAX)
                        &&& e@ == ErrorView::Fatal(no_room())
                    }
                },
            },
    {
        self.error = error;
        if !accepted {
            return match last_error(&self.error) {
                Some(e) => Err(e),
                None => Err(Error::TryAgain),
            };
        }
        match self.adopt(ChannelState::Open) {
            Ok(channel) => Ok((#[verifier::truncate] (port as u16), channel)),
            Err(e) => Err(e),
        }
    }

    /// Takes the engine's poll flags and says what the caller's readiness
    /// mechanism is to wait for: the socket to be readable, the socket to
    /// be writable.
    pub fn get_poll_state(&self, flags: i32) -> (state: (bool, bool))
        ensures
            state == poll_state(flags),
    {
        (flags & 2 != 0, flags & 8 != 0)
    }

    /// Says how long the engine is to wait for the outgoing buffer to
    /// drain: the milliseconds of the limit, or for as long as it takes
    /// where there is no limit.
    pub fn blocking_flush_wait(timeout: Option<Duration>) -> (wait: i32)
        ensures
            wait == wait_or_forever(timeout),
            timeout is Some ==> wait >= 0,
    {
        match timeout {
            Some(span) => span.to_wait_millis(),
            None => WAIT_FOREVER,
        }
    }

    /// Takes the engine's answer to draining the outgoing buffer.
    pub fn blocking_flush(&mut self, res: i32, error: EngineError) -> (r: SshResult<()>)
        ensures
            status_view(r) == status_outcome(res, error, "blocking_flush"@),
            final(self)@ == old(self)@.with_error(error),
    {
        self.basic_status(res, error, "blocking_flush")
    }

    /// Gives a channel up. The result says whether the engine's handle of
    /// the session is to be released now: it is if the session was given
    /// up before and this was its last channel.
    pub fn release_channel(&mut self, channel: Channel) -> (release: bool)
        ensures
            release == old(self)@.owners.releases(OwnerEvent::DropChannel),
            final(self)@ == (SessionView {
                owners: old(self)@.owners.after(OwnerEvent::DropChannel),
                ..old(self)@
            }),
    {
        self.owners.drop_channel()
    }

    /// Gives the session up. The result says whether the engine's handle
    /// is to be released now: it is if no channel is left. Else the last
    /// channel releases it.
    pub fn release(&mut self) -> (release: bool)
        ensures
            release == old(self)@.owners.releases(OwnerEvent::DropSession),
            final(self)@ == (SessionView {
                owners: old(self)@.owners.after(OwnerEvent::DropSession),
                ..old(self)@
            }),
    {
        self.owners.drop_session()
    }
}

/// What stands in the way of submitting the answers: that they differ in
/// number from the prompts, or else the first answer that cannot be handed
/// to the engine.
pub open spec fn submission_error(expected: nat, answers: Seq<String>) -> Option<ErrorView> {
    if answers.len() != expected {
        Some(ErrorView::Fatal(mismatch_reason(expected, answers.len())))
    } else {
        answers_error(answers)
    }
}

/// What an attempt to authenticate comes to: the error of a name or a
/// secret that cannot be handed to the engine, the name's first; else what
/// the engine's answer means.
pub open spec fn attempt_outcome(
    username: Option<Seq<char>>,
    secret: Option<Seq<char>>,
    res: i32,
    slot: EngineError,
) -> Result<AuthStatus, ErrorView> {
    match marshal_optional(username) {
        Err(e) => Err(e),
        Ok(_) => match marshal_optional(secret) {
            Err(e) => Err(e),
            Ok(_) => auth_outcome(res, slot, "authentication error"@),
        },
    }
}

/// A session that was just created is not connected, has no error
/// pending, nothing configured and no round of prompts open, and holds its
/// handle alone.
pub proof fn lemma_fresh_session(v: SessionView)
    requires
        fresh(v),
    ensures
        v.stage != Stage::Connected,
        v.error.pending() is None,
        !v.has_hostname(),
        v.answers_expected() == 0,
        v.owners.held(),
{
}

/// Where no round of prompts is open, which the engine reports by a count
/// below zero, the round that is described has no prompts, whatever was
/// fetched; and no round has more prompts than the engine counted.
pub proof fn lemma_no_round_no_prompts(
    info: InteractiveAuthInfo,
    name: Option<Vec<u8>>,
    instruction: Option<Vec<u8>>,
    n_prompts: i32,
    prompts: Seq<RawPrompt>,
)
    requires
        describes(info, name, instruction, n_prompts, prompts),
    ensures
        n_prompts <= 0 ==> info.prompts@.len() == 0,
        n_prompts >= 0 ==> info.prompts@.len() <= n_prompts,
        info.prompts@.len() <= prompts.len(),
{
}

/// Answers are handed on only if there is exactly one for each prompt:
/// with more answers or fewer nothing is submitted, and the caller is told
/// so with both numbers.
pub proof fn lemma_answers_match_prompts(expected: nat, answers: Seq<String>)
    ensures
        submission_error(expected, answers) is None ==> answers.len() == expected,
        answers.len() != expected ==> submission_error(expected, answers) == Some(
            ErrorView::Fatal(mismatch_reason(expected, answers.len())),
        ),
{
}

} // verus!
