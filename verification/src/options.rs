//! The options of a session: what a caller may configure, and how each
//! option is handed to the engine as one key with one value.

use crate::error::{ErrorView, SshResult};
use crate::text::{marshal, EngineString};
use crate::time::{timeout_micros, Duration};
use vstd::prelude::*;

verus! {

/// A socket descriptor of the host system.
pub type RawSocket = i32;

/// How much the engine logs.
#[derive(Debug, Clone, Copy, PartialEq, Eq)]
pub enum LogLevel {
    NoLogging,
    Warning,
    Protocol,
    Packet,
    Functions,
}

impl LogLevel {
    /// The verbosity that the engine knows the level by.
    pub open spec fn spec_verbosity(&self) -> i32 {
        match self {
            LogLevel::NoLogging => 0,
            LogLevel::Warning => 1,
            LogLevel::Protocol => 2,
            LogLevel::Packet => 3,
            LogLevel::Functions => 4,
        }
    }

    /// The verbosity that the engine knows the level by.
    #[verifier::when_used_as_spec(spec_verbosity)]
    pub fn verbosity(&self) -> (v: i32)
        ensures
            v == self.spec_verbosity(),
    {
        match self {
            LogLevel::NoLogging => 0,
            LogLevel::Warning => 1,
            LogLevel::Protocol => 2,
            LogLevel::Packet => 3,
            LogLevel::Functions => 4,
        }
    }
}

/// One setting of a session. A host name is needed before connecting.
#[derive(Debug)]
pub enum SshOption {
    /// The host name or address to connect to.
    Hostname(String),
    /// The port to connect to.
    Port(u16),
    /// How much the engine logs.
    LogLevel(LogLevel),
    /// A socket that is already open, to use in place of a new connection.
    Socket(RawSocket),
    /// The address to bind the client to.
    BindAddress(String),
    /// The user to authenticate as; `None` restores the default user.
    User(Option<String>),
    /// The directory of keys and known hosts; `None` restores the default.
    SshDir(Option<String>),
    /// The file of known hosts; `None` restores the default.
    KnownHosts(Option<String>),
    /// One more identity file to try for public-key authentication.
    AddIdentity(String),
    /// How long connecting may take.
    Timeout(Duration),
}

/// The configuration keys of the engine that the options map to.
#[derive(Debug, Clone, Copy, PartialEq, Eq)]
pub enum OptionKey {
    Host,
    Port,
    Fd,
    User,
    SshDir,
    AddIdentity,
    KnownHosts,
    TimeoutUsec,
    LogVerbosity,
    BindAddr,
}

impl OptionKey {
    /// The number that the engine knows the key by.
    pub open spec fn spec_code(&self) -> u32 {
        match self {
            OptionKey::Host => 0,
            OptionKey::Port => 1,
            OptionKey::Fd => 3,
            OptionKey::User => 4,
            OptionKey::SshDir => 5,
            OptionKey::AddIdentity => 7,
            OptionKey::KnownHosts => 8,
            OptionKey::TimeoutUsec => 10,
            OptionKey::LogVerbosity => 13,
            OptionKey::BindAddr => 20,
        }
    }

    /// The number that the engine knows the key by.
    #[verifier::when_used_as_spec(spec_code)]
    pub fn code(&self) -> (c: u32)
        ensures
            c == self.spec_code(),
    {
        match self {
            OptionKey::Host => 0,
            OptionKey::Port => 1,
            OptionKey::Fd => 3,
            OptionKey::User => 4,
            OptionKey::SshDir => 5,
            OptionKey::AddIdentity => 7,
            OptionKey::KnownHosts => 8,
            OptionKey::TimeoutUsec => 10,
            OptionKey::LogVerbosity => 13,
            OptionKey::BindAddr => 20,
        }
    }
}

/// The value of an option as the engine takes it.
#[derive(Debug, Clone, PartialEq, Eq)]
pub enum OptionValue {
    /// A string; `None` is the absent string, which restores the default.
    Text(Option<EngineString>),
    /// A signed integer.
    Int(i32),
    /// An unsigned integer.
    UInt(u32),
    /// An unsigned long integer.
    ULong(u64),
}

/// An [`OptionValue`] with its text as bytes.
pub enum OptionValueView {
    Text(Option<Seq<u8>>),
    Int(i32),
    UInt(u32),
    ULong(u64),
}

impl View for OptionValue {
    type V = OptionValueView;

    open spec fn view(&self) -> OptionValueView {
        match self {
            OptionValue::Text(Some(text)) => OptionValueView::Text(Some(text@)),
            OptionValue::Text(None) => OptionValueView::Text(None),
            OptionValue::Int(v) => OptionValueView::Int(*v),
            OptionValue::UInt(v) => OptionValueView::UInt(*v),
            OptionValue::ULong(v) => OptionValueView::ULong(*v),
        }
    }
}

/// What the engine is asked in order to set one option.
#[derive(Debug, Clone, PartialEq, Eq)]
pub struct OptionRequest {
    pub key: OptionKey,
    pub value: OptionValue,
}

/// A required text as the value of an option.
pub open spec fn text_value(text: Seq<char>) -> Result<OptionValueView, ErrorView> {
    match marshal(text) {
        Ok(bytes) => Ok(OptionValueView::Text(Some(bytes))),
        Err(e) => Err(e),
    }
}

/// A text that may be absent as the value of an option.
pub open spec fn optional_text_value(text: Option<String>) -> Result<OptionValueView, ErrorView> {
    match text {
        Some(text) => text_value(text@),
        None => Ok(OptionValueView::Text(None)),
    }
}

/// A request, or the error in its place, by its view.
pub open spec fn request_view(r: SshResult<OptionRequest>) -> Result<
    (OptionKey, OptionValueView),
    ErrorView,
> {
    match r {
        Ok(request) => Ok((request.key, request.value@)),
        Err(e) => Err(e@),
    }
}

fn required_text(text: &String) -> (r: SshResult<OptionValue>)
    ensures
        match r {
            Ok(v) => text_value(text@) == Ok::<OptionValueView, ErrorView>(v@),
            Err(e) => text_value(text@) == Err::<OptionValueView, ErrorView>(e@),
        },
{
    match EngineString::new(text.as_str()) {
        Ok(s) => Ok(OptionValue::Text(Some(s))),
        Err(e) => Err(e),
    }
}

fn optional_text(text: &Option<String>) -> (r: SshResult<OptionValue>)
    ensures
        match r {
            Ok(v) => optional_text_value(*text) == Ok::<OptionValueView, ErrorView>(v@),
            Err(e) => optional_text_value(*text) == Err::<OptionValueView, ErrorView>(e@),
        },
{
    match text {
        Some(text) => required_text(text),
        None => Ok(OptionValue::Text(None)),
    }
}

impl SshOption {
    /// The engine's key for the option: each option has exactly one.
    pub open spec fn spec_key(&self) -> OptionKey {
        match self {
            SshOption::Hostname(_) => OptionKey::Host,
            SshOption::Port(_) => OptionKey::Port,
            SshOption::LogLevel(_) => OptionKey::LogVerbosity,
            SshOption::Socket(_) => OptionKey::Fd,
            SshOption::BindAddress(_) => OptionKey::BindAddr,
            SshOption::User(_) => OptionKey::User,
            SshOption::SshDir(_) => OptionKey::SshDir,
            SshOption::KnownHosts(_) => OptionKey::KnownHosts,
            SshOption::AddIdentity(_) => OptionKey::AddIdentity,
            SshOption::Timeout(_) => OptionKey::TimeoutUsec,
        }
    }

    /// The engine's key for the option.
    #[verifier::when_used_as_spec(spec_key)]
    pub fn key(&self) -> (k: OptionKey)
        ensures
            k == self.spec_key(),
    {
        match self {
            SshOption::Hostname(_) => OptionKey::Host,
            SshOption::Port(_) => OptionKey::Port,
            SshOption::LogLevel(_) => OptionKey::LogVerbosity,
            SshOption::Socket(_) => OptionKey::Fd,
            SshOption::BindAddress(_) => OptionKey::BindAddr,
            SshOption::User(_) => OptionKey::User,
            SshOption::SshDir(_) => OptionKey::SshDir,
            SshOption::KnownHosts(_) => OptionKey::KnownHosts,
            SshOption::AddIdentity(_) => OptionKey::AddIdentity,
            SshOption::Timeout(_) => OptionKey::TimeoutUsec,
        }
    }

    /// The value that the engine is given for the option, or the error for a
    /// text that it cannot be given: a port as an unsigned integer, a level
    /// by its verbosity, a socket as it is, a timeout in microseconds, and a
    /// text by its bytes, where absence restores the default.
    pub open spec fn spec_value(&self) -> Result<OptionValueView, ErrorView> {
        match self {
            SshOption::Hostname(name) => text_value(name@),
            SshOption::Port(port) => Ok(OptionValueView::UInt(*port as u32)),
            SshOption::LogLevel(level) => Ok(OptionValueView::Int(level.spec_verbosity())),
            SshOption::Socket(socket) => Ok(OptionValueView::Int(*socket)),
            SshOption::BindAddress(name) => text_value(name@),
            SshOption::User(name) => optional_text_value(*name),
            SshOption::SshDir(name) => optional_text_value(*name),
            SshOption::KnownHosts(name) => optional_text_value(*name),
            SshOption::AddIdentity(name) => text_value(name@),
            SshOption::Timeout(span) => Ok(OptionValueView::ULong(timeout_micros(span@))),
        }
    }

    /// What asking the engine to set the option takes: its key with its
    /// value, or the error that stands in the way.
    pub open spec fn spec_request(&self) -> Result<(OptionKey, OptionValueView), ErrorView> {
        match self.spec_value() {
            Ok(value) => Ok((self.spec_key(), value)),
            Err(e) => Err(e),
        }
    }

    /// Says what the engine is to be asked in order to set the option.
    pub fn request(&self) -> (r: SshResult<OptionRequest>)
        ensures
            request_view(r) == self.spec_request(),
    {
        let value = match self {
            SshOption::Hostname(name) => required_text(name),
            SshOption::Port(port) => Ok(OptionValue::UInt(*port as u32)),
            SshOption::LogLevel(level) => Ok(OptionValue::Int(level.verbosity())),
            SshOption::Socket(socket) => Ok(OptionValue::Int(*socket)),
            SshOption::BindAddress(name) => required_text(name),
            SshOption::User(name) => optional_text(name),
            SshOption::SshDir(name) => optional_text(name),
            SshOption::KnownHosts(name) => optional_text(name),
            SshOption::AddIdentity(name) => required_text(name),
            SshOption::Timeout(span) => Ok(OptionValue::ULong(span.to_timeout_micros())),
        };
        match value {
            Ok(value) => Ok(OptionRequest { key: self.key(), value }),
            Err(e) => Err(e),
        }
    }
}

/// What has been configured for a session: for each option the value that
/// was set last, `None` while the engine's default is in force, and every
/// identity file that was added, in the order of adding.
#[derive(Debug)]
pub struct Config {
    pub hostname: Option<String>,
    pub port: Option<u16>,
    pub log_level: Option<LogLevel>,
    pub socket: Option<RawSocket>,
    pub bind_address: Option<String>,
    pub user: Option<String>,
    pub ssh_dir: Option<String>,
    pub known_hosts: Option<String>,
    pub identities: Vec<String>,
    pub timeout: Option<Duration>,
}

/// `after` is `before` with one option set: the option's own entry holds
/// its value, an absent text standing for the default, an added identity is
/// the last of the identities, and every other entry is as it was.
pub open spec fn configured(before: Config, option: SshOption, after: Config) -> bool {
    &&& after.hostname == if let SshOption::Hostname(name) = option {
        Some(name)
    } else {
        before.hostname
    }
    &&& after.port == if let SshOption::Port(port) = option {
        Some(port)
    } else {
        before.port
    }
    &&& after.log_level == if let SshOption::LogLevel(level) = option {
        Some(level)
    } else {
        before.log_level
    }
    &&& after.socket == if let SshOption::Socket(socket) = option {
        Some(socket)
    } else {
        before.socket
    }
    &&& after.bind_address == if let SshOption::BindAddress(name) = option {
        Some(name)
    } else {
        before.bind_address
    }
    &&& after.user == if let SshOption::User(name) = option {
        name
    } else {
        before.user
    }
    &&& after.ssh_dir == if let SshOption::SshDir(name) = option {
        name
    } else {
        before.ssh_dir
    }
    &&& after.known_hosts == if let SshOption::KnownHosts(name) = option {
        name
    } else {
        before.known_hosts
    }
    &&& after.identities@ == if let SshOption::AddIdentity(name) = option {
        before.identities@.push(name)
    } else {
        before.identities@
    }
    &&& after.timeout == if let SshOption::Timeout(span) = option {
        Some(span)
    } else {
        before.timeout
    }
}

/// Nothing is configured: every entry is at the engine's default.
pub open spec fn unconfigured(config: Config) -> bool {
    &&& config.hostname is None
    &&& config.port is None
    &&& config.log_level is None
    &&& config.socket is None
    &&& config.bind_address is None
    &&& config.user is None
    &&& config.ssh_dir is None
    &&& config.known_hosts is None
    &&& config.identities@.len() == 0
    &&& config.timeout is None
}

/// The two configurations hold the same entries.
pub open spec fn same_config(a: Config, b: Config) -> bool {
    &&& a.hostname == b.hostname
    &&& a.port == b.port
    &&& a.log_level == b.log_level
    &&& a.socket == b.socket
    &&& a.bind_address == b.bind_address
    &&& a.user == b.user
    &&& a.ssh_dir == b.ssh_dir
    &&& a.known_hosts == b.known_hosts
    &&& a.identities@ == b.identities@
    &&& a.timeout == b.timeout
}

impl Config {
    /// The configuration of a session for which nothing was set.
    pub fn new() -> (config: Config)
        ensures
            unconfigured(config),
    {
        Config {
            hostname: None,
            port: None,
            log_level: None,
            socket: None,
            bind_address: None,
            user: None,
            ssh_dir: None,
            known_hosts: None,
            identities: Vec::new(),
            timeout: None,
        }
    }

    /// Records an option that the engine has taken.
    pub fn set(&mut self, option: SshOption)
        ensures
            configured(*old(self), option, *final(self)),
    {
        match option {
            SshOption::Hostname(name) => {
                self.hostname = Some(name);
            },
            SshOption::Port(port) => {
                self.port = Some(port);
            },
            SshOption::LogLevel(level) => {
                self.log_level = Some(level);
            },
            SshOption::Socket(socket) => {
                self.socket = Some(socket);
            },
            SshOption::BindAddress(name) => {
                self.bind_address = Some(name);
            },
            SshOption::User(name) => {
                self.user = name;
            },
            SshOption::SshDir(name) => {
                self.ssh_dir = name;
            },
            SshOption::KnownHosts(name) => {
                self.known_hosts = name;
            },
            SshOption::AddIdentity(name) => {
                self.identities.push(name);
            },
            SshOption::Timeout(span) => {
                self.timeout = Some(span);
            },
        }
    }
}

/// Setting an option and reading it back yields what was set: the value
/// for a value, the default for an absent text, and an added identity as
/// the last of the identities. A second setting of the same option leaves
/// the entry as the first did.
pub proof fn lemma_set_then_read(before: Config, option: SshOption, after: Config, again: Config)
    requires
        configured(before, option, after),
        configured(after, option, again),
    ensures
        match option {
            SshOption::Hostname(name) => after.hostname == Some(name) && again.hostname
                == after.hostname,
            SshOption::Port(port) => after.port == Some(port) && again.port == after.port,
            SshOption::LogLevel(level) => after.log_level == Some(level) && again.log_level
                == after.log_level,
            SshOption::Socket(socket) => after.socket == Some(socket) && again.socket
                == after.socket,
            SshOption::BindAddress(name) => after.bind_address == Some(name) && again.bind_address
                == after.bind_address,
            SshOption::User(name) => after.user == name && again.user == after.user,
            SshOption::SshDir(name) => after.ssh_dir == name && again.ssh_dir == after.ssh_dir,
            SshOption::KnownHosts(name) => after.known_hosts == name && again.known_hosts
                == after.known_hosts,
            SshOption::AddIdentity(name) => after.identities@.last() == name,
            SshOption::Timeout(span) => after.timeout == Some(span) && again.timeout
                == after.timeout,
        },
{
}

} // verus!
