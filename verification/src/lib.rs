//! A client-side SSH session core.
//!
//! The SSH2 protocol itself (cryptography, key exchange, packet framing) is
//! the work of a protocol engine that this crate never calls. Every operation
//! is split in two: the crate says what the engine is to be asked, and, once
//! the caller has asked it, takes the engine's raw answer and turns it into a
//! typed result while keeping track of the session's state. Whoever drives
//! the engine owns the I/O; the rules live here and are proved.

pub mod auth;
pub mod channel;
pub mod error;
pub mod input;
pub mod key;
pub mod known_hosts;
pub mod library;
pub mod methods;
pub mod options;
pub mod ownership;
pub mod session;
pub mod text;
pub mod time;

pub use crate::auth::{AuthStatus, InteractiveAuthInfo, InteractiveAuthPrompt, RawPrompt};
pub use crate::channel::{Channel, ChannelState};
pub use crate::error::{EngineError, Error, SshResult};
pub use crate::input::{get_input, get_input_request, InputRequest};
pub use crate::key::{PublicKeyHashType, SshKey};
pub use crate::known_hosts::KnownHosts;
pub use crate::library::{EngineGuard, LibraryState, SetupStage};
pub use crate::methods::{AuthMethod, AuthMethods};
pub use crate::options::{
    Config, LogLevel, OptionKey, OptionRequest, OptionValue, RawSocket, SshOption,
};
pub use crate::session::{Session, Stage};
pub use crate::text::EngineString;
pub use crate::time::Duration;
