//! Whether the key of the connected peer is one that was trusted before.

use crate::error::{failed, failure, EngineError, ErrorView, SshResult};
use vstd::prelude::*;

verus! {

/// What the known-hosts store says of the connected peer.
#[derive(Debug, Clone, Copy, PartialEq, Eq)]
pub enum KnownHosts {
    /// There is no known-hosts file yet, so the peer is unknown. The file is
    /// created when the key is accepted.
    NotFound,
    /// The file exists and the peer is not in it: the user should confirm
    /// the key.
    Unknown,
    /// The peer is known and its key is the one on record.
    KnownOk,
    /// The key differs from the one on record: the peer was replaced or the
    /// connection is intercepted. The user must be warned.
    Changed,
    /// The peer presented a key of another type than the one on record.
    Other,
}

/// The reason given when the engine's answer is none of the five and it
/// explains no error.
pub open spec fn unknown_answer_reason() -> Seq<char> {
    "unknown error in ssh_session_is_known_server"@
}

/// What the engine's answer to the known-hosts check means: one of the five
/// outcomes, or for every other answer the failure that the slot explains.
pub open spec fn known_hosts_outcome(res: i32, slot: EngineError) -> Result<KnownHosts, ErrorView> {
    if res == -1 {
        Ok(KnownHosts::NotFound)
    } else if res == 0 {
        Ok(KnownHosts::Unknown)
    } else if res == 1 {
        Ok(KnownHosts::KnownOk)
    } else if res == 2 {
        Ok(KnownHosts::Changed)
    } else if res == 3 {
        Ok(KnownHosts::Other)
    } else {
        Err(failure(slot, unknown_answer_reason()))
    }
}

/// The outcome of the known-hosts check, by its view.
pub open spec fn known_hosts_view(r: SshResult<KnownHosts>) -> Result<KnownHosts, ErrorView> {
    match r {
        Ok(known) => Ok(known),
        Err(e) => Err(e@),
    }
}

/// Translates the engine's answer to the known-hosts check.
pub fn known_hosts_result(res: i32, slot: &EngineError) -> (r: SshResult<KnownHosts>)
    ensures
        known_hosts_view(r) == known_hosts_outcome(res, *slot),
{
    if res == -1 {
        Ok(KnownHosts::NotFound)
    } else if res == 0 {
        Ok(KnownHosts::Unknown)
    } else if res == 1 {
        Ok(KnownHosts::KnownOk)
    } else if res == 2 {
        Ok(KnownHosts::Changed)
    } else if res == 3 {
        Ok(KnownHosts::Other)
    } else {
        Err(failed(slot, "unknown error in ssh_session_is_known_server"))
    }
}

} // verus!
