//! The error taxonomy, and the translation of the engine's status codes and
//! last-error slot into it.

use crate::text::{decode_optional, text_of};
use vstd::prelude::*;

verus! {

/// Status of an engine call: it completed.
pub const SSH_OK: i32 = 0;

/// Status of an engine call: it failed; the last-error slot says why.
pub const SSH_ERROR: i32 = -1;

/// Status of an engine call: it would block; ask again later.
pub const SSH_AGAIN: i32 = -2;

/// Status of an engine call: the stream has ended.
pub const SSH_EOF: i32 = -127;

/// Class in the last-error slot: no error is pending.
pub const SSH_NO_ERROR: i32 = 0;

/// Class in the last-error slot: the peer denied the request.
pub const SSH_REQUEST_DENIED: i32 = 1;

/// Class in the last-error slot: the operation failed for good.
pub const SSH_FATAL: i32 = 2;

/// What an operation reports when it does not succeed.
#[derive(Debug, Clone, PartialEq, Eq)]
pub enum Error {
    /// The session is in non-blocking mode and the operation would block:
    /// repeat the same call later. Not a failure.
    TryAgain,
    /// The peer rejected the request; another method or port may be accepted.
    RequestDenied(String),
    /// The operation failed and repeating it will not help.
    Fatal(String),
}

/// The result of every fallible operation.
pub type SshResult<T> = Result<T, Error>;

/// An [`Error`] with its reason as a sequence of characters.
pub enum ErrorView {
    TryAgain,
    RequestDenied(Seq<char>),
    Fatal(Seq<char>),
}

impl View for Error {
    type V = ErrorView;

    open spec fn view(&self) -> ErrorView {
        match self {
            Error::TryAgain => ErrorView::TryAgain,
            Error::RequestDenied(reason) => ErrorView::RequestDenied(reason@),
            Error::Fatal(reason) => ErrorView::Fatal(reason@),
        }
    }
}

impl Error {
    /// A fatal error with the given reason.
    pub fn fatal(reason: &str) -> (e: Error)
        ensures
            e@ == ErrorView::Fatal(reason@),
    {
        Error::Fatal(reason.to_owned())
    }
}

/// The engine's last-error slot of one session, as read right after a call:
/// the class of the pending error and its text, which may be missing.
#[derive(Debug, Clone, PartialEq, Eq)]
pub struct EngineError {
    pub code: i32,
    pub reason: Option<Vec<u8>>,
}

impl EngineError {
    /// The slot with no error pending.
    pub fn none() -> (slot: EngineError)
        ensures
            slot.code == SSH_NO_ERROR,
            slot.reason is None,
    {
        EngineError { code: SSH_NO_ERROR, reason: None }
    }

    /// The text in the slot; empty where the engine gave none.
    pub open spec fn text(&self) -> Seq<char> {
        text_of(self.reason)
    }

    /// The error that the slot holds: none for the class `SSH_NO_ERROR`, a
    /// denied request for `SSH_REQUEST_DENIED`, a fatal error for every other
    /// class, each with the engine's own text.
    pub open spec fn pending(&self) -> Option<ErrorView> {
        if self.code == SSH_NO_ERROR {
            None
        } else if self.code == SSH_REQUEST_DENIED {
            Some(ErrorView::RequestDenied(self.text()))
        } else {
            Some(ErrorView::Fatal(self.text()))
        }
    }
}

/// An optional error by its view.
pub open spec fn error_view(e: Option<Error>) -> Option<ErrorView> {
    match e {
        Some(e) => Some(e@),
        None => None,
    }
}

/// The outcome of an operation without a value, by its view.
pub open spec fn status_view(r: SshResult<()>) -> Result<(), ErrorView> {
    match r {
        Ok(()) => Ok(()),
        Err(e) => Err(e@),
    }
}

/// The error for a failed call: the one pending in the slot, and only if
/// none is pending a fatal error with the fallback text.
pub open spec fn failure(slot: EngineError, fallback: Seq<char>) -> ErrorView {
    match slot.pending() {
        Some(e) => e,
        None => ErrorView::Fatal(fallback),
    }
}

/// What a plain status means: success for `SSH_OK`, a retry for `SSH_AGAIN`,
/// and for every other status the failure that the slot explains.
pub open spec fn status_outcome(res: i32, slot: EngineError, fallback: Seq<char>) -> Result<
    (),
    ErrorView,
> {
    if res == SSH_OK {
        Ok(())
    } else if res == SSH_AGAIN {
        Err(ErrorView::TryAgain)
    } else {
        Err(failure(slot, fallback))
    }
}

/// Reads the error that is pending in the last-error slot.
pub fn last_error(slot: &EngineError) -> (e: Option<Error>)
    ensures
        error_view(e) == slot.pending(),
{
    if slot.code == SSH_NO_ERROR {
        return None;
    }
    let reason = decode_optional(&slot.reason);
    if slot.code == SSH_REQUEST_DENIED {
        Some(Error::RequestDenied(reason))
    } else {
        Some(Error::Fatal(reason))
    }
}

/// The error for a call that failed: the engine's own, or the fallback.
pub fn failed(slot: &EngineError, what: &str) -> (e: Error)
    ensures
        e@ == failure(*slot, what@),
{
    match last_error(slot) {
        Some(e) => e,
        None => Error::fatal(what),
    }
}

/// Translates the status of an engine call that returns nothing else.
pub fn basic_status(res: i32, slot: &EngineError, what: &str) -> (r: SshResult<()>)
    ensures
        status_view(r) == status_outcome(res, *slot, what@),
{
    if res == SSH_OK {
        Ok(())
    } else if res == SSH_AGAIN {
        Err(Error::TryAgain)
    } else {
        Err(failed(slot, what))
    }
}

/// Every error of a failed call is the engine's own where the engine
/// explains one, whatever the fallback says; the fallback is the reason only
/// where no error is pending, and the error is then fatal.
pub proof fn lemma_engine_reason_preferred(slot: EngineError, fallback: Seq<char>)
    ensures
        slot.code != SSH_NO_ERROR ==> slot.pending() == Some(failure(slot, fallback)),
        slot.code == SSH_REQUEST_DENIED ==> failure(slot, fallback) == ErrorView::RequestDenied(
            slot.text(),
        ),
        slot.code != SSH_NO_ERROR && slot.code != SSH_REQUEST_DENIED ==> failure(slot, fallback)
            == ErrorView::Fatal(slot.text()),
        slot.code == SSH_NO_ERROR ==> failure(slot, fallback) == ErrorView::Fatal(fallback),
{
}

/// A status is translated to a retry only for `SSH_AGAIN`, and to success
/// only for `SSH_OK`: a call that would block is never taken for a failure,
/// nor a failure for a call to repeat.
pub proof fn lemma_retry_is_no_failure(res: i32, slot: EngineError, fallback: Seq<char>)
    ensures
        status_outcome(res, slot, fallback) is Ok <==> res == SSH_OK,
        res == SSH_AGAIN ==> status_outcome(res, slot, fallback) == Err::<(), ErrorView>(
            ErrorView::TryAgain,
        ),
        res != SSH_OK && res != SSH_AGAIN ==> status_outcome(res, slot, fallback) == Err::<
            (),
            ErrorView,
        >(failure(slot, fallback)),
{
}

} // verus!
