//! Authentication: what an attempt can come to, which methods the peer
//! permits, and the prompts and answers of keyboard-interactive
//! authentication.

use crate::error::{failed, failure, EngineError, Error, ErrorView, SshResult};
use crate::text::{decimal, decimal_text, decode_optional, marshal, text_of, EngineString};
use vstd::prelude::*;

verus! {

/// What an authentication attempt came to.
#[derive(Debug, Clone, Copy, PartialEq, Eq)]
pub enum AuthStatus {
    /// Authenticated in full: channels can be opened now.
    Success,
    /// The attempt was refused. Another attempt or method may do.
    Denied,
    /// Authenticated in part: `userauth_list` says how to go on.
    Partial,
    /// The peer has questions: fetch the prompts and give the answers.
    Info,
    /// The attempt would block: make the same call again later.
    Again,
}

/// What the engine's answer to an authentication attempt means: one of the
/// five dispositions, or else the failure that the slot explains.
pub open spec fn auth_outcome(res: i32, slot: EngineError, fallback: Seq<char>) -> Result<
    AuthStatus,
    ErrorView,
> {
    if res == 0 {
        Ok(AuthStatus::Success)
    } else if res == 1 {
        Ok(AuthStatus::Denied)
    } else if res == 2 {
        Ok(AuthStatus::Partial)
    } else if res == 3 {
        Ok(AuthStatus::Info)
    } else if res == 4 {
        Ok(AuthStatus::Again)
    } else {
        Err(failure(slot, fallback))
    }
}

/// The outcome of an authentication attempt, by its view.
pub open spec fn auth_view(r: SshResult<AuthStatus>) -> Result<AuthStatus, ErrorView> {
    match r {
        Ok(status) => Ok(status),
        Err(e) => Err(e@),
    }
}

/// Translates the engine's answer to an authentication attempt.
pub fn auth_result(res: i32, slot: &EngineError, what: &str) -> (r: SshResult<AuthStatus>)
    ensures
        auth_view(r) == auth_outcome(res, *slot, what@),
{
    if res == 0 {
        Ok(AuthStatus::Success)
    } else if res == 1 {
        Ok(AuthStatus::Denied)
    } else if res == 2 {
        Ok(AuthStatus::Partial)
    } else if res == 3 {
        Ok(AuthStatus::Info)
    } else if res == 4 {
        Ok(AuthStatus::Again)
    } else {
        Err(failed(slot, what))
    }
}

/// A question of the peer in keyboard-interactive authentication.
#[derive(Debug, Clone, PartialEq, Eq)]
pub struct InteractiveAuthPrompt {
    /// The text to show to the user.
    pub prompt: String,
    /// Whether the answer may be shown while it is typed; if not, it is a
    /// secret.
    pub echo: bool,
}

/// What the peer asks in one round of keyboard-interactive authentication.
#[derive(Debug, Clone, PartialEq, Eq)]
pub struct InteractiveAuthInfo {
    /// Instructions for the whole round. May be empty.
    pub instruction: String,
    /// The name of the round. May be empty.
    pub name: String,
    /// The questions, in the order in which they are to be answered.
    pub prompts: Vec<InteractiveAuthPrompt>,
}

/// A prompt as the engine hands it out: its text, which may be missing, and
/// a flag that is zero where the answer is a secret.
#[derive(Debug, Clone, PartialEq, Eq)]
pub struct RawPrompt {
    pub text: Option<Vec<u8>>,
    pub echo: i8,
}

/// How many prompts there are to fetch when the engine reports `n_prompts`:
/// none where the count is negative, which is what the engine reports when
/// no round is open.
pub open spec fn spec_prompt_count(n_prompts: i32) -> u32 {
    if n_prompts < 0 {
        0
    } else {
        n_prompts as u32
    }
}

/// How many prompts there are to fetch when the engine reports `n_prompts`.
#[verifier::when_used_as_spec(spec_prompt_count)]
pub fn prompt_count(n_prompts: i32) -> (count: u32)
    ensures
        count == spec_prompt_count(n_prompts),
{
    if n_prompts < 0 {
        0
    } else {
        n_prompts as u32
    }
}

/// How many of the fetched prompts belong to the round: as many as the
/// engine counted, and no more than were fetched.
pub open spec fn prompts_taken(n_prompts: i32, fetched: nat) -> nat {
    if spec_prompt_count(n_prompts) as nat <= fetched {
        spec_prompt_count(n_prompts) as nat
    } else {
        fetched
    }
}

/// `info` is what the engine's answers say of the round: the name and the
/// instructions decoded, empty where the engine gave none, and the prompts
/// in the engine's order, each with its text decoded and with echo on
/// exactly where the engine's flag is not zero.
pub open spec fn describes(
    info: InteractiveAuthInfo,
    name: Option<Vec<u8>>,
    instruction: Option<Vec<u8>>,
    n_prompts: i32,
    prompts: Seq<RawPrompt>,
) -> bool {
    &&& info.name@ == text_of(name)
    &&& info.instruction@ == text_of(instruction)
    &&& info.prompts@.len() == prompts_taken(n_prompts, prompts.len())
    &&& forall|i: int|
        0 <= i < info.prompts@.len() ==> {
            &&& (#[trigger] info.prompts@[i]).prompt@ == text_of(prompts[i].text)
            &&& info.prompts@[i].echo == (prompts[i].echo != 0)
        }
}

/// Puts together what the engine said of a round of keyboard-interactive
/// authentication.
pub fn interactive_info(
    name: &Option<Vec<u8>>,
    instruction: &Option<Vec<u8>>,
    n_prompts: i32,
    prompts: &Vec<RawPrompt>,
) -> (info: InteractiveAuthInfo)
    ensures
        describes(info, *name, *instruction, n_prompts, prompts@),
{
    let name = decode_optional(name);
    let instruction = decode_optional(instruction);
    let count = prompt_count(n_prompts) as usize;
    let taken = if count <= prompts.len() {
        count
    } else {
        prompts.len()
    };
    let mut out: Vec<InteractiveAuthPrompt> = Vec::new();
    let mut i: usize = 0;
    while i < taken
        invariant
            i <= taken <= prompts.len(),
            out@.len() == i,
            forall|j: int|
                0 <= j < i ==> {
                    &&& (#[trigger] out@[j]).prompt@ == text_of(prompts@[j].text)
                    &&& out@[j].echo == (prompts@[j].echo != 0)
                },
        decreases taken - i,
    {
        let raw = &prompts[i];
        out.push(InteractiveAuthPrompt { prompt: decode_optional(&raw.text), echo: raw.echo != 0 });
        i += 1;
    }
    InteractiveAuthInfo { instruction, name, prompts: out }
}

/// The reason given when the answers do not match the prompts in number.
pub open spec fn mismatch_reason(prompts: nat, answers: nat) -> Seq<char> {
    "keyboard-interactive: "@ + decimal_text(answers) + " answers given to "@ + decimal_text(
        prompts,
    ) + " prompts"@
}

/// The error for answers that do not match the prompts in number.
pub fn mismatch_error(prompts: usize, answers: usize) -> (e: Error)
    ensures
        e@ == ErrorView::Fatal(mismatch_reason(prompts as nat, answers as nat)),
{
    let mut reason = "keyboard-interactive: ".to_owned();
    let given = decimal(answers);
    reason.append(given.as_str());
    reason.append(" answers given to ");
    let asked = decimal(prompts);
    reason.append(asked.as_str());
    reason.append(" prompts");
    Error::Fatal(reason)
}

/// The error of the first answer that cannot be handed to the engine, if
/// there is such an answer.
pub open spec fn answers_error(answers: Seq<String>) -> Option<ErrorView>
    decreases answers.len(),
{
    if answers.len() == 0 {
        None
    } else {
        match marshal(answers[0]@) {
            Err(e) => Some(e),
            Ok(_) => answers_error(answers.drop_first()),
        }
    }
}

/// `out` holds the answers as the engine takes them: each by its bytes,
/// in the order of the answers.
pub open spec fn marshalled_answers(answers: Seq<String>, out: Seq<EngineString>) -> bool {
    &&& out.len() == answers.len()
    &&& forall|i: int|
        0 <= i < answers.len() ==> marshal((#[trigger] answers[i])@) == Ok::<Seq<u8>, ErrorView>(
            out[i]@,
        )
}

/// Marshals the answers for the engine, one string for each prompt: all of
/// them, or the error of the first that cannot be marshalled.
pub fn marshal_answers(answers: &[String]) -> (r: SshResult<Vec<EngineString>>)
    ensures
        match r {
            Ok(out) => answers_error(answers@) is None && marshalled_answers(answers@, out@),
            Err(e) => answers_error(answers@) == Some(e@),
        },
{
    let mut out: Vec<EngineString> = Vec::new();
    let mut i: usize = 0;
    assert(answers@.skip(0) =~= answers@);
    while i < answers.len()
        invariant
            i <= answers.len(),
            out@.len() == i,
            answers_error(answers@) == answers_error(answers@.skip(i as int)),
            forall|j: int|
                0 <= j < i ==> marshal((#[trigger] answers@[j])@) == Ok::<Seq<u8>, ErrorView>(
                    out@[j]@,
                ),
        decreases answers.len() - i,
    {
        assert(answers@.skip(i as int).drop_first() =~= answers@.skip(i + 1));
        assert(answers@.skip(i as int)[0] == answers@[i as int]);
        match EngineString::new(answers[i].as_str()) {
            Ok(s) => {
                out.push(s);
            },
            Err(e) => {
                return Err(e);
            },
        }
        i += 1;
    }
    Ok(out)
}

/// What the engine's answers to the submitted strings mean: success if it
/// took every one of them, else the failure that the slot explains.
pub open spec fn answers_outcome(results: Seq<i32>, slot: EngineError) -> Result<(), ErrorView> {
    if forall|i: int| 0 <= i < results.len() ==> results[i] == 0 {
        Ok(())
    } else {
        Err(failure(slot, "error setting answer"@))
    }
}

/// Translates the engine's answers to the submitted strings, of which there
/// is one for each string submitted up to the first that it refused.
pub fn answers_result(results: &[i32], slot: &EngineError) -> (r: SshResult<()>)
    ensures
        crate::error::status_view(r) == answers_outcome(results@, *slot),
{
    let mut i: usize = 0;
    while i < results.len()
        invariant
            i <= results.len(),
            forall|j: int| 0 <= j < i ==> results@[j] == 0,
        decreases results.len() - i,
    {
        if results[i] != 0 {
            return Err(failed(slot, "error setting answer"));
        }
        i += 1;
    }
    Ok(())
}

} // verus!
