//! Asking the user at the console: what the engine's prompt routine is
//! given, and what is made of what it hands back.
//!
//! The routine works on a buffer of fixed length that holds the default
//! answer on the way in and the user's answer on the way out, each ended by
//! a zero byte. Longer input is not supported: a default answer that does
//! not fit is cut, and the user's answer cannot be longer either.

use crate::text::{decode_text, marshal, nul_position, utf8_lossy, EngineString};
use vstd::prelude::*;
use vstd::utf8::encode_utf8;

verus! {

/// The length of the buffer in bytes, the ending zero byte included.
pub const INPUT_BUFFER_LEN: usize = 128;

/// The buffer that the prompt routine is given: the bytes of the default
/// answer as far as they fit in front of one zero byte, and zero bytes in
/// the rest.
pub open spec fn input_buffer(default_value: Option<Seq<u8>>) -> Seq<u8> {
    Seq::new(
        INPUT_BUFFER_LEN as nat,
        |i: int|
            match default_value {
                Some(bytes) => if i < bytes.len() && i < INPUT_BUFFER_LEN - 1 {
                    bytes[i]
                } else {
                    0u8
                },
                None => 0u8,
            },
    )
}

/// The bytes in front of the first zero byte: all of them if there is no
/// zero byte.
pub open spec fn until_nul(bytes: Seq<u8>) -> Seq<u8> {
    match nul_position(bytes) {
        Some(at) => bytes.take(at),
        None => bytes,
    }
}

/// What the prompt routine is given.
#[derive(Debug, Clone, PartialEq, Eq)]
pub struct InputRequest {
    /// The text to show to the user.
    pub prompt: EngineString,
    /// The buffer, with the default answer in it.
    pub buffer: Vec<u8>,
    /// 1 if the answer is to be shown while it is typed, else 0.
    pub echo: i32,
    /// 1 if the answer is to be typed twice, else 0.
    pub verify: i32,
}

/// The bytes of a text that may be absent.
pub open spec fn bytes_of(text: Option<&str>) -> Option<Seq<u8>> {
    match text {
        Some(t) => Some(encode_utf8(t@)),
        None => None,
    }
}

/// 1 for yes, 0 for no.
pub open spec fn flag(b: bool) -> i32 {
    if b {
        1
    } else {
        0
    }
}

/// Says what the prompt routine is to be given, and nothing if the prompt
/// cannot be handed to it.
pub fn get_input_request(prompt: &str, default_value: Option<&str>, echo: bool, verify: bool) -> (r:
    Option<InputRequest>)
    ensures
        match r {
            Some(request) => {
                &&& marshal(prompt@) == Ok::<Seq<u8>, crate::error::ErrorView>(request.prompt@)
                &&& request.buffer@ == input_buffer(bytes_of(default_value))
                &&& request.echo == flag(echo)
                &&& request.verify == flag(verify)
            },
            None => marshal(prompt@) is Err,
        },
{
    let prompt = match EngineString::new(prompt) {
        Ok(prompt) => prompt,
        Err(_) => {
            return None;
        },
    };
    let mut buffer: Vec<u8> = Vec::new();
    let mut i: usize = 0;
    while i < INPUT_BUFFER_LEN
        invariant
            i <= INPUT_BUFFER_LEN,
            buffer@.len() == i,
            forall|j: int| 0 <= j < i ==> buffer@[j] == input_buffer(bytes_of(default_value))[j],
        decreases INPUT_BUFFER_LEN - i,
    {
        let byte = match default_value {
            Some(text) => {
                let bytes = text.as_bytes();
                if i < bytes.len() && i < INPUT_BUFFER_LEN - 1 {
                    bytes[i]
                } else {
                    0u8
                }
            },
            None => 0u8,
        };
        buffer.push(byte);
        i += 1;
    }
    assert(buffer@ =~= input_buffer(bytes_of(default_value)));
    Some(
        InputRequest {
            prompt,
            buffer,
            echo: if echo {
                1
            } else {
                0
            },
            verify: if verify {
                1
            } else {
                0
            },
        },
    )
}

/// Takes what the prompt routine handed back: its status and the buffer.
/// The answer is the text in front of the first zero byte of the buffer,
/// if the status is 0; a prompt that could not be shown has no answer.
pub fn get_input(prompt: &str, res: i32, buffer: &[u8]) -> (answer: Option<String>)
    ensures
        match answer {
            Some(text) => marshal(prompt@) is Ok && res == 0 && text@ == utf8_lossy(
                until_nul(buffer@),
            ),
            None => marshal(prompt@) is Err || res != 0,
        },
{
    if EngineString::new(prompt).is_err() {
        return None;
    }
    if res != 0 {
        return None;
    }
    let end = match crate::text::find_nul(buffer) {
        Some(at) => at,
        None => buffer.len(),
    };
    proof {
        crate::text::lemma_nul_position(buffer@);
    }
    let mut text: Vec<u8> = Vec::new();
    let mut i: usize = 0;
    while i < end
        invariant
            i <= end <= buffer.len(),
            text@ == buffer@.take(i as int),
        decreases end - i,
    {
        text.push(buffer[i]);
        assert(buffer@.take(i + 1) =~= buffer@.take(i as int).push(buffer@[i as int]));
        i += 1;
    }
    assert(buffer@.take(buffer@.len() as int) =~= buffer@);
    Some(decode_text(text.as_slice()))
}

/// The buffer that the prompt routine is given always ends in a zero byte,
/// and holds the default answer in full if that is shorter than the buffer
/// and has no zero byte of its own.
pub proof fn lemma_input_buffer(default_value: Option<Seq<u8>>)
    ensures
        input_buffer(default_value).len() == INPUT_BUFFER_LEN,
        input_buffer(default_value).last() == 0,
        default_value matches Some(bytes) ==> (bytes.len() < INPUT_BUFFER_LEN && crate::text::nul_free(
            bytes,
        ) ==> until_nul(input_buffer(default_value)) == bytes),
{
    if let Some(bytes) = default_value {
        if bytes.len() < INPUT_BUFFER_LEN && crate::text::nul_free(bytes) {
            let buffer = input_buffer(default_value);
            let at = bytes.len() as int;
            assert(buffer[at] == 0);
            assert(crate::text::first_nul_at(buffer, at));
            crate::text::lemma_nul_position(buffer);
            assert(buffer.take(at) =~= bytes);
        }
    }
}

} // verus!
