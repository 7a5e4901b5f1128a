//! Text that crosses the boundary to the engine, which speaks in bytes and
//! ends every string at the first zero byte.

use crate::error::{Error, ErrorView, SshResult};
use vstd::prelude::*;
use vstd::utf8::{decode_utf8, encode_utf8, valid_utf8};

verus! {

/// The text that a byte string stands for when it is decoded as UTF-8 with
/// every malformed sequence replaced by U+FFFD.
pub uninterp spec fn utf8_lossy(bytes: Seq<u8>) -> Seq<char>;

/// Decodes bytes that the engine handed over as text.
///
/// Trusted: this is `String::from_utf8_lossy`. Well-formed UTF-8 is decoded
/// as it stands; of other input only the name of the result is known.
#[verifier::external_body]
pub(crate) fn decode_text(bytes: &[u8]) -> (s: String)
    ensures
        s@ == utf8_lossy(bytes@),
        valid_utf8(bytes@) ==> s@ == decode_utf8(bytes@),
{
    String::from_utf8_lossy(bytes).into_owned()
}

/// The text of a string that the engine may leave out: empty where it is
/// absent, else decoded as [`utf8_lossy`] says.
pub open spec fn text_of(raw: Option<Vec<u8>>) -> Seq<char> {
    match raw {
        Some(bytes) => utf8_lossy(bytes@),
        None => Seq::empty(),
    }
}

/// Decodes a string that the engine may have left out.
pub fn decode_optional(raw: &Option<Vec<u8>>) -> (s: String)
    ensures
        s@ == text_of(*raw),
        raw matches Some(bytes) ==> (valid_utf8(bytes@) ==> s@ == decode_utf8(bytes@)),
{
    match raw {
        Some(bytes) => decode_text(bytes.as_slice()),
        None => String::new(),
    }
}

/// No byte of the sequence is zero.
pub open spec fn nul_free(bytes: Seq<u8>) -> bool {
    forall|i: int| 0 <= i < bytes.len() ==> bytes[i] != 0
}

/// `at` is where the first zero byte of the sequence stands.
pub open spec fn first_nul_at(bytes: Seq<u8>, at: int) -> bool {
    &&& 0 <= at < bytes.len()
    &&& bytes[at] == 0
    &&& nul_free(bytes.take(at))
}

/// Where the first zero byte of the sequence stands, if it has one.
pub open spec fn nul_position(bytes: Seq<u8>) -> Option<int> {
    bytes.index_of_first(0u8)
}

/// `nul_position` finds the first zero byte, and finds none only where there
/// is none.
pub proof fn lemma_nul_position(bytes: Seq<u8>)
    ensures
        match nul_position(bytes) {
            Some(at) => first_nul_at(bytes, at),
            None => nul_free(bytes),
        },
        forall|at: int| first_nul_at(bytes, at) ==> nul_position(bytes) == Some(at),
{
    bytes.index_of_first_ensures(0u8);
    assert forall|at: int| first_nul_at(bytes, at) implies nul_position(bytes) == Some(at) by {
        assert(bytes.contains(0u8));
        let found = nul_position(bytes).unwrap();
        if found < at {
            assert(bytes.take(at)[found] == bytes[found]);
        }
    }
}

/// The character for a decimal digit.
pub open spec fn digit_char(d: nat) -> char {
    if d == 0 {
        '0'
    } else if d == 1 {
        '1'
    } else if d == 2 {
        '2'
    } else if d == 3 {
        '3'
    } else if d == 4 {
        '4'
    } else if d == 5 {
        '5'
    } else if d == 6 {
        '6'
    } else if d == 7 {
        '7'
    } else if d == 8 {
        '8'
    } else {
        '9'
    }
}

/// A number written in decimal, without sign or leading zeros.
pub open spec fn decimal_text(n: nat) -> Seq<char>
    decreases n,
{
    if n < 10 {
        seq![digit_char(n)]
    } else {
        decimal_text(n / 10).push(digit_char(n % 10))
    }
}

/// The reason given for text that holds a zero byte at `at`.
pub open spec fn nul_reason(at: nat) -> Seq<char> {
    "nul byte found in provided data at position: "@ + decimal_text(at)
}

/// What marshalling a text for the engine yields: its UTF-8 bytes if none of
/// them is zero, else a fatal error that names the place of the first zero.
pub open spec fn marshal(text: Seq<char>) -> Result<Seq<u8>, ErrorView> {
    let bytes = encode_utf8(text);
    match nul_position(bytes) {
        Some(at) => Err(ErrorView::Fatal(nul_reason(at as nat))),
        None => Ok(bytes),
    }
}

/// Marshalling of a text that may be absent: absence is handed on as it is.
pub open spec fn marshal_optional(text: Option<Seq<char>>) -> Result<Option<Seq<u8>>, ErrorView> {
    match text {
        Some(text) => match marshal(text) {
            Ok(bytes) => Ok(Some(bytes)),
            Err(e) => Err(e),
        },
        None => Ok(None),
    }
}

/// A text that was marshalled reads back as it was: its bytes hold no zero
/// byte, are well-formed UTF-8, and decode to the same text.
pub proof fn lemma_marshal_round_trip(text: Seq<char>)
    ensures
        marshal(text) matches Ok(bytes) ==> nul_free(bytes) && valid_utf8(bytes) && decode_utf8(
            bytes,
        ) == text,
{
    vstd::utf8::encode_utf8_valid_utf8(text);
    vstd::utf8::encode_utf8_decode_utf8(text);
    lemma_nul_position(encode_utf8(text));
}

/// Finds the first zero byte.
pub fn find_nul(bytes: &[u8]) -> (at: Option<usize>)
    ensures
        match at {
            Some(i) => nul_position(bytes@) == Some(i as int),
            None => nul_position(bytes@) is None,
        },
{
    let mut i: usize = 0;
    while i < bytes.len()
        invariant
            i <= bytes.len(),
            nul_free(bytes@.take(i as int)),
        decreases bytes.len() - i,
    {
        if bytes[i] == 0 {
            proof {
                lemma_nul_position(bytes@);
                assert(first_nul_at(bytes@, i as int));
            }
            return Some(i);
        }
        assert(bytes@.take(i + 1) =~= bytes@.take(i as int).push(bytes@[i as int]));
        i += 1;
    }
    proof {
        assert(bytes@.take(i as int) =~= bytes@);
        lemma_nul_position(bytes@);
    }
    None
}

fn digit_str(d: usize) -> (s: &'static str)
    requires
        d < 10,
    ensures
        s@ == seq![digit_char(d as nat)],
{
    proof {
        reveal_strlit("0");
        reveal_strlit("1");
        reveal_strlit("2");
        reveal_strlit("3");
        reveal_strlit("4");
        reveal_strlit("5");
        reveal_strlit("6");
        reveal_strlit("7");
        reveal_strlit("8");
        reveal_strlit("9");
    }
    let s = if d == 0 {
        "0"
    } else if d == 1 {
        "1"
    } else if d == 2 {
        "2"
    } else if d == 3 {
        "3"
    } else if d == 4 {
        "4"
    } else if d == 5 {
        "5"
    } else if d == 6 {
        "6"
    } else if d == 7 {
        "7"
    } else if d == 8 {
        "8"
    } else {
        "9"
    };
    assert(s@ =~= seq![digit_char(d as nat)]);
    s
}

/// Writes a number in decimal.
pub fn decimal(n: usize) -> (s: String)
    ensures
        s@ == decimal_text(n as nat),
    decreases n,
{
    if n < 10 {
        digit_str(n).to_owned()
    } else {
        let mut s = decimal(n / 10);
        s.append(digit_str(n % 10));
        s
    }
}

/// The error for text that cannot be handed to the engine because of the
/// zero byte at `at`.
pub fn nul_error(at: usize) -> (e: Error)
    ensures
        e@ == ErrorView::Fatal(nul_reason(at as nat)),
{
    let mut reason = "nul byte found in provided data at position: ".to_owned();
    let position = decimal(at);
    reason.append(position.as_str());
    Error::Fatal(reason)
}

/// A string as the engine takes it: bytes without a zero among them, so that
/// the engine reads all of it.
#[derive(Debug, PartialEq, Eq)]
pub struct EngineString {
    bytes: Vec<u8>,
}

impl Clone for EngineString {
    fn clone(&self) -> (copy: Self)
        ensures
            copy@ == self@,
    {
        proof {
            use_type_invariant(self);
        }
        let bytes = self.bytes.clone();
        assert(bytes@ =~= self.bytes@);
        EngineString { bytes }
    }
}

impl View for EngineString {
    type V = Seq<u8>;

    closed spec fn view(&self) -> Seq<u8> {
        self.bytes@
    }
}

/// A marshalled text, or the error in its place, by its view.
pub open spec fn marshalled_view(r: SshResult<EngineString>) -> Result<Seq<u8>, ErrorView> {
    match r {
        Ok(s) => Ok(s@),
        Err(e) => Err(e@),
    }
}

/// An optional marshalled text, or the error in its place, by its view.
pub open spec fn marshalled_optional_view(r: SshResult<Option<EngineString>>) -> Result<
    Option<Seq<u8>>,
    ErrorView,
> {
    match r {
        Ok(Some(s)) => Ok(Some(s@)),
        Ok(None) => Ok(None),
        Err(e) => Err(e@),
    }
}

impl EngineString {
    #[verifier::type_invariant]
    spec fn valid(&self) -> bool {
        nul_free(self.bytes@)
    }

    /// Marshals a text for the engine.
    pub fn new(text: &str) -> (r: SshResult<EngineString>)
        ensures
            marshalled_view(r) == marshal(text@),
    {
        let bytes = text.as_bytes();
        proof {
            lemma_nul_position(bytes@);
        }
        match find_nul(bytes) {
            Some(at) => Err(nul_error(at)),
            None => Ok(EngineString { bytes: vstd::slice::slice_to_vec(bytes) }),
        }
    }

    /// Marshals a text that may be absent.
    pub fn optional(text: Option<&str>) -> (r: SshResult<Option<EngineString>>)
        ensures
            marshalled_optional_view(r) == marshal_optional(
                match text {
                    Some(t) => Some(t@),
                    None => None,
                },
            ),
    {
        match text {
            Some(text) => match EngineString::new(text) {
                Ok(s) => Ok(Some(s)),
                Err(e) => Err(e),
            },
            None => Ok(None),
        }
    }

    /// The bytes to hand to the engine, before the terminator.
    pub fn as_bytes(&self) -> (bytes: &[u8])
        ensures
            bytes@ == self@,
            nul_free(bytes@),
    {
        proof {
            use_type_invariant(self);
        }
        self.bytes.as_slice()
    }
}

} // verus!
