//! The public key of a peer, and the fingerprints that are taken of it.

use crate::error::{Error, ErrorView, SshResult};
use vstd::prelude::*;

verus! {

/// The hash to take of a public key.
#[derive(Debug, Clone, Copy, PartialEq, Eq)]
pub enum PublicKeyHashType {
    Sha1,
    Md5,
    Sha256,
}

impl PublicKeyHashType {
    /// The number that the engine knows the hash by.
    pub open spec fn spec_code(&self) -> u32 {
        match self {
            PublicKeyHashType::Sha1 => 0,
            PublicKeyHashType::Md5 => 1,
            PublicKeyHashType::Sha256 => 2,
        }
    }

    /// The number that the engine knows the hash by.
    #[verifier::when_used_as_spec(spec_code)]
    pub fn code(&self) -> (c: u32)
        ensures
            c == self.spec_code(),
    {
        match self {
            PublicKeyHashType::Sha1 => 0,
            PublicKeyHashType::Md5 => 1,
            PublicKeyHashType::Sha256 => 2,
        }
    }

    /// The length in bytes of every digest of the hash.
    pub open spec fn spec_digest_len(&self) -> usize {
        match self {
            PublicKeyHashType::Sha1 => 20,
            PublicKeyHashType::Md5 => 16,
            PublicKeyHashType::Sha256 => 32,
        }
    }

    /// The length in bytes of every digest of the hash.
    #[verifier::when_used_as_spec(spec_digest_len)]
    pub fn digest_len(&self) -> (len: usize)
        ensures
            len == self.spec_digest_len(),
    {
        match self {
            PublicKeyHashType::Sha1 => 20,
            PublicKeyHashType::Md5 => 16,
            PublicKeyHashType::Sha256 => 32,
        }
    }
}

/// The character for a value of four bits, in lower case.
pub open spec fn hex_char(nibble: u8) -> char {
    if nibble == 0 {
        '0'
    } else if nibble == 1 {
        '1'
    } else if nibble == 2 {
        '2'
    } else if nibble == 3 {
        '3'
    } else if nibble == 4 {
        '4'
    } else if nibble == 5 {
        '5'
    } else if nibble == 6 {
        '6'
    } else if nibble == 7 {
        '7'
    } else if nibble == 8 {
        '8'
    } else if nibble == 9 {
        '9'
    } else if nibble == 10 {
        'a'
    } else if nibble == 11 {
        'b'
    } else if nibble == 12 {
        'c'
    } else if nibble == 13 {
        'd'
    } else if nibble == 14 {
        'e'
    } else {
        'f'
    }
}

/// The value of four bits that a character of [`hex_text`] stands for.
pub open spec fn hex_value(c: char) -> u8 {
    if c == '0' {
        0
    } else if c == '1' {
        1
    } else if c == '2' {
        2
    } else if c == '3' {
        3
    } else if c == '4' {
        4
    } else if c == '5' {
        5
    } else if c == '6' {
        6
    } else if c == '7' {
        7
    } else if c == '8' {
        8
    } else if c == '9' {
        9
    } else if c == 'a' {
        10
    } else if c == 'b' {
        11
    } else if c == 'c' {
        12
    } else if c == 'd' {
        13
    } else if c == 'e' {
        14
    } else {
        15
    }
}

/// Whether the character is a digit or a lower-case letter from `a` to `f`.
pub open spec fn is_lower_hex(c: char) -> bool {
    ('0' <= c && c <= '9') || ('a' <= c && c <= 'f')
}

/// Bytes written in hexadecimal: two characters for each byte, the high
/// four bits first, in lower case and with nothing in between.
pub open spec fn hex_text(bytes: Seq<u8>) -> Seq<char> {
    Seq::new(
        2 * bytes.len(),
        |i: int|
            if i % 2 == 0 {
                hex_char(bytes[i / 2] >> 4)
            } else {
                hex_char(bytes[i / 2] & 0x0f)
            },
    )
}

fn hex_str(nibble: u8) -> (s: &'static str)
    requires
        nibble < 16,
    ensures
        s@ == seq![hex_char(nibble)],
{
    proof {
        reveal_strlit("0");
        reveal_strlit("1");
        reveal_strlit("2");
        reveal_strlit("3");
        reveal_strlit("4");
        reveal_strlit("5");
        reveal_strlit("6");
        reveal_strlit("7");
        reveal_strlit("8");
        reveal_strlit("9");
        reveal_strlit("a");
        reveal_strlit("b");
        reveal_strlit("c");
        reveal_strlit("d");
        reveal_strlit("e");
        reveal_strlit("f");
    }
    let s = if nibble == 0 {
        "0"
    } else if nibble == 1 {
        "1"
    } else if nibble == 2 {
        "2"
    } else if nibble == 3 {
        "3"
    } else if nibble == 4 {
        "4"
    } else if nibble == 5 {
        "5"
    } else if nibble == 6 {
        "6"
    } else if nibble == 7 {
        "7"
    } else if nibble == 8 {
        "8"
    } else if nibble == 9 {
        "9"
    } else if nibble == 10 {
        "a"
    } else if nibble == 11 {
        "b"
    } else if nibble == 12 {
        "c"
    } else if nibble == 13 {
        "d"
    } else if nibble == 14 {
        "e"
    } else {
        "f"
    };
    assert(s@ =~= seq![hex_char(nibble)]);
    s
}

/// Writes bytes in hexadecimal.
pub fn hexa(bytes: &[u8]) -> (text: String)
    ensures
        text@ == hex_text(bytes@),
{
    let mut text = String::new();
    let mut i: usize = 0;
    while i < bytes.len()
        invariant
            i <= bytes.len(),
            text@ == hex_text(bytes@.take(i as int)),
        decreases bytes.len() - i,
    {
        let byte = bytes[i];
        let high = byte >> 4;
        let low = byte & 0x0f;
        assert(high < 16 && low < 16) by (bit_vector)
            requires
                high == byte >> 4,
                low == byte & 0x0f,
        ;
        let ghost before = text@;
        text.append(hex_str(high));
        text.append(hex_str(low));
        assert(text@ =~= hex_text(bytes@.take(i + 1))) by {
            assert(text@ =~= before + seq![hex_char(high)] + seq![hex_char(low)]);
            assert(bytes@.take(i + 1) =~= bytes@.take(i as int).push(byte));
        }
        i += 1;
    }
    assert(bytes@.take(i as int) =~= bytes@);
    text
}

/// The reason given when the engine has no hash of the key.
pub open spec fn no_hash_reason() -> Seq<char> {
    "failed to get public key hash"@
}

/// The reason given when the engine's hash is not as long as every digest
/// of its kind.
pub open spec fn bad_hash_reason() -> Seq<char> {
    "public key hash has an unexpected length"@
}

/// What the engine's answer to a request for a hash means: the digest, if
/// the engine reported success, handed one out, and it has the length of
/// its kind; else a fatal error.
pub open spec fn hash_outcome(hash_type: PublicKeyHashType, res: i32, digest: Option<Vec<u8>>) -> Result<
    Seq<u8>,
    ErrorView,
> {
    match digest {
        Some(bytes) if res == 0 => if bytes@.len() == hash_type.spec_digest_len() {
            Ok(bytes@)
        } else {
            Err(ErrorView::Fatal(bad_hash_reason()))
        },
        _ => Err(ErrorView::Fatal(no_hash_reason())),
    }
}

/// The same in hexadecimal.
pub open spec fn hexa_outcome(hash_type: PublicKeyHashType, res: i32, digest: Option<Vec<u8>>) -> Result<
    Seq<char>,
    ErrorView,
> {
    match hash_outcome(hash_type, res, digest) {
        Ok(bytes) => Ok(hex_text(bytes)),
        Err(e) => Err(e),
    }
}

/// A digest, or the error in its place, by its view.
pub open spec fn digest_view(r: SshResult<Vec<u8>>) -> Result<Seq<u8>, ErrorView> {
    match r {
        Ok(bytes) => Ok(bytes@),
        Err(e) => Err(e@),
    }
}

/// A text, or the error in its place, by its view.
pub open spec fn text_view(r: SshResult<String>) -> Result<Seq<char>, ErrorView> {
    match r {
        Ok(text) => Ok(text@),
        Err(e) => Err(e@),
    }
}

/// The public key that a peer presented. The value stands for the one
/// handle that the engine gave out for the key: it cannot be copied, and
/// the handle is released when the value is given up.
#[derive(Debug)]
pub struct SshKey {
    released: bool,
}

impl SshKey {
    /// The key behind a handle that the engine just gave out.
    pub(crate) fn new() -> (key: SshKey)
        ensures
            !key.is_released(),
    {
        SshKey { released: false }
    }

    /// Whether the engine's handle was released already.
    pub closed spec fn is_released(&self) -> bool {
        self.released
    }

    /// Gives the key up. The result says whether the engine's handle is to
    /// be released now: it is, the first time, and never again.
    pub fn release(&mut self) -> (free: bool)
        ensures
            free == !old(self).is_released(),
            final(self).is_released(),
    {
        let free = !self.released;
        self.released = true;
        free
    }

    /// Takes the engine's answer to a request for a hash of the key: the
    /// status, and the digest where the engine handed one out.
    pub fn get_public_key_hash(
        &self,
        hash_type: PublicKeyHashType,
        res: i32,
        digest: Option<Vec<u8>>,
    ) -> (r: SshResult<Vec<u8>>)
        ensures
            digest_view(r) == hash_outcome(hash_type, res, digest),
    {
        match digest {
            Some(bytes) => {
                if res != 0 {
                    Err(Error::fatal("failed to get public key hash"))
                } else if bytes.len() == hash_type.digest_len() {
                    Ok(bytes)
                } else {
                    Err(Error::fatal("public key hash has an unexpected length"))
                }
            },
            None => Err(Error::fatal("failed to get public key hash")),
        }
    }

    /// Takes the engine's answer to a request for a hash of the key, and
    /// writes the digest in hexadecimal.
    pub fn get_public_key_hash_hexa(
        &self,
        hash_type: PublicKeyHashType,
        res: i32,
        digest: Option<Vec<u8>>,
    ) -> (r: SshResult<String>)
        ensures
            text_view(r) == hexa_outcome(hash_type, res, digest),
    {
        match self.get_public_key_hash(hash_type, res, digest) {
            Ok(bytes) => Ok(hexa(bytes.as_slice())),
            Err(e) => Err(e),
        }
    }
}

/// A hash that is handed out has the length of its kind, and written in
/// hexadecimal it is twice as long, all in digits and the lower-case letters
/// from `a` to `f`.
pub proof fn lemma_hash_lengths(hash_type: PublicKeyHashType, res: i32, digest: Option<Vec<u8>>)
    ensures
        hash_outcome(hash_type, res, digest) matches Ok(bytes) ==> bytes.len()
            == hash_type.spec_digest_len(),
        hexa_outcome(hash_type, res, digest) matches Ok(text) ==> {
            &&& text.len() == 2 * hash_type.spec_digest_len()
            &&& forall|i: int| 0 <= i < text.len() ==> is_lower_hex(#[trigger] text[i])
        },
        hash_type.spec_digest_len() == 20 || hash_type.spec_digest_len() == 16
            || hash_type.spec_digest_len() == 32,
{
    if let Ok(bytes) = hash_outcome(hash_type, res, digest) {
        lemma_hex_text(bytes);
    }
}

/// Bytes written in hexadecimal take two characters each, all of them
/// digits or lower-case letters from `a` to `f`, and the bytes can be read
/// back from them.
pub proof fn lemma_hex_text(bytes: Seq<u8>)
    ensures
        hex_text(bytes).len() == 2 * bytes.len(),
        forall|i: int| 0 <= i < hex_text(bytes).len() ==> is_lower_hex(#[trigger] hex_text(bytes)[i]),
        forall|i: int|
            0 <= i < bytes.len() ==> #[trigger] bytes[i] == hex_value(hex_text(bytes)[2 * i]) * 16
                + hex_value(hex_text(bytes)[2 * i + 1]),
{
    assert forall|i: int| 0 <= i < hex_text(bytes).len() implies is_lower_hex(
        #[trigger] hex_text(bytes)[i],
    ) by {
        let b = bytes[i / 2];
        assert((b >> 4) < 16 && (b & 0x0f) < 16) by (bit_vector);
    }
    assert forall|i: int| 0 <= i < bytes.len() implies #[trigger] bytes[i] == hex_value(
        hex_text(bytes)[2 * i],
    ) * 16 + hex_value(hex_text(bytes)[2 * i + 1]) by {
        let b = bytes[i];
        let high = b >> 4;
        let low = b & 0x0f;
        assert(high < 16 && low < 16 && b == high * 16 + low) by (bit_vector)
            requires
                high == b >> 4,
                low == b & 0x0f,
        ;
        assert(hex_text(bytes)[2 * i] == hex_char(high));
        assert(hex_text(bytes)[2 * i + 1] == hex_char(low));
        assert(hex_value(hex_char(high)) == high);
        assert(hex_value(hex_char(low)) == low);
    }
}

} // verus!
