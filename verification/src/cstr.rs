//! Strings on their way to and from C.

use vstd::prelude::*;
use vstd::string::*;

use crate::text::{decimal, decimal_string};

verus! {

/// The UTF-8 bytes of `s`, as `str::as_bytes` gives them.
pub open spec fn utf8_bytes(s: &str) -> Seq<u8> {
    s.spec_bytes()
}

/// `bytes` holds no nul byte, so C can read them as one string.
pub open spec fn nul_free(bytes: Seq<u8>) -> bool {
    forall|i: int| 0 <= i < bytes.len() ==> bytes[i] != 0u8
}

/// The message of a `NulError` at position `pos`.
pub open spec fn nul_error_message(pos: nat) -> Seq<char> {
    "nul byte found in provided data at position: "@ + decimal(pos)
}

/// A string could not be handed to C because it holds a nul byte.
#[derive(Clone, Debug, PartialEq, Eq)]
pub struct NulError {
    /// The index of the first nul byte.
    pub position: usize,
    /// All the bytes of the string.
    pub bytes: Vec<u8>,
}

impl NulError {
    /// The index of the first nul byte in the string.
    pub fn nul_position(&self) -> (pos: usize)
        ensures
            pos == self.position,
    {
        self.position
    }

    /// The bytes of the string that held the nul byte.
    pub fn into_vec(self) -> (bytes: Vec<u8>)
        ensures
            bytes@ == self.bytes@,
    {
        self.bytes
    }

    /// The message that `NulError`'s `Display` writes.
    pub fn to_string(&self) -> (msg: String)
        ensures
            msg@ == nul_error_message(self.position as nat),
    {
        proof {
            reveal_strlit("nul byte found in provided data at position: ");
        }
        let head = String::from_str("nul byte found in provided data at position: ");
        let pos = decimal_string(self.position);
        head.concat(pos.as_str())
    }
}

/// The nul-terminated bytes that C reads as string `s`, as `CString::new`
/// builds them; a nul byte inside `s` is an error that names the first one.
pub fn to_c_string(s: &str) -> (r: Result<Vec<u8>, NulError>)
    ensures
        r is Ok <==> nul_free(utf8_bytes(s)),
        match r {
            Ok(c) => c@ == utf8_bytes(s).push(0u8),
            Err(e) => {
                &&& e.bytes@ == utf8_bytes(s)
                &&& e.position < utf8_bytes(s).len()
                &&& utf8_bytes(s)[e.position as int] == 0u8
                &&& nul_free(utf8_bytes(s).take(e.position as int))
            },
        },
{
    let bytes = s.as_bytes();
    let mut i: usize = 0;
    while i < bytes.len()
        invariant
            bytes@ == utf8_bytes(s),
            i <= bytes.len(),
            nul_free(bytes@.take(i as int)),
        decreases bytes.len() - i,
    {
        if bytes[i] == 0u8 {
            return Err(NulError { position: i, bytes: vstd::slice::slice_to_vec(bytes) });
        }
        assert(bytes@.take(i + 1) == bytes@.take(i as int).push(bytes@[i as int]));
        i = i + 1;
    }
    assert(bytes@.take(i as int) == bytes@);
    let mut c = vstd::slice::slice_to_vec(bytes);
    c.push(0u8);
    Ok(c)
}

/// The text of a C string that may be absent: the string itself, or the
/// empty string where the pointer was null.
pub fn c_str_to_string(c_str: Option<String>) -> (s: String)
    ensures
        s@ == match c_str {
            Some(t) => t@,
            None => Seq::<char>::empty(),
        },
{
    match c_str {
        Some(t) => t,
        None => String::new(),
    }
}

/// The text of a C string that may be absent: the string itself, or SDL's
/// error message where the pointer was null.
pub fn c_str_to_string_or_err(c_str: Option<String>, error: String) -> (r: Result<String, String>)
    ensures
        r == match c_str {
            Some(t) => Ok::<String, String>(t),
            None => Err(error),
        },
{
    match c_str {
        Some(t) => Ok(t),
        None => Err(error),
    }
}

/// The string that C reads from `bytes`: the bytes before the first nul.
pub open spec fn c_read(bytes: Seq<u8>) -> Seq<u8>
    decreases bytes.len(),
{
    if bytes.len() == 0 || bytes[0] == 0u8 {
        Seq::empty()
    } else {
        seq![bytes[0]] + c_read(bytes.drop_first())
    }
}

/// C reads back exactly the string whose bytes were handed to it: for
/// bytes without a nul, followed by the terminator that `to_c_string`
/// appends, C's string is those bytes.
pub proof fn lemma_c_string_reads_back(bytes: Seq<u8>)
    requires
        nul_free(bytes),
    ensures
        c_read(bytes.push(0u8)) == bytes,
    decreases bytes.len(),
{
    if bytes.len() > 0 {
        assert(bytes.push(0u8).drop_first() == bytes.drop_first().push(0u8));
        lemma_c_string_reads_back(bytes.drop_first());
        assert(seq![bytes[0]] + bytes.drop_first() == bytes);
    }
}

} // verus!
