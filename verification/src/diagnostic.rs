//! Retrieval of driver diagnostic logs.
//!
//! When a compile or link request fails, the driver reports the length of its
//! log, the caller hands it a same-length buffer pre-filled with spaces, and
//! the driver overwrites some prefix of it, ending the text with a NUL byte.
//! The diagnostic the library returns is the text before the first NUL,
//! decoded leniently to a `String`.

use vstd::prelude::*;

verus! {

/// Index of the first NUL byte, or the length when there is none.
pub open spec fn first_nul(bytes: Seq<u8>) -> int
    decreases bytes.len(),
{
    if bytes.len() == 0 {
        0
    } else if bytes[0] == 0 {
        0
    } else {
        1 + first_nul(bytes.drop_first())
    }
}

/// The bytes before the first NUL: what a driver-written log buffer holds as text.
pub open spec fn terminated_prefix(bytes: Seq<u8>) -> Seq<u8> {
    bytes.take(first_nul(bytes))
}

pub proof fn lemma_first_nul_bounds(bytes: Seq<u8>)
    ensures
        0 <= first_nul(bytes) <= bytes.len(),
        forall|j: int| 0 <= j < first_nul(bytes) ==> bytes[j] != 0,
        first_nul(bytes) < bytes.len() ==> bytes[first_nul(bytes)] == 0,
    decreases bytes.len(),
{
    if bytes.len() > 0 && bytes[0] != 0 {
        lemma_first_nul_bounds(bytes.drop_first());
        assert forall|j: int| 0 <= j < first_nul(bytes) implies bytes[j] != 0 by {
            if j > 0 {
                assert(bytes.drop_first()[j - 1] != 0);
            }
        }
    }
}

/// `first_nul` is the one position with no NUL before it and, unless it is
/// the end, a NUL at it.
pub proof fn lemma_first_nul_is(bytes: Seq<u8>, i: int)
    requires
        0 <= i <= bytes.len(),
        forall|j: int| 0 <= j < i ==> bytes[j] != 0,
        i < bytes.len() ==> bytes[i] == 0,
    ensures
        first_nul(bytes) == i,
    decreases bytes.len(),
{
    if i == 0 {
    } else {
        assert(bytes[0] != 0);
        assert forall|j: int| 0 <= j < i - 1 implies bytes.drop_first()[j] != 0 by {
            assert(bytes[j + 1] != 0);
        }
        lemma_first_nul_is(bytes.drop_first(), i - 1);
    }
}

/// The placeholder buffer handed to the driver before a log is retrieved:
/// `len` space bytes, so that a driver writing fewer bytes than the length it
/// reported still leaves well-formed text behind.
pub fn create_whitespace_buffer_with_len(len: usize) -> (buf: Vec<u8>)
    ensures
        buf@.len() == len,
        forall|i: int| 0 <= i < len ==> buf@[i] == 32u8,
{
    let mut buf: Vec<u8> = Vec::new();
    let mut i: usize = 0;
    while i < len
        invariant
            i <= len,
            buf@.len() == i,
            forall|j: int| 0 <= j < i ==> buf@[j] == 32u8,
        decreases len - i,
    {
        buf.push(32u8);
        i = i + 1;
    }
    buf
}

/// What the lenient UTF-8 decoding of a byte string is. The decoding is a
/// function of the bytes alone; the facts the library needs about it stand on
/// the trusted function below.
pub uninterp spec fn lossy_decoded(bytes: Seq<u8>) -> Seq<char>;

/// Relies on `String::from_utf8_lossy`: its result depends on the bytes
/// alone; valid UTF-8 decodes unchanged; invalid sequences are replaced, not
/// dropped, so the result is empty exactly when the input is.
#[verifier::external_body]
fn lossy_string(bytes: &Vec<u8>) -> (r: String)
    ensures
        r@ == lossy_decoded(bytes@),
        vstd::utf8::valid_utf8(bytes@) ==> r@ == vstd::utf8::decode_utf8(bytes@),
        (r@.len() == 0) == (bytes@.len() == 0),
{
    String::from_utf8_lossy(bytes.as_slice()).into_owned()
}

/// The diagnostic text carried by a driver log buffer: the bytes before the
/// first NUL, decoded leniently.
pub open spec fn diagnostic_of(log: Seq<u8>) -> Seq<char> {
    lossy_decoded(terminated_prefix(log))
}

/// Turn a driver-filled log buffer into the diagnostic string returned to
/// callers. The diagnostic is non-empty exactly when the driver wrote any
/// text before the terminator.
pub fn diagnostic_from_log(log: &Vec<u8>) -> (d: String)
    ensures
        d@ == diagnostic_of(log@),
        (d@.len() == 0) == (terminated_prefix(log@).len() == 0),
{
    let n = log.len();
    let mut text: Vec<u8> = Vec::new();
    let mut i: usize = 0;
    while i < n && *log.get(i).unwrap() != 0
        invariant
            n == log@.len(),
            i <= n,
            text@ == log@.take(i as int),
            forall|j: int| 0 <= j < i ==> log@[j] != 0,
        decreases n - i,
    {
        text.push(*log.get(i).unwrap());
        assert(text@ == log@.take(i + 1));
        i = i + 1;
    }
    proof {
        lemma_first_nul_is(log@, i as int);
        lemma_first_nul_bounds(log@);
    }
    lossy_string(&text)
}

} // verus!
