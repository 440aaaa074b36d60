//! Text that crosses the native boundary: NUL-terminated byte buffers.

use vstd::prelude::*;
use vstd::string::StringSliceAdditionalSpecFns;
use vstd::utf8::{decode_utf8, valid_utf8};

verus! {

/// Whether `at` is where the first NUL byte of `bytes` stands.
pub open spec fn is_first_nul(bytes: Seq<u8>, at: int) -> bool {
    &&& 0 <= at < bytes.len()
    &&& bytes[at] == 0u8
    &&& forall|j: int| 0 <= j < at ==> bytes[j] != 0u8
}

/// Where the first NUL byte of `bytes` stands, if there is one.
pub open spec fn first_nul(bytes: Seq<u8>) -> Option<int> {
    if exists|i: int| is_first_nul(bytes, i) {
        Some(choose|i: int| is_first_nul(bytes, i))
    } else {
        None
    }
}

/// The text that a buffer holds as a C string: the bytes before the first
/// NUL, decoded as UTF-8. `None` if the buffer has no NUL or those bytes are
/// not UTF-8.
pub open spec fn c_text(bytes: Seq<u8>) -> Option<Seq<char>> {
    match first_nul(bytes) {
        Some(at) => if valid_utf8(bytes.take(at)) {
            Some(decode_utf8(bytes.take(at)))
        } else {
            None
        },
        None => None,
    }
}

/// There is one first NUL at most, so a position that is the first NUL is
/// the one that [`first_nul`] names.
pub proof fn lemma_first_nul_is_unique(bytes: Seq<u8>, at: int)
    requires
        is_first_nul(bytes, at),
    ensures
        first_nul(bytes) == Some(at),
{
    let chosen = choose|i: int| is_first_nul(bytes, i);
    if chosen < at {
        assert(bytes[chosen] != 0u8);
    }
    if at < chosen {
        assert(bytes[at] != 0u8);
    }
}

/// Where the first NUL byte of `buffer` stands, if there is one.
pub fn find_nul(buffer: &[u8]) -> (at: Option<usize>)
    ensures
        at is Some ==> is_first_nul(buffer@, at->Some_0 as int),
        at is None ==> forall|i: int| 0 <= i < buffer@.len() ==> buffer@[i] != 0u8,
        match at {
            Some(i) => first_nul(buffer@) == Some(i as int),
            None => first_nul(buffer@) is None,
        },
{
    let mut i: usize = 0;
    while i < buffer.len()
        invariant
            i <= buffer@.len(),
            forall|j: int| 0 <= j < i ==> buffer@[j] != 0u8,
        decreases buffer@.len() - i,
    {
        if buffer[i] == 0 {
            proof {
                lemma_first_nul_is_unique(buffer@, i as int);
            }
            return Some(i);
        }
        i += 1;
    }
    None
}

/// Whether `text` holds a NUL, which no C string can carry.
pub fn contains_nul(text: &str) -> (found: bool)
    ensures
        found == exists|i: int| 0 <= i < text.spec_bytes().len() && text.spec_bytes()[i] == 0u8,
{
    find_nul(text.as_bytes()).is_some()
}

/// `String::from_utf8` of std, with its error dropped. The bytes become a
/// string exactly when they are valid UTF-8, and the string is then what
/// they decode to.
#[verifier::external_body]
fn string_from_utf8(bytes: Vec<u8>) -> (text: Option<String>)
    ensures
        text is Some <==> valid_utf8(bytes@),
        text is Some ==> text->Some_0@ == decode_utf8(bytes@),
{
    String::from_utf8(bytes).ok()
}

/// The text that `buffer` holds as a C string: the bytes before the first
/// NUL, as UTF-8. `None` if there is no NUL in the buffer or the bytes
/// before it are not UTF-8.
pub fn decode_c_buffer(buffer: &[u8]) -> (text: Option<String>)
    ensures
        text is Some <==> c_text(buffer@) is Some,
        text is Some ==> text->Some_0@ == c_text(buffer@)->Some_0,
{
    match find_nul(buffer) {
        None => None,
        Some(at) => {
            let mut prefix: Vec<u8> = Vec::new();
            let mut i: usize = 0;
            while i < at
                invariant
                    i <= at,
                    at < buffer@.len(),
                    prefix@ == buffer@.take(i as int),
                decreases at - i,
            {
                prefix.push(buffer[i]);
                assert(buffer@.take(i as int).push(buffer@[i as int]) =~= buffer@.take(i + 1));
                i += 1;
            }
            string_from_utf8(prefix)
        },
    }
}

} // verus!
