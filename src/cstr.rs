//! Rules for text handed to and received from the native engine as NUL-terminated strings.

use vstd::prelude::*;
use vstd::string::StringSliceAdditionalSpecFns;
use vstd::utf8::{decode_utf8, valid_utf8};

use crate::error::ModSecurityError;

verus! {

/// `b` holds no NUL byte before index `n`.
pub open spec fn nul_free_before(b: Seq<u8>, n: int) -> bool {
    forall|k: int| 0 <= k < n ==> b[k] != 0u8
}

/// `b` holds no NUL byte at all, so it can be passed on as a C string.
pub open spec fn nul_free(b: Seq<u8>) -> bool {
    nul_free_before(b, b.len() as int)
}

/// `i` is the index of the first NUL byte of `b`.
pub open spec fn is_first_nul(b: Seq<u8>, i: int) -> bool {
    0 <= i < b.len() && b[i] == 0u8 && nul_free_before(b, i)
}

/// The index of the first NUL byte of `b`, where `b` holds one.
pub open spec fn first_nul(b: Seq<u8>) -> int {
    choose|i: int| is_first_nul(b, i)
}

/// What checking `b` for use as a C string gives: success, or the position of its first NUL.
pub open spec fn text_check(b: Seq<u8>) -> Result<(), ModSecurityError> {
    if nul_free(b) {
        Ok(())
    } else {
        Err(ModSecurityError::Nul(first_nul(b) as usize))
    }
}

/// Checks a list of arguments in order: the first that holds a NUL decides the error.
pub open spec fn texts_check(args: Seq<Seq<u8>>) -> Result<(), ModSecurityError>
    decreases args.len(),
{
    if args.len() == 0 {
        Ok(())
    } else if text_check(args[0]) is Err {
        text_check(args[0])
    } else {
        texts_check(args.drop_first())
    }
}

/// Checking two arguments in order: the first one's error, else the second one's check.
pub proof fn lemma_texts_check_two(a: Seq<u8>, b: Seq<u8>)
    ensures
        texts_check(seq![a, b]) == (if text_check(a) is Err {
            text_check(a)
        } else {
            text_check(b)
        }),
{
    reveal_with_fuel(texts_check, 3);
    assert(seq![a, b].drop_first() =~= seq![b]);
    assert(seq![b].drop_first() =~= Seq::<Seq<u8>>::empty());
}

/// Checking three arguments in order: the first error decides.
pub proof fn lemma_texts_check_three(a: Seq<u8>, b: Seq<u8>, c: Seq<u8>)
    ensures
        texts_check(seq![a, b, c]) == (if text_check(a) is Err {
            text_check(a)
        } else {
            texts_check(seq![b, c])
        }),
{
    reveal_with_fuel(texts_check, 2);
    assert(seq![a, b, c].drop_first() =~= seq![b, c]);
}

/// A byte sequence has at most one first NUL byte.
pub proof fn lemma_first_nul_unique(b: Seq<u8>, i: int)
    requires
        is_first_nul(b, i),
    ensures
        first_nul(b) == i,
        !nul_free(b),
{
    let j = first_nul(b);
    assert(is_first_nul(b, j));
    if j < i {
        assert(b[j] != 0u8);
    } else if i < j {
        assert(b[i] != 0u8);
    }
}

/// Finds the first NUL byte of `b`.
pub fn find_nul(b: &[u8]) -> (r: Option<usize>)
    ensures
        r matches Some(i) ==> is_first_nul(b@, i as int),
        r is None ==> nul_free(b@),
{
    let mut i: usize = 0;
    while i < b.len()
        invariant
            i <= b@.len(),
            nul_free_before(b@, i as int),
        decreases b@.len() - i,
    {
        if b[i] == 0 {
            return Some(i);
        }
        i = i + 1;
    }
    None
}

/// Checks that `s` can be handed to the engine as a C string.
pub fn check_text(s: &str) -> (r: Result<(), ModSecurityError>)
    ensures
        r == text_check(s.spec_bytes()),
{
    match find_nul(s.as_bytes()) {
        Some(i) => {
            proof {
                lemma_first_nul_unique(s.spec_bytes(), i as int);
            }
            Err(ModSecurityError::Nul(i))
        },
        None => Ok(()),
    }
}

/// The text that bytes received from the engine stand for, where they are valid UTF-8.
pub open spec fn utf8_text_of(b: Seq<u8>) -> Option<Seq<char>> {
    if valid_utf8(b) {
        Some(decode_utf8(b))
    } else {
        None
    }
}

/// Relies on `std::str::from_utf8`: it accepts exactly the valid UTF-8 sequences
/// and then yields the characters they encode.
#[verifier::external_body]
pub(crate) fn utf8_text(b: &[u8]) -> (r: Option<String>)
    ensures
        r is Some <==> valid_utf8(b@),
        r matches Some(s) ==> s@ == decode_utf8(b@),
{
    std::str::from_utf8(b).ok().map(|s| s.to_string())
}

/// Decodes bytes received from the engine, if they are valid UTF-8.
pub fn decode_text(b: Option<Vec<u8>>) -> (r: Option<String>)
    ensures
        b is None ==> r is None,
        b matches Some(v) ==> (r is Some <==> valid_utf8(v@)),
        b matches Some(v) ==> (r matches Some(s) ==> Some(s@) == utf8_text_of(v@)),
{
    match b {
        Some(v) => utf8_text(v.as_slice()),
        None => None,
    }
}

/// The text that `String::from_utf8_lossy` makes of `b`.
pub uninterp spec fn lossy_utf8(b: Seq<u8>) -> Seq<char>;

/// Relies on `String::from_utf8_lossy`: a function of the bytes alone, which
/// leaves valid UTF-8 as the text it encodes.
#[verifier::external_body]
pub(crate) fn lossy_text(b: &[u8]) -> (r: String)
    ensures
        r@ == lossy_utf8(b@),
        valid_utf8(b@) ==> r@ == decode_utf8(b@),
{
    String::from_utf8_lossy(b).into_owned()
}

} // verus!
