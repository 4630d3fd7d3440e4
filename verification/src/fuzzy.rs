//! Fuzzy hashing of page sources with ssdeep (the `ffuzzy` implementation,
//! whose library is named `ssdeep`).
use vstd::prelude::*;

verus! {

/// The largest input, in bytes, that ssdeep accepts (192 GiB).
pub const MAX_FUZZY_INPUT: u64 = 206158430208;

/// The UTF-8 bytes of a text.
pub open spec fn utf8_bytes(text: Seq<char>) -> Seq<u8> {
    vstd::utf8::encode_utf8(text)
}

/// The printed ssdeep hash that `ssdeep::hash_buf` computes for a buffer.
pub uninterp spec fn ssdeep_hash(buffer: Seq<u8>) -> Seq<char>;

/// The similarity score (0 to 100) that `ssdeep::compare` gives two printed
/// hashes, or `None` where one of them does not parse as a fuzzy hash.
pub uninterp spec fn ssdeep_score(lhs: Seq<char>, rhs: Seq<char>) -> Option<u32>;

#[verifier::external_type_specification]
#[verifier::external_body]
pub struct ExParseErrorEither(ssdeep::ParseErrorEither);

/// Calls `ssdeep::hash_buf` and prints the hash with `to_string`.
/// Trusted: the result is the named hash of the buffer, and comparing that
/// printed hash with itself scores 100 (the generator prints a valid hash,
/// and `compare` returns 100 for equal hashes). `hash_buf` fails only on
/// inputs above `MAX_FUZZY_INPUT`, which `requires` rules out.
#[verifier::external_body]
pub(crate) fn fuzzy_hash(buffer: &[u8]) -> (hash: String)
    requires
        buffer@.len() <= MAX_FUZZY_INPUT,
    ensures
        hash@ == ssdeep_hash(buffer@),
        ssdeep_score(hash@, hash@) == Some(100u32),
{
    ssdeep::hash_buf(buffer).unwrap().to_string()
}

/// Calls `ssdeep::compare`. Trusted: it succeeds exactly where the named
/// score exists, returns that score, and the score is at most 100 (as the
/// crate documents); a hash compared with itself scores 100 (both sides
/// parse to equal hashes, for which `compare` returns 100).
#[verifier::external_body]
pub(crate) fn fuzzy_compare(lhs: &str, rhs: &str) -> (score: Result<u32, ssdeep::ParseErrorEither>)
    ensures
        match score {
            Ok(s) => ssdeep_score(lhs@, rhs@) == Some(s) && s <= 100,
            Err(_) => ssdeep_score(lhs@, rhs@) is None,
        },
        lhs@ == rhs@ && score is Ok ==> score->Ok_0 == 100,
{
    ssdeep::compare(lhs, rhs)
}

} // verus!
