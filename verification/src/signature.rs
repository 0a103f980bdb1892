//! Method signatures in the host's notation: `I` for a 32-bit integer, `J`
//! for a 64-bit one, `[B` for a byte array, `L<name>;` for an object and `V`
//! for no result.

use vstd::prelude::*;
use vstd::string::StrSliceExecFns;

verus! {

/// Most characters of a signature that is handed to the parser. The parser
/// descends once for every array marker and every nested signature, so a
/// text without end could exhaust the stack.
pub const MAX_SIGNATURE_LEN: usize = 256;

/// The number of arguments that the signature parser of the `jni` crate finds
/// in `signature`, or `None` where it rejects the text.
pub uninterp spec fn signature_arity(signature: Seq<char>) -> Option<nat>;

/// The number of arguments a signature declares: what the parser finds in a
/// text of at most `MAX_SIGNATURE_LEN` characters, and nothing for a longer
/// one.
pub open spec fn declared_arity(signature: Seq<char>) -> Option<nat> {
    if signature.len() <= MAX_SIGNATURE_LEN {
        signature_arity(signature)
    } else {
        None
    }
}

/// The number of arguments a parsed signature declares, as a number of no
/// particular width.
pub open spec fn arity_of(parsed: Option<usize>) -> Option<nat> {
    match parsed {
        Some(n) => Some(n as nat),
        None => None,
    }
}

/// `jni::signature::TypeSignature::from_str`, reduced to the number of
/// arguments it parsed. The parser is a function of the text alone; which
/// texts it accepts and how many arguments it counts is not stated here.
/// Its depth of recursion grows with the text, so only a text of bounded
/// length is handed to it.
#[verifier::external_body]
pub(crate) fn parse_arity(signature: &str) -> (parsed: Option<usize>)
    requires
        signature@.len() <= MAX_SIGNATURE_LEN,
    ensures
        arity_of(parsed) == signature_arity(signature@),
{
    match jni::signature::TypeSignature::from_str(signature) {
        Ok(parsed) => Some(parsed.args.len()),
        Err(_) => None,
    }
}

/// The number of arguments `signature` declares, or `None` where it is no
/// signature or longer than a signature may be.
pub fn parse_declared_arity(signature: &str) -> (parsed: Option<usize>)
    ensures
        arity_of(parsed) == declared_arity(signature@),
{
    if signature.unicode_len() <= MAX_SIGNATURE_LEN {
        parse_arity(signature)
    } else {
        None
    }
}

} // verus!
