//! Byte-pattern scanning over a module's code bytes.
//!
//! The pattern language ("fe 00 ? 98": hex bytes and `?` wildcards) and the
//! search are the pattern-scanning crate's; the search result is a function
//! of the bytes and the pattern alone, named here as [`first_match_of`], and
//! the scanner's acceptance of a pattern is a function of the pattern alone,
//! named as [`pattern_wf`]. The address arithmetic on a hit is verified.

use vstd::prelude::*;

verus! {

/// A scan failure: the pattern was not a sequence of hex byte values and
/// `?` wildcards, or had more tokens than the scanner accepts.
#[derive(Debug, Clone, Copy, PartialEq, Eq, Structural)]
pub struct ScanError {}

/// The index of the first match of `pattern` in `bytes`, as the
/// pattern-scanning crate finds it: a function of the two alone. Near the
/// end of the data the scanner may report a match that starts past the last
/// byte (see the bound on the wrapper below); the hit arithmetic accounts
/// for that.
pub uninterp spec fn first_match_of(bytes: Seq<u8>, pattern: Seq<char>) -> Option<usize>;

/// The scanner accepts `pattern`: every whitespace-separated token is a `?`
/// wildcard or a hex byte value, and there are few enough tokens for the
/// scanner's buffer. A function of the pattern alone.
pub uninterp spec fn pattern_wf(pattern: Seq<char>) -> bool;

/// Relies on patternscan::scan_first_match over an in-memory cursor, whose
/// reads never fail, so the call errs exactly when patternscan's
/// Pattern::from_str rejects the pattern string or the token count is over
/// the scanner's cap of 1024. A reported match index is within the byte
/// string, except that the chunked buffer lets a match start up to the
/// pattern's token count — so at most 1024 — past the end of the data.
#[verifier::external_body]
fn scan_first_match(bytes: &[u8], pattern: &str) -> (r: Result<Option<usize>, ScanError>)
    ensures
        r is Err <==> !pattern_wf(pattern@),
        r matches Ok(m) ==> m == first_match_of(bytes@, pattern@),
        r matches Ok(Some(i)) ==> i <= bytes@.len() + 1024,
{
    match patternscan::scan_first_match(std::io::Cursor::new(bytes), pattern) {
        Ok(m) => Ok(m),
        Err(_) => Err(ScanError {}),
    }
}

/// Scan a module's code bytes for `pattern`. A hit is reported as an
/// address: the code section's base address, plus the match index, plus the
/// caller's `offset`. The scan fails exactly when the pattern is one the
/// scanner rejects. The caller keeps `base + bytes.len() + offset`, with
/// room for the scanner's end-of-data slack, inside the address space, as
/// the address of a location in a mapped code section always is.
pub fn scan(bytes: &[u8], base: usize, pattern: &str, offset: usize) -> (r: Result<
    Option<usize>,
    ScanError,
>)
    requires
        base + bytes@.len() + offset + 1024 <= usize::MAX,
    ensures
        r is Err <==> !pattern_wf(pattern@),
        r matches Ok(m) ==> m == (match first_match_of(bytes@, pattern@) {
            Some(i) => Some((base + i + offset) as usize),
            None => None::<usize>,
        }),
        r is Err ==> r == Err::<Option<usize>, ScanError>(ScanError {}),
{
    match scan_first_match(bytes, pattern) {
        Ok(Some(i)) => Ok(Some(base + i + offset)),
        Ok(None) => Ok(None),
        Err(e) => Err(e),
    }
}

} // verus!
