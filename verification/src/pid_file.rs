//! The PID file: what it holds, how its content is read back, and where it
//! lies.
//!
//! The file is the only durable record of the managed process. It holds the
//! decimal text of a process identifier and nothing else; white space
//! around the number is tolerated on reading.

use crate::decimal::{
    all_digits, decimal, is_digit, lemma_decimal_denotes, lemma_parse_decimal, parse_i32_range,
    parsed_i32, u32_to_decimal, IntegerFault,
};
use crate::error::{result_view, ErrorView, ServerManagerError};
use crate::text::{is_whitespace, to_chars, trim, trim_bounds, trim_end, trim_start};
use vstd::prelude::*;

verus! {

/// What the PID file of the process `pid` holds.
pub open spec fn encoded(pid: u32) -> Seq<char> {
    decimal(pid as nat)
}

/// What reading a PID file with the given content gives: the identifier
/// that the content denotes once the white space around it is removed, or
/// the reason why it denotes none.
pub open spec fn decoded(content: Seq<char>) -> Result<i32, ErrorView> {
    match parsed_i32(trim(content)) {
        Ok(pid) => Ok(pid),
        Err(fault) => Err(ServerManagerError::Malformed { content, fault }),
    }
}

/// The content of the PID file of the process `pid`.
pub fn encode(pid: u32) -> (content: String)
    ensures
        content@ == encoded(pid),
{
    u32_to_decimal(pid)
}

/// Reads the content of a PID file.
pub fn decode(content: &str) -> (result: Result<i32, ServerManagerError>)
    ensures
        result_view(result) == decoded(content@),
{
    let chars = to_chars(content);
    let (start, end) = trim_bounds(&chars);
    match parse_i32_range(&chars, start, end) {
        Ok(pid) => Ok(pid),
        Err(fault) => Err(ServerManagerError::Malformed { content: content.to_owned(), fault }),
    }
}

/// The directory that holds the file at `path`, if the path names one.
///
/// This is `std::path::Path::parent`, taken on trust: of its result only
/// what the standard library documents for every platform is stated, that
/// the empty path has no parent.
#[verifier::external_body]
pub(crate) fn parent_directory(path: &str) -> (parent: Option<String>)
    ensures
        path@.len() == 0 ==> parent is None,
{
    let parent = std::path::Path::new(path).parent()?;
    Some(parent.to_string_lossy().into_owned())
}

/// Trimming leaves a text alone that begins and ends with a digit.
pub proof fn lemma_trim_keeps_digits(s: Seq<char>)
    requires
        s.len() > 0,
        is_digit(s[0]),
        is_digit(s.last()),
    ensures
        trim(s) == s,
{
    assert(!is_whitespace(s[0]));
    assert(!is_whitespace(s.last()));
    assert(trim_start(s) == s);
    assert(trim_end(s) == s);
}

/// The round trip: reading what was written for `pid` gives `pid` back,
/// for every identifier that a signed 32-bit integer can hold.
pub proof fn law_round_trip(pid: u32)
    requires
        pid <= i32::MAX,
    ensures
        decoded(encoded(pid)) == Ok::<i32, ErrorView>(pid as i32),
{
    lemma_decimal_denotes(pid as nat);
    lemma_trim_keeps_digits(encoded(pid));
    lemma_parse_decimal(pid as nat);
}

/// An identifier beyond the signed 32-bit range is written in full and
/// refused on reading as too large.
pub proof fn law_round_trip_out_of_range(pid: u32)
    requires
        pid > i32::MAX,
    ensures
        decoded(encoded(pid)) == Err::<i32, ErrorView>(
            ServerManagerError::Malformed {
                content: encoded(pid),
                fault: IntegerFault::PosOverflow,
            },
        ),
{
    lemma_decimal_denotes(pid as nat);
    lemma_trim_keeps_digits(encoded(pid));
    lemma_parse_decimal(pid as nat);
}

/// Whether `s` could be the decimal text of an integer: an optional sign
/// followed by digits only.
pub open spec fn is_numeric(s: Seq<char>) -> bool {
    s.len() > 0 && if s[0] == '-' || s[0] == '+' {
        all_digits(s.skip(1))
    } else {
        all_digits(s)
    }
}

/// Content that is not numeric once trimmed is malformed, whatever else
/// it holds.
pub proof fn law_non_numeric_is_malformed(content: Seq<char>)
    requires
        !is_numeric(trim(content)),
    ensures
        decoded(content) matches Err(ServerManagerError::Malformed { content: c, fault })
            && c == content,
{
}

} // verus!
