//! The decoder's trusted boundary: named results for the outside encodings
//! it relies on, and the thin calls that produce them.

use vstd::prelude::*;
use base64::Engine;
use base64::prelude::BASE64_STANDARD;
use sologger_log_context::programs_selector::ProgramsSelector;
use sologger_log_context::sologger_log_context::LogContext;
use crate::logscan::logs_well_formed;

verus! {

/// What standard (padded) base64 decoding yields for a string, when the
/// string is valid base64.
pub uninterp spec fn base64_decoded(s: Seq<char>) -> Option<Seq<u8>>;

/// Relies on base64's `BASE64_STANDARD` engine: decoding succeeds exactly
/// on valid standard base64, and the bytes are a function of the input
/// characters alone.
#[verifier::external_body]
pub(crate) fn base64_decode(s: &str) -> (r: Option<Vec<u8>>)
    ensures
        r is Some <==> base64_decoded(s@) is Some,
        r matches Some(v) ==> Some(v@) == base64_decoded(s@),
{
    match BASE64_STANDARD.decode(s) {
        Ok(v) => Some(v),
        Err(_) => None,
    }
}

/// The base-58 rendering of a byte string.
pub uninterp spec fn base58_of(b: Seq<u8>) -> Seq<char>;

/// Relies on bs58's encoder, the rendering account identities are shown
/// in: the text is a function of the bytes alone.
#[verifier::external_body]
pub(crate) fn base58_string(b: &Vec<u8>) -> (r: String)
    ensures
        r@ == base58_of(b@),
{
    bs58::encode(b.as_slice()).into_string()
}

/// What UTF-8 decoding yields for a byte string, when the bytes are valid
/// UTF-8.
pub uninterp spec fn utf8_decoded(b: Seq<u8>) -> Option<Seq<char>>;

/// Relies on String::from_utf8: it returns Ok exactly on valid UTF-8,
/// and the characters are a function of the bytes alone.
#[verifier::external_body]
pub(crate) fn utf8_string(b: Vec<u8>) -> (r: Option<String>)
    ensures
        r is Some <==> utf8_decoded(b@) is Some,
        r matches Some(s) ==> Some(s@) == utf8_decoded(b@),
{
    String::from_utf8(b).ok()
}

/// One program invocation's slice of a transaction log: the program that
/// ran and the data lines it emitted.
pub struct LogRecord {
    pub program_id: String,
    pub data_logs: Vec<String>,
}

/// The invocation contexts the log parser extracts from a block of log
/// lines, each reduced to the program id and its emitted data lines, in
/// order.
pub uninterp spec fn parsed_log_contexts(logs: Seq<Seq<char>>) -> Seq<(Seq<char>, Seq<Seq<char>>)>;

/// Relies on sologger's `LogContext::parse_logs_basic` with the
/// select-all-programs selector: the contexts are a function of the log
/// lines alone.  The parser indexes its invocation stack as it walks the
/// lines and panics on blocks that break the stack discipline, so only
/// [`logs_well_formed`] blocks may be handed to it.
#[verifier::external_body]
pub(crate) fn parse_log_contexts(logs: &Vec<String>) -> (r: Vec<LogRecord>)
    requires
        logs_well_formed(logs.deep_view()),
    ensures
        r@.len() == parsed_log_contexts(logs.deep_view()).len(),
        forall|i: int| 0 <= i < r@.len() ==> (#[trigger] r@[i]).program_id@
            == parsed_log_contexts(logs.deep_view())[i].0 && r@[i].data_logs.deep_view()
            == parsed_log_contexts(logs.deep_view())[i].1,
{
    let selector = ProgramsSelector::new(&["*".to_string()]);
    let contexts = LogContext::parse_logs_basic(logs, &selector);
    contexts.into_iter().map(
        |c| LogRecord { program_id: c.program_id, data_logs: c.data_logs },
    ).collect()
}

} // verus!
