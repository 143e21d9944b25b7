//! The trusted boundary to the outside crates the pipeline leans on: PDF
//! parsing, fresh identifiers, and the clock. Each item's contract states no
//! more than the crate's own source shows.

use vstd::prelude::*;

verus! {

/// Page count of the PDF document that a byte string parses to, or `None`
/// where the bytes are not a well-formed PDF. A function of the bytes alone:
/// lopdf is built without its default features, so its loader runs
/// single-threaded and merges object streams in a fixed order (with the
/// `rayon` feature, duplicate object ids from parallel workers could make two
/// loads of the same bytes disagree).
pub uninterp spec fn pdf_page_total(bytes: Seq<u8>) -> Option<nat>;

/// Relies on lopdf::Document::load_mem and Document::get_pages: with the
/// sequential loader (no `rayon`, see `pdf_page_total`) parsing a byte string
/// is deterministic, and on success the page count is the number of entries
/// of the document's page tree.
#[verifier::external_body]
pub(crate) fn pdf_page_count(bytes: &Vec<u8>) -> (r: Option<usize>)
    ensures
        r is Some <==> pdf_page_total(bytes@) is Some,
        r matches Some(n) ==> pdf_page_total(bytes@) == Some(n as nat),
{
    match lopdf::Document::load_mem(bytes.as_slice()) {
        Ok(doc) => Some(doc.get_pages().len()),
        Err(_) => None,
    }
}

/// Relies on uuid::Uuid::new_v4 and its display form: a fresh random
/// version-4 UUID, rendered hyphenated, which is always 36 characters. The
/// value itself is random, so nothing more is stated of it.
#[verifier::external_body]
pub(crate) fn fresh_item_id() -> (r: String)
    ensures
        r@.len() == 36,
{
    uuid::Uuid::new_v4().to_string()
}

/// Relies on chrono::Utc::now and DateTime::timestamp: the current time as
/// seconds since the epoch. The value depends on the clock, so nothing is
/// stated of it. Note that chrono aborts when the system clock stands before
/// the Unix epoch; that is an environmental failure, not an input.
#[verifier::external_body]
pub(crate) fn now_timestamp() -> i64 {
    chrono::Utc::now().timestamp()
}

} // verus!
