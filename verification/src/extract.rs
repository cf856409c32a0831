//! Title extraction: a markup document is handed to the selector engine,
//! and the attribute values it yields are validated into records. The
//! selector query itself is the one outside call of this module; everything
//! after it is verified against the name given to its result.
use vstd::prelude::*;
use crate::record::{kept_titles, partition_titles, rejected_titles, titles_of, Extraction};

verus! {

/// The attribute values of the elements matching `selector` in the document
/// `html`, in document order, skipping elements without the attribute. A
/// function of the three arguments alone; an unparsable selector matches
/// nothing.
pub uninterp spec fn attr_values_of(html: Seq<char>, selector: Seq<char>, attr: Seq<char>) -> Seq<
    Seq<char>,
>;

/// Relies on scraper's `Html::parse_document`, `Selector::parse`,
/// `Html::select` and `ElementRef::attr`: parsing and selection read only
/// the three arguments, matched elements come in document order, and
/// elements whose attribute is absent are skipped.
#[verifier::external_body]
fn select_attr_values(html: &str, selector: &str, attr: &str) -> (values: Vec<String>)
    ensures
        values.deep_view() == attr_values_of(html@, selector@, attr@),
{
    let document = scraper::Html::parse_document(html);
    let parsed = match scraper::Selector::parse(selector) {
        Ok(parsed) => parsed,
        Err(_) => return Vec::new(),
    };
    document
        .select(&parsed)
        .filter_map(|element| element.attr(attr).map(|value| value.to_string()))
        .collect()
}

/// The raw titles of a document: the `title` attributes of its
/// heading-wrapped anchor elements, in document order.
pub open spec fn raw_titles_of(html: Seq<char>) -> Seq<Seq<char>> {
    attr_values_of(html, "h3 a"@, "title"@)
}

/// Extracts the catalogue entries of a markup document: runs the fixed
/// `h3 a` selector query, reads each matched element's `title` attribute,
/// and keeps the titles with more than `min_len` characters as records,
/// in document order. A document matching nothing yields an empty
/// extraction; the result is a function of the two arguments alone.
pub fn extract_titles(html: &str, min_len: usize) -> (out: Extraction)
    ensures
        titles_of(out.kept@) == kept_titles(raw_titles_of(html@), min_len as nat),
        out.rejected.deep_view() == rejected_titles(raw_titles_of(html@), min_len as nat),
{
    let values = select_attr_values(html, "h3 a", "title");
    partition_titles(&values, min_len)
}

/// Extraction is a pure function of the document and the threshold: two
/// runs over the same markup body keep the same titles and reject the same
/// titles, which is what `extract_titles` ensures of every call.
pub proof fn lemma_extraction_idempotent(
    html: Seq<char>,
    min_len: nat,
    first_kept: Seq<Seq<char>>,
    second_kept: Seq<Seq<char>>,
    first_rejected: Seq<Seq<char>>,
    second_rejected: Seq<Seq<char>>,
)
    requires
        first_kept == kept_titles(raw_titles_of(html), min_len),
        second_kept == kept_titles(raw_titles_of(html), min_len),
        first_rejected == rejected_titles(raw_titles_of(html), min_len),
        second_rejected == rejected_titles(raw_titles_of(html), min_len),
    ensures
        first_kept == second_kept,
        first_rejected == second_rejected,
{
}

/// What one page's fetch came to: a body to extract from, or a transport
/// failure that leaves the page without records.
pub enum PageOutcome {
    /// The fetch succeeded with this document body.
    Body(String),
    /// The fetch failed; the message describes the transport error.
    TransportError(String),
}

/// The records one page contributes: its extraction when the fetch
/// succeeded, nothing at all when it failed. A failed page never stops the
/// run; it only contributes an empty extraction.
pub fn page_records(outcome: &PageOutcome, min_len: usize) -> (out: Extraction)
    ensures
        match outcome {
            PageOutcome::Body(body) => {
                &&& titles_of(out.kept@) == kept_titles(raw_titles_of(body@), min_len as nat)
                &&& out.rejected.deep_view() == rejected_titles(
                    raw_titles_of(body@),
                    min_len as nat,
                )
            },
            PageOutcome::TransportError(_) => {
                &&& out.kept@ == Seq::<crate::record::Record>::empty()
                &&& out.rejected@ == Seq::<String>::empty()
            },
        },
{
    match outcome {
        PageOutcome::Body(body) => extract_titles(body.as_str(), min_len),
        PageOutcome::TransportError(_) => Extraction::empty(),
    }
}

} // verus!
