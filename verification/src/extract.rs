use vstd::prelude::*;
use crate::errors::ErpError;

verus! {

/// Whether a structural selector string is well formed (parses as a CSS
/// selector group). A malformed selector is a configuration bug, not a
/// runtime condition.
pub uninterp spec fn selector_is_valid(selector: Seq<char>) -> bool;

/// The value of attribute `attribute` on the first element of the document
/// `document` that matches the well-formed selector `selector`; `None` when no
/// element matches or the matching element lacks the attribute. The result is
/// a function of the three strings alone.
pub uninterp spec fn extracted_attr(
    document: Seq<char>,
    selector: Seq<char>,
    attribute: Seq<char>,
) -> Option<Seq<char>>;

/// Relies on scraper: `Selector::parse` accepts exactly the well-formed CSS
/// selector groups; `Html::parse_document` parses any input without failing;
/// `Html::select` yields the matching elements in document order and
/// `ElementRef::attr` reads one attribute. The outcome depends on the three
/// argument strings alone.
#[verifier::external_body]
fn extract_attr_raw(document: &str, selector: &str, attribute: &str) -> (r: Result<
    Option<String>,
    (),
>)
    ensures
        r is Ok <==> selector_is_valid(selector@),
        r matches Ok(v) ==> v.deep_view() == extracted_attr(document@, selector@, attribute@),
{
    let parsed_selector = match scraper::Selector::parse(selector) {
        Ok(s) => s,
        Err(_) => return Err(()),
    };
    let parsed_document = scraper::Html::parse_document(document);
    match parsed_document.select(&parsed_selector).next() {
        Some(element) => Ok(element.attr(attribute).map(|value| value.to_owned())),
        None => Ok(None),
    }
}

/// Parses `document` as markup, selects the first element matching
/// `selector`, and returns the value of its attribute `attribute`.
///
/// Absence — no matching element, or a matching element without the
/// attribute — is a normal result, never an error. The only failure is a
/// malformed selector.
pub fn extract(document: &str, selector: &str, attribute: &str) -> (r: Result<
    Option<String>,
    ErpError,
>)
    ensures
        r is Ok <==> selector_is_valid(selector@),
        r matches Ok(v) ==> v.deep_view() == extracted_attr(document@, selector@, attribute@),
        r matches Err(e) ==> e == ErpError::Parse,
{
    match extract_attr_raw(document, selector, attribute) {
        Ok(value) => Ok(value),
        Err(()) => Err(ErpError::Parse),
    }
}

} // verus!
