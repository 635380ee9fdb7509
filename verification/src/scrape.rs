use vstd::prelude::*;
use crate::extract::{get_center_id, spec_center_id};

verus! {

/// Whether a CSS selector string is accepted by the HTML engine.
pub uninterp spec fn selector_ok(selector: Seq<char>) -> bool;

/// The `id` attributes of the elements matching a selector in a parsed HTML
/// document, in document order; `None` where a matched element has no `id`.
pub uninterp spec fn matched_ids(html: Seq<char>, selector: Seq<char>) -> Seq<Option<Seq<char>>>;

/// The concatenated text content of the elements matching a selector in a
/// parsed HTML document, in document order.
pub uninterp spec fn matched_texts(html: Seq<char>, selector: Seq<char>) -> Seq<Seq<char>>;

/// The view of one extracted attribute value.
pub open spec fn attr_view(attr: Option<String>) -> Option<Seq<char>> {
    match attr {
        Some(s) => Some(s@),
        None => None,
    }
}

/// An HTML page could not be read as a search result list.
#[derive(PartialEq, Eq, Structural, Clone, Copy, Debug)]
pub enum ParseError {
    /// The selector matched no element on the page.
    NoMatches,
    /// A matched result element carries no `id` attribute.
    MissingId,
    /// The HTML engine refused the result selector.
    InvalidSelector,
}

/// One search result element: the opaque center identifier taken from its
/// `id` attribute, and its concatenated text content.
pub struct ResultElement {
    pub center_id: String,
    pub text: String,
}

/// Relies on scraper's `Selector::parse`, `Html::parse_document`,
/// `Html::select`, `Element::id` and `ElementRef::text`: parses `html` as a
/// document and hands back, for each element matching `selector` in document
/// order, its `id` attribute and its concatenated text content; `None` as
/// the outer result when the selector itself is refused.
#[verifier::external_body]
fn select_results(html: &str, selector: &str) -> (r: Option<Vec<(Option<String>, String)>>)
    ensures
        r is Some <==> selector_ok(selector@),
        r matches Some(els) ==> {
            &&& els@.map_values(|p: (Option<String>, String)| attr_view(p.0)) == matched_ids(
                html@,
                selector@,
            )
            &&& els@.map_values(|p: (Option<String>, String)| p.1@) == matched_texts(
                html@,
                selector@,
            )
        },
{
    match scraper::Selector::parse(selector) {
        Err(_) => None,
        Ok(sel) => {
            let doc = scraper::Html::parse_document(html);
            Some(
                doc.select(&sel)
                    .map(|e| (e.value().id().map(|a| a.to_string()), e.text().collect::<String>()))
                    .collect(),
            )
        },
    }
}

/// The CSS class selector that marks one search result per element.
pub fn result_selector() -> (r: &'static str)
    ensures
        r@ == ".dl-search-result"@,
{
    ".dl-search-result"
}

/// Turns the selected elements into result records: every element must carry
/// an `id`, and the identifier is the part after its last `-`. An `id`
/// without any `-` deliberately yields the whole attribute value rather than
/// an error, matching the extraction rule.
pub fn results_from_elements(els: Vec<(Option<String>, String)>) -> (r: Result<
    Vec<ResultElement>,
    ParseError,
>)
    ensures
        r is Ok <==> (forall|j: int| 0 <= j < els@.len() ==> els@[j].0 is Some),
        r matches Ok(res) ==> {
            &&& res@.len() == els@.len()
            &&& forall|j: int|
                0 <= j < els@.len() ==> #[trigger] res@[j].center_id@ == spec_center_id(
                    els@[j].0->0@,
                ) && res@[j].text == els@[j].1
        },
        r matches Err(e) ==> e == ParseError::MissingId,
{
    let mut res: Vec<ResultElement> = Vec::new();
    let mut idx: usize = 0;
    while idx < els.len()
        invariant
            idx <= els@.len(),
            res@.len() == idx,
            forall|j: int| 0 <= j < idx ==> els@[j].0 is Some,
            forall|j: int|
                0 <= j < idx ==> #[trigger] res@[j].center_id@ == spec_center_id(els@[j].0->0@)
                    && res@[j].text == els@[j].1,
        decreases els@.len() - idx,
    {
        match &els[idx].0 {
            None => {
                return Err(ParseError::MissingId);
            },
            Some(a) => {
                let id = get_center_id(a.as_str());
                res.push(ResultElement { center_id: id.to_owned(), text: els[idx].1.clone() });
            },
        }
        idx = idx + 1;
    }
    Ok(res)
}

/// Scans a search result page: parses the HTML, selects the result elements,
/// and extracts each element's identifier and text content. A page on which
/// the selector matches nothing is an error, as is an element without an
/// `id` attribute.
pub fn extract_result_elements(html: &str) -> (r: Result<Vec<ResultElement>, ParseError>)
    ensures
        ({
            let m = matched_ids(html@, ".dl-search-result"@);
            let t = matched_texts(html@, ".dl-search-result"@);
            &&& (r is Ok <==> selector_ok(".dl-search-result"@) && m.len() > 0 && (forall|j: int|
                0 <= j < m.len() ==> m[j] is Some))
            &&& (r matches Ok(res) ==> {
                &&& res@.len() == m.len()
                &&& forall|j: int|
                    0 <= j < m.len() ==> #[trigger] res@[j].center_id@ == spec_center_id(m[j]->0)
                        && res@[j].text@ == t[j]
            })
            &&& (r == Err::<Vec<ResultElement>, ParseError>(ParseError::InvalidSelector)
                <==> !selector_ok(".dl-search-result"@))
            &&& (r == Err::<Vec<ResultElement>, ParseError>(ParseError::NoMatches) <==> selector_ok(
                ".dl-search-result"@,
            ) && m.len() == 0)
            &&& (r == Err::<Vec<ResultElement>, ParseError>(ParseError::MissingId) <==> selector_ok(
                ".dl-search-result"@,
            ) && m.len() > 0 && (exists|j: int| 0 <= j < m.len() && m[j] is None))
        }),
{
    let selector = result_selector();
    match select_results(html, selector) {
        None => Err(ParseError::InvalidSelector),
        Some(els) => {
            proof {
                let m = matched_ids(html@, ".dl-search-result"@);
                let t = matched_texts(html@, ".dl-search-result"@);
                assert(els@.map_values(|p: (Option<String>, String)| attr_view(p.0)) == m);
                assert(els@.map_values(|p: (Option<String>, String)| p.1@) == t);
                assert(forall|j: int|
                    0 <= j < els@.len() ==> m[j] == attr_view(#[trigger] els@[j].0));
                assert(forall|j: int| 0 <= j < els@.len() ==> t[j] == #[trigger] els@[j].1@);
                assert(m.len() == els@.len());
                assert(t.len() == els@.len());
            }
            if els.len() == 0 {
                Err(ParseError::NoMatches)
            } else {
                results_from_elements(els)
            }
        },
    }
}

/// Scans a search result page for the center identifiers alone, in document
/// order, under the same error rules as `extract_result_elements`.
pub fn extract_center_ids(html: &str) -> (r: Result<Vec<String>, ParseError>)
    ensures
        ({
            let m = matched_ids(html@, ".dl-search-result"@);
            &&& (r is Ok <==> selector_ok(".dl-search-result"@) && m.len() > 0 && (forall|j: int|
                0 <= j < m.len() ==> m[j] is Some))
            &&& (r matches Ok(ids) ==> {
                &&& ids@.len() == m.len()
                &&& forall|j: int| 0 <= j < m.len() ==> ids@[j]@ == spec_center_id(m[j]->0)
            })
            &&& (r == Err::<Vec<String>, ParseError>(ParseError::InvalidSelector) <==> !selector_ok(
                ".dl-search-result"@,
            ))
            &&& (r == Err::<Vec<String>, ParseError>(ParseError::NoMatches) <==> selector_ok(
                ".dl-search-result"@,
            ) && m.len() == 0)
            &&& (r == Err::<Vec<String>, ParseError>(ParseError::MissingId) <==> selector_ok(
                ".dl-search-result"@,
            ) && m.len() > 0 && (exists|j: int| 0 <= j < m.len() && m[j] is None))
        }),
{
    match extract_result_elements(html) {
        Err(e) => Err(e),
        Ok(res) => {
            let mut ids: Vec<String> = Vec::new();
            let mut idx: usize = 0;
            while idx < res.len()
                invariant
                    idx <= res@.len(),
                    ids@.len() == idx,
                    forall|j: int| 0 <= j < idx ==> ids@[j] == #[trigger] res@[j].center_id,
                decreases res@.len() - idx,
            {
                ids.push(res[idx].center_id.clone());
                idx = idx + 1;
            }
            proof {
                let m = matched_ids(html@, ".dl-search-result"@);
                assert forall|j: int| 0 <= j < m.len() implies ids@[j]@ == spec_center_id(
                    m[j]->0,
                ) by {
                    assert(ids@[j] == res@[j].center_id);
                    assert(res@[j].center_id@ == spec_center_id(m[j]->0));
                }
            }
            Ok(ids)
        },
    }
}

} // verus!
