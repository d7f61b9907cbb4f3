//! Access to an HTML document: the elements a CSS selector matches, each
//! reduced to the plain values the adapters read — its collected text and
//! its `href` attribute.
use vstd::prelude::*;

verus! {

/// One element a selector matched: its collected text and its `href`
/// attribute, if the element carries one.
pub struct SelMatch {
    pub text: String,
    pub href: Option<String>,
}

/// What selecting `sel` over the document `html` yields: `None` when the
/// selector string does not compile, otherwise every matched element in
/// document order.
pub uninterp spec fn selected_of(html: Seq<char>, sel: Seq<char>) -> Option<Vec<SelMatch>>;

/// Relies on `scraper` (`Html::parse_document`, `Selector::parse`,
/// `Html::select`, `ElementRef::text`, `Element::attr`): parses `html` as an
/// HTML document and returns, in document order, the collected text and the
/// `href` attribute of each element the selector matches; `None` exactly
/// when the selector string does not compile. The result depends on `html`
/// and `sel` alone.
#[verifier::external_body]
pub(crate) fn select_matches(html: &str, sel: &str) -> (r: Option<Vec<SelMatch>>)
    ensures
        r == selected_of(html@, sel@),
{
    let document = scraper::Html::parse_document(html);
    let selector = match scraper::Selector::parse(sel) {
        Ok(s) => s,
        Err(_) => return None,
    };
    Some(
        document.select(&selector).map(
            |e| SelMatch {
                text: e.text().collect::<String>(),
                href: e.value().attr("href").map(|h| h.to_string()),
            },
        ).collect(),
    )
}

} // verus!
