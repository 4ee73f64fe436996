//! The parsed page: documents, elements and the queries the decoder makes on
//! them. Parsing and selector matching are done by `scraper`; what it returns
//! is named here, so that the decoder's contracts can speak of it.

use vstd::prelude::*;

verus! {

/// `scraper::Html`: a parsed document. Nothing of its inside is known here.
#[verifier::external_type_specification]
#[verifier::external_body]
pub struct ExHtml(scraper::Html);

/// `scraper::ElementRef`: an element of a parsed document. Nothing of its
/// inside is known here.
#[verifier::external_type_specification]
#[verifier::external_body]
pub struct ExElementRef<'a>(scraper::ElementRef<'a>);

/// `scraper::Selector`: a compiled selector group. Nothing of its inside is
/// known here.
#[verifier::external_type_specification]
#[verifier::external_body]
pub struct ExSelector(scraper::Selector);

/// The document that `scraper::Html::parse_document` builds from a page's
/// text.
pub uninterp spec fn parsed_document(html: Seq<char>) -> scraper::Html;

/// The selector that `scraper::Selector::parse` compiles a CSS selector group
/// to, if the text is one.
pub uninterp spec fn compiled_selector(css: Seq<char>) -> Option<scraper::Selector>;

/// The elements of a document that `scraper::Html::select` yields for a
/// selector, in the order in which it yields them.
pub uninterp spec fn document_matches(document: &scraper::Html, selector: scraper::Selector) -> Seq<
    scraper::ElementRef,
>;

/// The descendants of an element that `scraper::ElementRef::select` yields
/// for a selector, in the order in which it yields them.
pub uninterp spec fn element_matches(scope: scraper::ElementRef, selector: scraper::Selector) -> Seq<
    scraper::ElementRef,
>;

/// The text nodes below an element that `scraper::ElementRef::text` yields,
/// in the order in which it yields them.
pub uninterp spec fn element_texts(element: scraper::ElementRef) -> Seq<Seq<char>>;

/// The value that `scraper::ElementRef::attr` finds of an element's
/// attribute, if the element has it.
pub uninterp spec fn element_attribute(element: scraper::ElementRef, name: Seq<char>) -> Option<
    Seq<char>,
>;

/// Whether `scraper::node::Element::has_class` finds a class in an element's
/// class list, compared without regard to ASCII case.
pub uninterp spec fn element_has_class(element: scraper::ElementRef, class: Seq<char>) -> bool;

/// `scraper::Html::parse_document`. Parsing never fails, and the tree depends
/// on the text alone.
#[verifier::external_body]
pub(crate) fn parse_document(html: &str) -> (document: scraper::Html)
    ensures
        document == parsed_document(html@),
{
    scraper::Html::parse_document(html)
}

/// `scraper::Selector::parse`. A text that is no selector group gives `None`.
#[verifier::external_body]
pub(crate) fn parse_selector(css: &str) -> (selector: Option<scraper::Selector>)
    ensures
        selector == compiled_selector(css@),
{
    scraper::Selector::parse(css).ok()
}

/// `scraper::Html::select`, with the matches collected in the order in which
/// the iterator yields them.
#[verifier::external_body]
pub(crate) fn select_in_document<'a>(document: &'a scraper::Html, selector: &scraper::Selector) -> (found:
    Vec<scraper::ElementRef<'a>>)
    ensures
        found@ == document_matches(document, *selector),
{
    document.select(selector).collect()
}

/// `scraper::ElementRef::select`, with the matches collected in the order in
/// which the iterator yields them.
#[verifier::external_body]
pub(crate) fn select_in_element<'a>(scope: scraper::ElementRef<'a>, selector: &scraper::Selector) -> (found:
    Vec<scraper::ElementRef<'a>>)
    ensures
        found@ == element_matches(scope, *selector),
{
    scope.select(selector).collect()
}

/// `scraper::ElementRef::text`, with each text node copied into a `String`.
#[verifier::external_body]
pub(crate) fn texts_of(element: scraper::ElementRef) -> (texts: Vec<String>)
    ensures
        texts.deep_view() == element_texts(element),
{
    element.text().map(str::to_owned).collect()
}

/// `scraper::ElementRef::attr`, with the value copied into a `String`.
#[verifier::external_body]
pub(crate) fn attribute_of(element: scraper::ElementRef, name: &str) -> (value: Option<String>)
    ensures
        match value {
            Some(v) => element_attribute(element, name@) == Some(v@),
            None => element_attribute(element, name@) is None,
        },
{
    element.attr(name).map(str::to_owned)
}

/// `scraper::node::Element::has_class` with
/// `CaseSensitivity::AsciiCaseInsensitive`.
#[verifier::external_body]
pub(crate) fn has_class(element: scraper::ElementRef, class: &str) -> (held: bool)
    ensures
        held == element_has_class(element, class@),
{
    element.value().has_class(class, scraper::CaseSensitivity::AsciiCaseInsensitive)
}

/// The descendants of `scope` that match the selector group `css`; none where
/// `css` is no selector group.
pub open spec fn matches_css(scope: scraper::ElementRef, css: Seq<char>) -> Seq<scraper::ElementRef> {
    match compiled_selector(css) {
        Some(selector) => element_matches(scope, selector),
        None => Seq::empty(),
    }
}

/// The elements of `document` that match the selector group `css`; none where
/// `css` is no selector group.
pub open spec fn document_matches_css(document: &scraper::Html, css: Seq<char>) -> Seq<
    scraper::ElementRef,
> {
    match compiled_selector(css) {
        Some(selector) => document_matches(document, selector),
        None => Seq::empty(),
    }
}

/// Selects below `scope` by the selector group `css`.
pub fn select<'a>(scope: scraper::ElementRef<'a>, css: &str) -> (found: Vec<scraper::ElementRef<'a>>)
    ensures
        found@ == matches_css(scope, css@),
{
    match parse_selector(css) {
        Some(selector) => select_in_element(scope, &selector),
        None => Vec::new(),
    }
}

/// Selects in `document` by the selector group `css`.
pub fn select_document<'a>(document: &'a scraper::Html, css: &str) -> (found: Vec<
    scraper::ElementRef<'a>,
>)
    ensures
        found@ == document_matches_css(document, css@),
{
    match parse_selector(css) {
        Some(selector) => select_in_document(document, &selector),
        None => Vec::new(),
    }
}

/// The text nodes of each element of `elements`, in order.
pub open spec fn texts_of_each(elements: Seq<scraper::ElementRef>) -> Seq<Seq<Seq<char>>> {
    Seq::new(elements.len(), |i: int| element_texts(elements[i]))
}

/// Reads the text nodes of each element of `elements`.
pub fn texts_of_all(elements: &Vec<scraper::ElementRef>) -> (texts: Vec<Vec<String>>)
    ensures
        texts.deep_view() == texts_of_each(elements@),
{
    let mut texts: Vec<Vec<String>> = Vec::new();
    let mut i: usize = 0;
    while i < elements.len()
        invariant
            i <= elements.len(),
            texts.len() == i,
            forall|j: int| 0 <= j < i ==> (#[trigger] texts[j]).deep_view() == element_texts(elements[j]),
        decreases elements.len() - i,
    {
        texts.push(texts_of(elements[i]));
        i += 1;
    }
    assert(texts.deep_view() =~= texts_of_each(elements@));
    texts
}

} // verus!
