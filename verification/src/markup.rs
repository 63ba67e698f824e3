//! The door to the markup parser: a page goes in as text, and what the
//! extractors read of it comes out as plain values.

use vstd::prelude::*;

verus! {

/// What the extractors read of one element of a page.
pub struct Element {
    /// The text nodes below the element, each as it stands.
    pub texts: Vec<String>,
    /// The value of the attribute that was asked for, where the element has it.
    pub attribute: Option<String>,
}

/// What an `Element` holds, as sequences of characters.
pub ghost struct ElementContent {
    pub texts: Seq<Seq<char>>,
    pub attribute: Option<Seq<char>>,
}

/// An element together with those of a second selection that lie below it.
pub struct Section {
    /// The text nodes below the element, each as it stands.
    pub texts: Vec<String>,
    /// The elements of the second selection below the element.
    pub inner: Vec<Element>,
}

/// What a `Section` holds, as sequences of characters.
pub ghost struct SectionContent {
    pub texts: Seq<Seq<char>>,
    pub inner: Seq<ElementContent>,
}

impl View for Element {
    type V = ElementContent;

    open spec fn view(&self) -> ElementContent {
        ElementContent {
            texts: self.texts@.map_values(|text: String| text@),
            attribute: match self.attribute {
                Some(value) => Some(value@),
                None => None,
            },
        }
    }
}

/// What the elements of a list hold, in order.
pub open spec fn element_contents(elements: Seq<Element>) -> Seq<ElementContent> {
    elements.map_values(|element: Element| element@)
}

impl View for Section {
    type V = SectionContent;

    open spec fn view(&self) -> SectionContent {
        SectionContent {
            texts: self.texts@.map_values(|text: String| text@),
            inner: element_contents(self.inner@),
        }
    }
}

/// What the sections of a list hold, in order.
pub open spec fn section_contents(sections: Seq<Section>) -> Seq<SectionContent> {
    sections.map_values(|section: Section| section@)
}

/// What the markup parser finds in `document` for `selector`: the elements
/// that match, each with its text nodes and its value of `attribute`; nothing
/// where `selector` is no selector.
pub uninterp spec fn selected_elements(
    document: Seq<char>,
    selector: Seq<char>,
    attribute: Seq<char>,
) -> Option<Seq<ElementContent>>;

/// What the markup parser finds in `document` for `outer` and, below each
/// element that matches it, for `inner`; nothing where either is no selector.
pub uninterp spec fn selected_sections(
    document: Seq<char>,
    outer: Seq<char>,
    inner: Seq<char>,
    attribute: Seq<char>,
) -> Option<Seq<SectionContent>>;

/// The elements of `document` that match `selector`, or none where `selector`
/// is no selector.
pub open spec fn elements_in(document: Seq<char>, selector: Seq<char>, attribute: Seq<char>) -> Seq<
    ElementContent,
> {
    match selected_elements(document, selector, attribute) {
        Some(elements) => elements,
        None => Seq::empty(),
    }
}

/// The sections of `document` for `outer` and `inner`, or none where either
/// is no selector.
pub open spec fn sections_in(
    document: Seq<char>,
    outer: Seq<char>,
    inner: Seq<char>,
    attribute: Seq<char>,
) -> Seq<SectionContent> {
    match selected_sections(document, outer, inner, attribute) {
        Some(sections) => sections,
        None => Seq::empty(),
    }
}

/// Calls `scraper`: `Selector::parse` on `selector`, `Html::parse_document`
/// on `document`, `Html::select`, and for each element that the selection
/// yields `ElementRef::text` and `ElementRef::attr`. Trusted: that the outcome
/// depends on the three texts alone. It is `None` exactly where `scraper`
/// refuses the selector.
#[verifier::external_body]
pub(crate) fn select_elements(document: &str, selector: &str, attribute: &str) -> (found: Option<
    Vec<Element>,
>)
    ensures
        match found {
            Some(elements) => selected_elements(document@, selector@, attribute@) == Some(
                element_contents(elements@),
            ),
            None => selected_elements(document@, selector@, attribute@) is None,
        },
{
    let chosen = scraper::Selector::parse(selector).ok()?;
    let page = scraper::Html::parse_document(document);
    let mut found = Vec::new();
    for node in page.select(&chosen) {
        let texts = node.text().map(String::from).collect();
        found.push(Element { texts, attribute: node.attr(attribute).map(String::from) });
    }
    Some(found)
}

/// Calls `scraper`: `Selector::parse` on `outer` and on `inner`,
/// `Html::parse_document` on `document`, `Html::select` with the first
/// selector and `ElementRef::select` with the second below each element that
/// it yields, and `ElementRef::text` and `ElementRef::attr` on what is found.
/// Trusted: that the outcome depends on the four texts alone. It is `None`
/// exactly where `scraper` refuses one of the selectors.
#[verifier::external_body]
pub(crate) fn select_sections(document: &str, outer: &str, inner: &str, attribute: &str) -> (found:
    Option<Vec<Section>>)
    ensures
        match found {
            Some(sections) => selected_sections(document@, outer@, inner@, attribute@) == Some(
                section_contents(sections@),
            ),
            None => selected_sections(document@, outer@, inner@, attribute@) is None,
        },
{
    let first = scraper::Selector::parse(outer).ok()?;
    let second = scraper::Selector::parse(inner).ok()?;
    let page = scraper::Html::parse_document(document);
    let mut found = Vec::new();
    for node in page.select(&first) {
        let mut below = Vec::new();
        for part in node.select(&second) {
            let texts = part.text().map(String::from).collect();
            below.push(Element { texts, attribute: part.attr(attribute).map(String::from) });
        }
        found.push(Section { texts: node.text().map(String::from).collect(), inner: below });
    }
    Some(found)
}

} // verus!
