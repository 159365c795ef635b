//! The outside HTML machinery: documents and elements of `scraper`, and the
//! conversion of HTML to markdown by `html_to_markdown_rs`.
//!
//! Nothing here is proved. A document and its elements are opaque values;
//! what the outside functions return of them is given a name, so that the
//! reader of a page can say exactly which of these values it puts where.
//! Each result depends on the arguments alone: parsing, selection and
//! serialisation read no clock, no environment and no random source, and
//! `scraper` keeps the attributes of an element sorted by name.

use vstd::prelude::*;

verus! {

/// `scraper::Html`, a parsed document. Nothing is known of its inside.
#[verifier::external_type_specification]
#[verifier::external_body]
pub struct ExHtml(scraper::Html);

/// `scraper::ElementRef`, a reference to an element of a document. Nothing
/// is known of its inside.
#[verifier::external_type_specification]
#[verifier::external_body]
pub struct ExElementRef<'a>(scraper::ElementRef<'a>);

/// `html_to_markdown_rs::ConversionError`, the error of a conversion.
/// Nothing is known of its inside.
#[verifier::external_type_specification]
#[verifier::external_body]
pub struct ExConversionError(html_to_markdown_rs::ConversionError);

/// The document that `scraper::Html::parse_document` builds from a text.
pub uninterp spec fn document_of(html: Seq<char>) -> scraper::Html;

/// The elements of a document that match a selector, in the order in which
/// `scraper::Html::select` yields them; none where the selector is not valid.
pub uninterp spec fn document_matches(doc: scraper::Html, selector: Seq<char>) -> Seq<
    scraper::ElementRef<'static>,
>;

/// The descendants of an element that match a selector, in the order in
/// which `scraper::ElementRef::select` yields them; none where the selector
/// is not valid.
pub uninterp spec fn element_matches(el: scraper::ElementRef, selector: Seq<char>) -> Seq<
    scraper::ElementRef,
>;

/// The text nodes below an element, joined in document order.
pub uninterp spec fn element_text(el: scraper::ElementRef) -> Seq<char>;

/// The value of an attribute of an element.
pub uninterp spec fn element_attr(el: scraper::ElementRef, name: Seq<char>) -> Option<Seq<char>>;

/// The serialised children of an element.
pub uninterp spec fn element_inner_html(el: scraper::ElementRef) -> Seq<char>;

/// What `html_to_markdown_rs::convert` makes of a text with its default
/// options: nothing where it fails, else the content of its result.
pub uninterp spec fn markdown_of(html: Seq<char>) -> Option<Option<Seq<char>>>;

/// Calls `scraper::Html::parse_document`, which parses leniently and always
/// returns a document; the document depends on the text alone.
#[verifier::external_body]
pub(crate) fn parse_document(html: &str) -> (doc: scraper::Html)
    ensures
        doc == document_of(html@),
{
    scraper::Html::parse_document(html)
}

/// Calls `scraper::Html::select` with the selector that
/// `scraper::Selector::parse` makes of the text, and collects what it yields.
#[verifier::external_body]
pub(crate) fn select_in_document<'a>(doc: &'a scraper::Html, selector: &str) -> (found: Vec<
    scraper::ElementRef<'a>,
>)
    ensures
        found@ == document_matches(*doc, selector@),
{
    match scraper::Selector::parse(selector) {
        Ok(compiled) => doc.select(&compiled).collect(),
        Err(_) => Vec::new(),
    }
}

/// Calls `scraper::ElementRef::select` with the selector that
/// `scraper::Selector::parse` makes of the text, and collects what it yields.
#[verifier::external_body]
pub(crate) fn select_in_element<'a>(el: scraper::ElementRef<'a>, selector: &str) -> (found: Vec<
    scraper::ElementRef<'a>,
>)
    ensures
        found@ == element_matches(el, selector@),
{
    match scraper::Selector::parse(selector) {
        Ok(compiled) => el.select(&compiled).collect(),
        Err(_) => Vec::new(),
    }
}

/// Calls `scraper::ElementRef::text` and joins the pieces.
#[verifier::external_body]
pub(crate) fn text_of(el: scraper::ElementRef) -> (text: String)
    ensures
        text@ == element_text(el),
{
    el.text().collect::<Vec<_>>().join("")
}

/// Calls `scraper::node::Element::attr` on the element's value.
#[verifier::external_body]
pub(crate) fn attr_of(el: scraper::ElementRef, name: &str) -> (value: Option<String>)
    ensures
        value.deep_view() == element_attr(el, name@),
{
    el.value().attr(name).map(|v| v.to_string())
}

/// Calls `scraper::ElementRef::inner_html`.
#[verifier::external_body]
pub(crate) fn inner_html_of(el: scraper::ElementRef) -> (html: String)
    ensures
        html@ == element_inner_html(el),
{
    el.inner_html()
}

/// Calls `html_to_markdown_rs::convert` with its default options and hands
/// out the content of its result, or its error.
#[verifier::external_body]
pub(crate) fn convert(html: &str) -> (r: Result<
    Option<String>,
    html_to_markdown_rs::ConversionError,
>)
    ensures
        match r {
            Ok(content) => markdown_of(html@) == Some(content.deep_view()),
            Err(_) => markdown_of(html@) is None,
        },
{
    html_to_markdown_rs::convert(html, None).map(|converted| converted.content)
}

} // verus!
