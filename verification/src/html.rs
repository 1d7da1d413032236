//! Documents and the queries that are put to them.
//!
//! Parsing and selecting are kuchiki's work. This module gives that work
//! names, so that the rules of the other modules can say which nodes and
//! which texts they read.

use kuchiki::traits::TendrilSink;
use vstd::prelude::*;
use vstd::string::*;
use crate::error::{ScrapeError, ScrapeErrorView};

verus! {

/// kuchiki's handle on a node of a document. Nothing of a node is seen but
/// through the queries below.
#[verifier::external_type_specification]
#[verifier::external_body]
pub struct ExNodeRef(kuchiki::NodeRef);

/// The document that kuchiki's HTML parser builds from `bytes`, read as
/// UTF-8 in which ill-formed sequences are replaced; `None` where reading
/// the bytes fails.
pub uninterp spec fn document_of(bytes: Seq<u8>) -> Option<kuchiki::NodeRef>;

/// The elements among `root` and its descendants that match the selector
/// list `selector`, in document order, as `kuchiki::NodeRef::select` yields
/// them; `None` where kuchiki refuses the selector.
pub uninterp spec fn matching_elements(root: kuchiki::NodeRef, selector: Seq<char>) -> Option<
    Seq<kuchiki::NodeRef>,
>;

/// The text nodes below `node`, joined in document order, as
/// `kuchiki::NodeRef::text_contents` gives them.
pub uninterp spec fn text_of(node: kuchiki::NodeRef) -> Seq<char>;

/// The value of the attribute `name` (without namespace) of the element
/// `node`; `None` where `node` has no such attribute or is no element.
pub uninterp spec fn attribute_of(node: kuchiki::NodeRef, name: Seq<char>) -> Option<Seq<char>>;

/// Whether `node` is an element with the local name `name`, as
/// `selectors::Element::has_local_name` tells.
pub uninterp spec fn has_local_name(node: kuchiki::NodeRef, name: Seq<char>) -> bool;

/// An optional text as a sequence of characters.
pub open spec fn text_view(t: Option<String>) -> Option<Seq<char>> {
    match t {
        Some(s) => Some(s@),
        None => None,
    }
}

/// The document in `bytes`, or the error that stands for an unreadable one.
pub open spec fn parsed(bytes: Seq<u8>) -> Result<kuchiki::NodeRef, ScrapeErrorView> {
    match document_of(bytes) {
        Some(document) => Ok(document),
        None => Err(ScrapeErrorView::UnreadableDocument),
    }
}

/// The elements that `selector` matches below `root`, or the error that
/// stands for a refused selector.
pub open spec fn selection(root: kuchiki::NodeRef, selector: Seq<char>) -> Result<
    Seq<kuchiki::NodeRef>,
    ScrapeErrorView,
> {
    match matching_elements(root, selector) {
        Some(nodes) => Ok(nodes),
        None => Err(ScrapeErrorView::InvalidSelector { selector }),
    }
}

/// A parsed document, or the view of the error.
pub open spec fn document_result_view(r: Result<kuchiki::NodeRef, ScrapeError>) -> Result<
    kuchiki::NodeRef,
    ScrapeErrorView,
> {
    match r {
        Ok(document) => Ok(document),
        Err(e) => Err(e@),
    }
}

/// Selected nodes as a sequence, or the view of the error.
pub open spec fn nodes_result_view(r: Result<Vec<kuchiki::NodeRef>, ScrapeError>) -> Result<
    Seq<kuchiki::NodeRef>,
    ScrapeErrorView,
> {
    match r {
        Ok(nodes) => Ok(nodes@),
        Err(e) => Err(e@),
    }
}

/// Feeds `bytes` to the parser that `kuchiki::parse_html` makes, through its
/// lossy UTF-8 decoder. The result is the one that `document_of` names.
#[verifier::external_body]
pub(crate) fn parse_document(bytes: &[u8]) -> (r: Option<kuchiki::NodeRef>)
    ensures
        r == document_of(bytes@),
{
    let mut reader = bytes;
    kuchiki::parse_html().from_utf8().read_from(&mut reader).ok()
}

/// Calls `kuchiki::NodeRef::select` and collects the nodes of the elements
/// that it yields. The result is the one that `matching_elements` names.
#[verifier::external_body]
pub(crate) fn select_all(root: &kuchiki::NodeRef, selector: &str) -> (r: Result<
    Vec<kuchiki::NodeRef>,
    (),
>)
    ensures
        match r {
            Ok(nodes) => matching_elements(*root, selector@) == Some(nodes@),
            Err(_) => matching_elements(*root, selector@) is None,
        },
{
    Ok(root.select(selector)?.map(|element| element.as_node().clone()).collect())
}

/// Calls `kuchiki::NodeRef::text_contents`. The result is the one that
/// `text_of` names.
#[verifier::external_body]
pub(crate) fn text_contents(node: &kuchiki::NodeRef) -> (r: String)
    ensures
        r@ == text_of(*node),
{
    node.text_contents()
}

/// Looks `name` up with `kuchiki::Attributes::get` among the attributes of
/// `node`. The result is the one that `attribute_of` names.
#[verifier::external_body]
pub(crate) fn attribute(node: &kuchiki::NodeRef, name: &str) -> (r: Option<String>)
    ensures
        text_view(r) == attribute_of(*node, name@),
{
    let element = node.as_element()?;
    let attributes = element.attributes.borrow();
    attributes.get(name).map(|value| value.to_string())
}

/// Asks `selectors::Element::has_local_name` whether the element `node` is
/// called `name`. The result is the one that `has_local_name` names.
#[verifier::external_body]
pub(crate) fn is_named(node: &kuchiki::NodeRef, name: &str) -> (r: bool)
    ensures
        r == has_local_name(*node, name@),
{
    match node.clone().into_element_ref() {
        Some(element) => selectors::Element::has_local_name(&element, &name.into()),
        None => false,
    }
}

/// Parses the bytes of a page.
pub fn parse(bytes: &[u8]) -> (r: Result<kuchiki::NodeRef, ScrapeError>)
    ensures
        document_result_view(r) == parsed(bytes@),
{
    match parse_document(bytes) {
        Some(document) => Ok(document),
        None => Err(ScrapeError::UnreadableDocument),
    }
}

/// Selects the elements at or below `root` that match `selector`, in
/// document order.
pub fn select(root: &kuchiki::NodeRef, selector: &str) -> (r: Result<
    Vec<kuchiki::NodeRef>,
    ScrapeError,
>)
    ensures
        nodes_result_view(r) == selection(*root, selector@),
{
    match select_all(root, selector) {
        Ok(nodes) => Ok(nodes),
        Err(_) => Err(ScrapeError::InvalidSelector { selector: String::from_str(selector) }),
    }
}

} // verus!
