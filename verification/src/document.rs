//! The parsed-page model.
//!
//! Field extraction reads nothing of a page but its `meta` elements and
//! their attributes, so a page is modelled as the ordered list of those
//! elements, each the ordered list of its attributes. Parsing raw HTML
//! text into that model is the one place the library leans on an HTML
//! parser; everything downstream works on plain values.

use vstd::prelude::*;

verus! {

/// One attribute of a meta element: its name and its value.
pub struct Attr {
    pub name: String,
    pub value: String,
}

/// The mathematical value of an `Attr`.
pub ghost struct AttrView {
    pub name: Seq<char>,
    pub value: Seq<char>,
}

impl View for Attr {
    type V = AttrView;

    open spec fn view(&self) -> AttrView {
        AttrView { name: self.name@, value: self.value@ }
    }
}

/// One `meta` element of a parsed page: its attributes, in the order the
/// parser reports them.
pub struct MetaTag {
    pub attrs: Vec<Attr>,
}

/// The mathematical value of a `MetaTag`.
pub ghost struct MetaTagView {
    pub attrs: Seq<AttrView>,
}

impl View for MetaTag {
    type V = MetaTagView;

    open spec fn view(&self) -> MetaTagView {
        MetaTagView { attrs: self.attrs@.map_values(|a: Attr| a@) }
    }
}

/// The meta elements that lenient parsing yields for a given HTML text,
/// in document order. Parsing never fails and is deterministic, so this
/// is a function of the text alone; it has no definition here and is
/// pinned down only by what `parse_meta_tags` returns.
pub uninterp spec fn meta_tags_of(html: Seq<char>) -> Seq<MetaTagView>;

/// An owned, parsed representation of one HTML page, reduced to what
/// field extraction reads: its meta elements in document order. Created
/// from raw text, scoped to one request, discarded after extraction.
pub struct Document {
    pub metas: Vec<MetaTag>,
}

impl View for Document {
    type V = Seq<MetaTagView>;

    open spec fn view(&self) -> Seq<MetaTagView> {
        self.metas@.map_values(|m: MetaTag| m@)
    }
}

/// Relies on scraper: `Html::parse_document` builds a best-effort tree
/// from any text without failing, `Html::select` with the (statically
/// valid) `meta` selector yields the tree's `meta` elements in document
/// order, and `Element::attrs` yields each element's attributes in a
/// deterministic order.
#[verifier::external_body]
fn parse_meta_tags(html: &str) -> (r: Vec<MetaTag>)
    ensures
        r@.map_values(|m: MetaTag| m@) == meta_tags_of(html@),
{
    let selector = scraper::Selector::parse("meta").unwrap();
    let tree = scraper::Html::parse_document(html);
    let mut metas = Vec::new();
    for element in tree.select(&selector) {
        let mut attrs = Vec::new();
        for (name, value) in element.value().attrs() {
            attrs.push(Attr { name: name.to_owned(), value: value.to_owned() });
        }
        metas.push(MetaTag { attrs });
    }
    metas
}

impl Document {
    /// Parses raw HTML text into the page model. Always succeeds:
    /// malformed or non-HTML input yields a best-effort tree, possibly
    /// with no meta elements at all.
    pub fn new(html: &str) -> (d: Document)
        ensures
            d@ == meta_tags_of(html@),
    {
        Document { metas: parse_meta_tags(html) }
    }
}

} // verus!
