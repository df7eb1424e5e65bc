//! Parsed documents, elements and compiled selectors.
//!
//! An element is known to the proofs by its place: the source text of the
//! document it belongs to, and the path of `(selector, index)` steps that
//! leads to it from the document's root element. Step `(s, i)` picks the
//! `i`-th descendant, in document order, that matches selector `s`.
//! What the HTML parser and the selector engine compute on a place is named
//! by the uninterpreted functions below. Every `Document`, `Element` and
//! `Sel` is built in this module only, and each keeps its ghost place equal
//! to where its node really is.
use vstd::prelude::*;

verus! {

/// `scraper::Html`, a parsed document, held opaque.
#[verifier::external_type_specification]
#[verifier::external_body]
pub struct ExHtml(scraper::Html);

/// `scraper::Selector`, a compiled selector group, held opaque.
#[verifier::external_type_specification]
#[verifier::external_body]
pub struct ExSelector(scraper::Selector);

/// `scraper::ElementRef`, a reference to an element of a parsed document,
/// held opaque.
#[verifier::external_type_specification]
#[verifier::external_body]
pub struct ExElementRef<'a>(scraper::ElementRef<'a>);

/// One step of a path: a selector's source text and a match index.
pub type Step = (Seq<char>, int);

/// Where an element stands: its document's source text and its path.
pub ghost struct Place {
    pub src: Seq<char>,
    pub at: Seq<Step>,
}

/// The place of the `i`-th match of `sel` below `p`.
pub open spec fn step(p: Place, sel: Seq<char>, i: int) -> Place {
    Place { src: p.src, at: p.at.push((sel, i)) }
}

/// The first match of `sel` below `p`, if any.
pub open spec fn first(p: Place, sel: Seq<char>) -> Option<Place> {
    if match_count(p.src, p.at, sel) > 0 {
        Some(step(p, sel, 0))
    } else {
        None
    }
}

/// The place of an optional element.
pub open spec fn place_of(e: Option<Element>) -> Option<Place> {
    match e {
        Some(e) => Some(e@),
        None => None,
    }
}

/// Every match of `sel` below `p`, in document order.
pub open spec fn all(p: Place, sel: Seq<char>) -> Seq<Place> {
    Seq::new(match_count(p.src, p.at, sel), |i: int| step(p, sel, i))
}

/// Every match of `sel` below `p` but the first: the rows of a table
/// without its header row.
pub open spec fn all_but_first(p: Place, sel: Seq<char>) -> Seq<Place> {
    if match_count(p.src, p.at, sel) > 0 {
        Seq::new((match_count(p.src, p.at, sel) - 1) as nat, |i: int| step(p, sel, i + 1))
    } else {
        Seq::empty()
    }
}

/// Whether some descendant of `p` matches `sel`.
pub open spec fn any_match(p: Place, sel: Seq<char>) -> bool {
    match_count(p.src, p.at, sel) > 0
}

/// The untrimmed text of the element at `p`.
pub open spec fn text_at(p: Place) -> Seq<char> {
    node_text(p.src, p.at)
}

/// The attribute `name` of an optional element.
pub open spec fn attr_at(e: Option<Place>, name: Seq<char>) -> Option<Seq<char>> {
    match e {
        Some(p) => node_attr(p.src, p.at, name),
        None => None,
    }
}

/// Whether `Selector::parse` accepts the text.
pub uninterp spec fn selector_parses(text: Seq<char>) -> bool;

/// How many descendants of the element at `at` in the document parsed from
/// `src` match the selector parsed from `sel`.
pub uninterp spec fn match_count(src: Seq<char>, at: Seq<Step>, sel: Seq<char>) -> nat;

/// The concatenated descendant text nodes of the element.
pub uninterp spec fn node_text(src: Seq<char>, at: Seq<Step>) -> Seq<char>;

/// The value of the element's attribute `name`, if it has one.
pub uninterp spec fn node_attr(src: Seq<char>, at: Seq<Step>, name: Seq<char>) -> Option<Seq<char>>;

/// Relies on `scraper::Html::parse_document`, which never fails.
#[verifier::external_body]
fn parse_html(text: &str) -> scraper::Html {
    scraper::Html::parse_document(text)
}

/// Relies on `scraper::Html::root_element`; a parsed document always holds
/// an `<html>` element.
#[verifier::external_body]
fn root_of(html: &scraper::Html) -> scraper::ElementRef<'_> {
    html.root_element()
}

/// Relies on `scraper::Selector::parse`.
#[verifier::external_body]
fn parse_selector(text: &str) -> (r: Option<scraper::Selector>)
    ensures
        r is Some <==> selector_parses(text@),
{
    scraper::Selector::parse(text).ok()
}

/// Relies on `scraper::ElementRef::select`: the descendants of the element
/// that match the selector, in document order.
#[verifier::external_body]
fn select_nodes<'a>(el: &Element<'a>, sel: &Sel) -> (r: Vec<scraper::ElementRef<'a>>)
    ensures
        r@.len() == match_count(el@.src, el@.at, sel@),
{
    el.node.select(&sel.compiled).collect()
}

/// Relies on `scraper::ElementRef::text`: the element's descendant text
/// nodes, joined.
#[verifier::external_body]
fn text_nodes(el: &Element) -> (r: String)
    ensures
        r@ == node_text(el@.src, el@.at),
{
    el.node.text().collect()
}

/// Relies on `scraper::ElementRef::attr`.
#[verifier::external_body]
fn attr_value(el: &Element, name: &str) -> (r: Option<String>)
    ensures
        r matches Some(v) ==> node_attr(el@.src, el@.at, name@) == Some(v@),
        r is None ==> node_attr(el@.src, el@.at, name@) is None,
{
    el.node.attr(name).map(|v| v.to_string())
}

/// A parsed HTML document.
pub struct Document {
    html: scraper::Html,
    src: Ghost<Seq<char>>,
}

impl View for Document {
    type V = Seq<char>;

    closed spec fn view(&self) -> Seq<char> {
        self.src@
    }
}

/// An element of a parsed document.
#[derive(Clone, Copy)]
pub struct Element<'a> {
    node: scraper::ElementRef<'a>,
    place: Ghost<Place>,
}

impl<'a> View for Element<'a> {
    type V = Place;

    closed spec fn view(&self) -> Place {
        self.place@
    }
}

/// A compiled CSS selector.
pub struct Sel {
    compiled: scraper::Selector,
    src: Ghost<Seq<char>>,
}

impl View for Sel {
    type V = Seq<char>;

    closed spec fn view(&self) -> Seq<char> {
        self.src@
    }
}

impl Document {
    /// Parses a whole HTML document.
    pub fn parse(text: &str) -> (r: Document)
        ensures
            r@ == text@,
    {
        Document { html: parse_html(text), src: Ghost(text@) }
    }

    /// The document's root `<html>` element.
    pub fn root(&self) -> (r: Element<'_>)
        ensures
            r@ == (Place { src: self@, at: Seq::empty() }),
    {
        Element { node: root_of(&self.html), place: Ghost(Place { src: self@, at: Seq::empty() }) }
    }
}

impl<'a> Element<'a> {
    /// All descendants that match `sel`, in document order.
    pub fn select_all(&self, sel: &Sel) -> (r: Vec<Element<'a>>)
        ensures
            r@.len() == match_count(self@.src, self@.at, sel@),
            forall|i: int| 0 <= i < r@.len() ==> #[trigger] r@[i]@ == step(self@, sel@, i),
    {
        let nodes = select_nodes(self, sel);
        let mut out: Vec<Element<'a>> = Vec::new();
        let mut i: usize = 0;
        while i < nodes.len()
            invariant
                i <= nodes@.len(),
                out@.len() == i,
                forall|j: int| 0 <= j < i ==> #[trigger] out@[j]@ == step(self@, sel@, j),
            decreases nodes@.len() - i,
        {
            out.push(Element { node: nodes[i], place: Ghost(step(self@, sel@, i as int)) });
            i = i + 1;
        }
        out
    }

    /// The first descendant that matches `sel`.
    pub fn select_first(&self, sel: &Sel) -> (r: Option<Element<'a>>)
        ensures
            place_of(r) == first(self@, sel@),
    {
        let nodes = select_nodes(self, sel);
        if nodes.len() == 0 {
            None
        } else {
            Some(Element { node: nodes[0], place: Ghost(step(self@, sel@, 0)) })
        }
    }

    /// The element's descendant text, untrimmed.
    pub fn text(&self) -> (r: String)
        ensures
            r@ == node_text(self@.src, self@.at),
    {
        text_nodes(self)
    }

    /// The value of attribute `name`, if present.
    pub fn attr(&self, name: &str) -> (r: Option<String>)
        ensures
            r.deep_view() == node_attr(self@.src, self@.at, name@),
    {
        attr_value(self, name)
    }
}

impl Sel {
    /// Compiles a selector; `None` where the text is no valid selector.
    pub fn new(text: &str) -> (r: Option<Sel>)
        ensures
            r is Some <==> selector_parses(text@),
            r matches Some(s) ==> s@ == text@,
    {
        match parse_selector(text) {
            Some(compiled) => Some(Sel { compiled, src: Ghost(text@) }),
            None => None,
        }
    }
}

} // verus!
