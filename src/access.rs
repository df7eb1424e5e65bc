//! Primitive accessors: they turn "not found" into an empty or absent value,
//! and leave to the extractors what an absence means.
use vstd::prelude::*;
use crate::dom::{Element, Sel, attr_at, first, any_match, place_of, text_at, Place};
use crate::text::{chars_of, string_of, trim, trim_chars};

verus! {

/// The trimmed text of an optional element, or the empty text.
pub open spec fn text_or_empty(e: Option<Place>) -> Seq<char> {
    match e {
        Some(p) => trim(text_at(p)),
        None => Seq::empty(),
    }
}

/// The attribute `name` of an optional element, or the empty text.
pub open spec fn attr_or_empty(e: Option<Place>, name: Seq<char>) -> Seq<char> {
    match attr_at(e, name) {
        Some(v) => v,
        None => Seq::empty(),
    }
}

/// The trimmed text of an optional element, or an empty string.
pub fn safe_text_content(element: Option<Element>) -> (r: String)
    ensures
        r@ == text_or_empty(place_of(element)),
{
    match element {
        Some(e) => string_of(trimmed_text(&e).as_slice()),
        None => String::new(),
    }
}

/// The attribute `attr` of an optional element, or an empty string.
pub fn safe_attr_content(element: Option<Element>, attr: &str) -> (r: String)
    ensures
        r@ == attr_or_empty(place_of(element), attr@),
{
    match attr_of(element, attr) {
        Some(v) => v,
        None => String::new(),
    }
}

/// Compiles a selector, or says which text did not compile.
pub fn safe_selector(selector_str: &str) -> (r: Result<Sel, String>)
    ensures
        r is Ok <==> crate::dom::selector_parses(selector_str@),
        r matches Ok(s) ==> s@ == selector_str@,
{
    match Sel::new(selector_str) {
        Some(s) => Ok(s),
        None => {
            let mut msg = String::from_str("Invalid CSS selector '");
            msg.append(selector_str);
            msg.append("'");
            Err(msg)
        },
    }
}

/// The first descendant of `parent` that matches `selector`.
pub fn safe_select<'a>(parent: &Element<'a>, selector: &Sel) -> (r: Option<Element<'a>>)
    ensures
        place_of(r) == first(parent@, selector@),
{
    parent.select_first(selector)
}

/// The trimmed text of an element, as characters.
pub fn trimmed_text(e: &Element) -> (r: Vec<char>)
    ensures
        r@ == trim(text_at(e@)),
{
    trim_chars(&chars_of(e.text().as_str()))
}

/// The attribute `name` of an optional element.
pub fn attr_of(element: Option<Element>, name: &str) -> (r: Option<String>)
    ensures
        r.deep_view() == attr_at(place_of(element), name@),
{
    match element {
        Some(e) => e.attr(name),
        None => None,
    }
}

/// Whether some descendant of `parent` matches `selector`.
pub fn has_match(parent: &Element, selector: &Sel) -> (r: bool)
    ensures
        r == any_match(parent@, selector@),
{
    parent.select_first(selector).is_some()
}

} // verus!
