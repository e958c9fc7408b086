//! Values of XML elements, found by their tags as plain text.

use crate::text::{clear_of, find, lemma_position_behind, position};
use vstd::prelude::*;
use vstd::string::*;

verus! {

/// The start tag of an element.
pub open spec fn open_tag(tag: Seq<char>) -> Seq<char> {
    "<"@ + tag + ">"@
}

/// The end tag of an element.
pub open spec fn close_tag(tag: Seq<char>) -> Seq<char> {
    "</"@ + tag + ">"@
}

/// Where the first start tag and the first end tag of `tag` stand.
pub open spec fn tag_positions(xml: Seq<char>, tag: Seq<char>) -> Option<(int, int)> {
    match (position(xml, open_tag(tag)), position(xml, close_tag(tag))) {
        (Some(start), Some(end)) => Some((start, end)),
        _ => None,
    }
}

/// The first end tag of `tag`, if both tags are there, does not stand before the
/// end of the first start tag.
pub open spec fn tags_in_order(xml: Seq<char>, tag: Seq<char>) -> bool {
    match tag_positions(xml, tag) {
        Some((start, end)) => start + open_tag(tag).len() <= end,
        None => true,
    }
}

/// The text between the first start tag and the first end tag of `tag`.
pub open spec fn element_value(xml: Seq<char>, tag: Seq<char>) -> Option<Seq<char>> {
    match tag_positions(xml, tag) {
        Some((start, end)) => Some(xml.subrange(start + open_tag(tag).len(), end)),
        None => None,
    }
}

/// The positions, in characters, behind the first start tag of `tag` and at its
/// first end tag.
fn value_bounds(xml: &str, tag: &str) -> (r: Option<(usize, usize)>)
    ensures
        match r {
            Some((from, to)) => tag_positions(xml@, tag@) == Some(
                (from - open_tag(tag@).len(), to as int),
            ) && from <= xml@.len() && to <= xml@.len(),
            None => tag_positions(xml@, tag@) is None,
        },
{
    let open = "<".to_owned().concat(tag).concat(">");
    let close = "</".to_owned().concat(tag).concat(">");
    let size: usize = xml.unicode_len();
    match (find(xml, open.as_str()), find(xml, close.as_str())) {
        (Some(start), Some(end)) => Some((start + open.as_str().unicode_len(), end)),
        _ => None,
    }
}

/// Whether the value of `tag` can be cut out of `xml`.
pub fn in_order(xml: &str, tag: &str) -> (r: bool)
    ensures
        r == tags_in_order(xml@, tag@),
{
    match value_bounds(xml, tag) {
        Some((from, to)) => from <= to,
        None => true,
    }
}

/// The text between the first start tag and the first end tag of `tag`.
pub fn value_of<'a>(xml: &'a str, tag: &str) -> (r: Option<&'a str>)
    requires
        tags_in_order(xml@, tag@),
    ensures
        match r {
            Some(value) => element_value(xml@, tag@) == Some(value@),
            None => element_value(xml@, tag@) is None,
        },
{
    match value_bounds(xml, tag) {
        Some((from, to)) => Some(xml.substring_char(from, to)),
        None => None,
    }
}

/// The value of an element is what stands between its tags, where nothing before them
/// can be taken for them.
pub proof fn lemma_value_between(
    before: Seq<char>,
    tag: Seq<char>,
    value: Seq<char>,
    after: Seq<char>,
)
    requires
        clear_of(before, open_tag(tag)),
        clear_of(before + open_tag(tag) + value, close_tag(tag)),
    ensures
        element_value(before + open_tag(tag) + value + close_tag(tag) + after, tag) == Some(value),
        tags_in_order(before + open_tag(tag) + value + close_tag(tag) + after, tag),
{
    let open = open_tag(tag);
    let close = close_tag(tag);
    let text = before + open + value + close + after;
    assert(text =~= before + open + (value + close + after));
    lemma_position_behind(before, open, value + close + after);
    lemma_position_behind(before + open + value, close, after);
    let from = (before.len() + open.len()) as int;
    assert(text.subrange(from, from + value.len()) =~= value);
}

} // verus!
