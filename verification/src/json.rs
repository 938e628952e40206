//! Lists of texts as JSON, the form in which tables hold them.

use vstd::prelude::*;
use vstd::string::*;

use crate::text;

verus! {

/// The list of texts that a JSON document spells, if it spells one: what
/// `serde_json::from_str` reads as a list of strings.
pub uninterp spec fn text_list_of(json: Seq<char>) -> Option<Seq<Seq<char>>>;

/// A list of texts as JSON: what `serde_json::to_string` writes for a list of
/// strings.
pub uninterp spec fn text_list_json(items: Seq<Seq<char>>) -> Seq<char>;

/// The texts of an optional list.
pub open spec fn opt_texts(items: Option<Vec<String>>) -> Option<Seq<Seq<char>>> {
    match items {
        Some(list) => Some(text::views(list@)),
        None => None,
    }
}

/// Calls `serde_json::from_str` for a list of strings. Trusted: the result
/// depends on the document alone; it is `None` where the document is anything
/// but a list of strings.
#[verifier::external_body]
fn read_text_list(json: &str) -> (res: Option<Vec<String>>)
    ensures
        opt_texts(res) == text_list_of(json@),
{
    serde_json::from_str::<Vec<String>>(json).ok()
}

/// Calls `serde_json::to_string` for a list of strings, which does not fail on
/// one. Trusted: the document depends on the list alone, reading it gives the
/// list back, and the document of the empty list is a pair of brackets.
#[verifier::external_body]
fn write_text_list(items: &Vec<String>) -> (res: String)
    ensures
        res@ == text_list_json(text::views(items@)),
        text_list_of(res@) == Some(text::views(items@)),
        items@.len() == 0 ==> res@ == "[]"@,
{
    serde_json::to_string(items).unwrap_or_default()
}

/// The texts that a list may hold; none where there is no list.
pub open spec fn texts_or_none(items: Option<Seq<Seq<char>>>) -> Seq<Seq<char>> {
    match items {
        Some(list) => list,
        None => Seq::empty(),
    }
}

/// The texts that were read; none where reading failed.
pub fn list_or_empty(read: Option<Vec<String>>) -> (res: Vec<String>)
    ensures
        text::views(res@) == texts_or_none(opt_texts(read)),
{
    match read {
        Some(list) => list,
        None => {
            let none: Vec<String> = Vec::new();
            assert(text::views(none@) =~= Seq::<Seq<char>>::empty());
            none
        },
    }
}

/// The texts that a JSON document lists; none where it is not such a list.
pub fn texts_of(json: &str) -> (res: Vec<String>)
    ensures
        text::views(res@) == texts_or_none(text_list_of(json@)),
{
    list_or_empty(read_text_list(json))
}

/// A list of texts as JSON. Reading the document gives the list back.
pub fn json_of(items: &Vec<String>) -> (res: String)
    ensures
        res@ == text_list_json(text::views(items@)),
        text_list_of(res@) == Some(text::views(items@)),
        items@.len() == 0 ==> res@ == "[]"@,
{
    write_text_list(items)
}

} // verus!
