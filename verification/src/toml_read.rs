//! The trusted boundary to the `toml` crate.
//!
//! Parsing the configuration text is the one job the library hands to an
//! outside crate.  The result of that parse is given a name, `toml_doc`, and
//! everything after the parse works on the structured document and is
//! verified against that name.

use vstd::prelude::*;
use crate::doc::{Entry, Item, ItemModel};

verus! {

#[verifier::external_type_specification]
#[verifier::external_body]
pub struct ExTomlValue(toml::Value);

/// What the `toml` crate parses out of a text: either the document as an
/// item model, or the message of the parse error.  The result depends on the
/// text alone.
pub uninterp spec fn toml_doc(s: Seq<char>) -> Result<ItemModel, Seq<char>>;

/// The content of an already parsed `toml::Value`, as an item model.
pub uninterp spec fn value_model(v: toml::Value) -> ItemModel;

/// A parse result and its model, side by side.
pub open spec fn parse_result_model(r: Result<Item, String>) -> Result<ItemModel, Seq<char>> {
    match r {
        Ok(item) => Ok(item.model()),
        Err(message) => Err(message@),
    }
}

/// Relies on the variants of `toml::Value`: strings, arrays and tables are
/// carried over one for one, every other kind of value becomes `Item::Other`.
#[verifier::external_body]
fn item_of_value(v: toml::Value) -> (r: Item)
    ensures
        r.model() == value_model(v),
{
    match v {
        toml::Value::String(s) => Item::Text(s),
        toml::Value::Array(a) => Item::List(a.into_iter().map(item_of_value).collect()),
        toml::Value::Table(t) => Item::Table(
            t.into_iter().map(|p| Entry { key: p.0, value: item_of_value(p.1) }).collect(),
        ),
        _ => Item::Other,
    }
}

/// Relies on `toml::from_str`: a well-formed text yields its document, an
/// ill-formed one yields an error whose message says why.
#[verifier::external_body]
pub fn parse_document(text: &str) -> (r: Result<Item, String>)
    ensures
        parse_result_model(r) == toml_doc(text@),
{
    match toml::from_str::<toml::Value>(text) {
        Ok(v) => Ok(item_of_value(v)),
        Err(e) => Err(e.to_string()),
    }
}

} // verus!
