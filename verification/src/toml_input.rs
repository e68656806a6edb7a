//! The trusted boundary to the TOML reader.  The outside crate turns
//! document text into its own value tree; the two functions here hand
//! that tree over as the library's `TomlNode`, and everything after —
//! the whole schema validation — is verified code over `TomlNode`.
//!
//! What reading a given text yields is far too large to state here, but
//! it is a function of the text alone, so it is given the name
//! `spec_read_toml` and every contract downstream speaks through that
//! name.

use vstd::prelude::*;

use crate::doc_tree::{SpecNode, TomlNode, TomlPair};

verus! {

#[verifier::external_type_specification]
#[verifier::external_body]
pub struct ExTomlValue(toml::Value);

/// The document tree that reading `text` as TOML yields, or the reader's
/// diagnostic when the text is not a well-formed TOML document.
pub uninterp spec fn spec_read_toml(text: Seq<char>) -> Result<SpecNode, Seq<char>>;

/// Relies on `toml::from_str::<toml::Value>`: it reads a whole TOML
/// document into a value tree, and its result depends on the text alone,
/// so for fixed text the returned tree (or diagnostic) is fixed.
#[verifier::external_body]
pub fn read_toml(text: &str) -> (r: Result<TomlNode, String>)
    ensures
        (match r {
            Ok(v) => spec_read_toml(text@) == Ok::<SpecNode, Seq<char>>(v.deep_view()),
            Err(e) => spec_read_toml(text@) == Err::<SpecNode, Seq<char>>(e@),
        }),
{
    match toml::from_str::<toml::Value>(text) {
        Ok(v) => Ok(node_of_value(v)),
        Err(e) => Err(e.to_string()),
    }
}

/// Relies on the shape of `toml::Value`: each variant is carried over to
/// the matching document node, field for field; a scalar the schema can
/// never accept (integer, float, boolean, datetime) collapses to
/// `Scalar`.
#[verifier::external_body]
fn node_of_value(v: toml::Value) -> TomlNode {
    match v {
        toml::Value::String(s) => TomlNode::Text(s),
        toml::Value::Array(a) => TomlNode::Array(a.into_iter().map(node_of_value).collect()),
        toml::Value::Table(t) => TomlNode::Table(
            t.into_iter().map(|p| TomlPair { key: p.0, value: node_of_value(p.1) }).collect(),
        ),
        _ => TomlNode::Scalar,
    }
}

} // verus!
