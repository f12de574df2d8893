//! JSON string literals, as `serde_json` writes them.
//!
//! The items here are not proved: they state what the `serde_json` crate is
//! taken to do. Everything else in the library is verified against them.

use vstd::prelude::*;

verus! {

/// The error type of `serde_json`, carried through unopened.
#[verifier::external_type_specification]
#[verifier::external_body]
pub struct ExJsonError(serde_json::Error);

/// The JSON string literal that `serde_json::to_string` writes for a text:
/// the text between double quotes, with quotes, backslashes and control
/// characters escaped. `None` stands for a text it reports an error on.
pub uninterp spec fn json_string(text: Seq<char>) -> Option<Seq<char>>;

/// Calls `serde_json::to_string` on a string slice. The result depends on
/// the text alone, so it is the value that [`json_string`] names: the
/// literal on success, and no literal where the call reports an error.
#[verifier::external_body]
pub(crate) fn to_json_string(text: &str) -> (written: Result<String, serde_json::Error>)
    ensures
        match written {
            Ok(literal) => json_string(text@) == Some(literal@),
            Err(_) => json_string(text@) is None,
        },
{
    serde_json::to_string(text)
}

} // verus!
