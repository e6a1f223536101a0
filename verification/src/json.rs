//! JSON encoding of the argument list.
//!
//! The request body of a call is the argument list encoded as a JSON array
//! of strings.  The encoding itself is delegated to `serde_json`; its result
//! is named by [`json_array_of`] so that contracts can speak of it exactly.

use vstd::prelude::*;

verus! {

/// The JSON array text of a sequence of strings: each string quoted and
/// escaped as JSON demands, joined by commas, between `[` and `]`, in the
/// order given.
pub uninterp spec fn json_array_of(args: Seq<Seq<char>>) -> Seq<char>;

/// Relies on `serde_json::to_string`: the JSON text of a vector of strings
/// depends on the strings alone; an empty vector encodes as `[]`.
/// Serializing strings never fails, so the `unwrap` cannot panic.
#[verifier::external_body]
fn to_json_text(args: &Vec<String>) -> (r: String)
    ensures
        r@ == json_array_of(args.deep_view()),
        args@.len() == 0 ==> r@ == "[]"@,
{
    serde_json::to_string(args).unwrap()
}

/// The request body for a call with the given arguments: the JSON array
/// encoding of `args`, in their original order.  An empty argument list
/// encodes as `[]`.
pub fn request_body(args: &Vec<String>) -> (r: String)
    ensures
        r@ == json_array_of(args.deep_view()),
        args@.len() == 0 ==> r@ == "[]"@,
{
    to_json_text(args)
}

} // verus!
