//! How the source of a component in a registry is written and read.

use crate::text::{has_prefix, starts_with};
use vstd::prelude::*;
use vstd::string::StringExecFns;

verus! {

/// The text that a registry source is written as: `oci://` and the reference.
pub open spec fn written(reference: Seq<char>) -> Seq<char> {
    "oci://"@ + reference
}

/// The reference that a text stands for, which has to start with `oci://`.
pub open spec fn read(text: Seq<char>) -> Result<Seq<char>, Seq<char>> {
    if has_prefix(text, "oci://"@) {
        Ok(text.skip("oci://"@.len() as int))
    } else {
        Err("reference must start with oci://"@)
    }
}

/// Writes a registry source: `oci://` and the reference.
pub fn serialize(reference: &str) -> (r: String)
    ensures
        r@ == written(reference@),
{
    String::from_str("oci://").concat(reference)
}

/// Reads a registry source: the text without its leading `oci://`, and an
/// error for a text that does not start so.
pub fn deserialize(text: String) -> (r: Result<String, String>)
    ensures
        match r {
            Ok(reference) => read(text@) == Ok::<Seq<char>, Seq<char>>(reference@),
            Err(e) => read(text@) == Err::<Seq<char>, Seq<char>>(e@),
        },
{
    if starts_with(text.as_str(), "oci://") {
        let n = text.as_str().unicode_len();
        let m = "oci://".unicode_len();
        Ok(text.as_str().substring_char(m, n).to_owned())
    } else {
        Err(String::from_str("reference must start with oci://"))
    }
}

/// Reading what was written gives the reference back.
pub proof fn law_read_written(reference: Seq<char>)
    ensures
        read(written(reference)) == Ok::<Seq<char>, Seq<char>>(reference),
{
    let prefix = "oci://"@;
    assert(written(reference).subrange(0, prefix.len() as int) =~= prefix);
    assert(written(reference).skip(prefix.len() as int) =~= reference);
}

} // verus!
