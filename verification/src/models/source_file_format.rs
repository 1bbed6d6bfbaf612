//! How the source of a component in a file is written and read.

use crate::text::{has_prefix, starts_with};
use vstd::prelude::*;
use vstd::string::StringExecFns;

verus! {

/// The text that a file source is written as: `file://` and the path.
pub open spec fn written(path: Seq<char>) -> Seq<char> {
    "file://"@ + path
}

/// The path that a text stands for, which has to start with `file://`.
pub open spec fn read(text: Seq<char>) -> Result<Seq<char>, Seq<char>> {
    if has_prefix(text, "file://"@) {
        Ok(text.skip("file://"@.len() as int))
    } else {
        Err("path must start with file://"@)
    }
}

/// Writes a file source: `file://` and the path.
pub fn serialize(path: &String) -> (r: String)
    ensures
        r@ == written(path@),
{
    String::from_str("file://").concat(path.as_str())
}

/// Reads a file source: the text without its leading `file://`, and an
/// error for a text that does not start so.
pub fn deserialize(text: String) -> (r: Result<String, String>)
    ensures
        match r {
            Ok(path) => read(text@) == Ok::<Seq<char>, Seq<char>>(path@),
            Err(e) => read(text@) == Err::<Seq<char>, Seq<char>>(e@),
        },
{
    if starts_with(text.as_str(), "file://") {
        let n = text.as_str().unicode_len();
        let m = "file://".unicode_len();
        Ok(text.as_str().substring_char(m, n).to_owned())
    } else {
        Err(String::from_str("path must start with file://"))
    }
}

/// Reading what was written gives the path back.
pub proof fn law_read_written(path: Seq<char>)
    ensures
        read(written(path)) == Ok::<Seq<char>, Seq<char>>(path),
{
    let prefix = "file://"@;
    assert(written(path).subrange(0, prefix.len() as int) =~= prefix);
    assert(written(path).skip(prefix.len() as int) =~= path);
}

} // verus!
