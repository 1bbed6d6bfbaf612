//! The interfaces that the runtime provides by itself.

use crate::models::InterfaceTriple;
use crate::text::same_text;
use vstd::prelude::*;

verus! {

/// The interfaces that the hosting runtime provides by itself. An import of
/// one of them needs no link and is never reported as unsatisfied.
pub open spec fn runtime_interface(t: InterfaceTriple) -> bool {
    t.namespace == "wasi"@ && {
        ||| (t.package == "io"@ && t.name == "poll"@)
        ||| (t.package == "io"@ && t.name == "error"@)
        ||| (t.package == "io"@ && t.name == "streams"@)
        ||| (t.package == "http"@ && t.name == "types"@)
        ||| (t.package == "cli"@ && t.name == "environment"@)
        ||| (t.package == "cli"@ && t.name == "exit"@)
        ||| (t.package == "cli"@ && t.name == "stdin"@)
        ||| (t.package == "cli"@ && t.name == "stdout"@)
        ||| (t.package == "cli"@ && t.name == "stderr"@)
        ||| (t.package == "clocks"@ && t.name == "wall-clock"@)
        ||| (t.package == "filesystem"@ && t.name == "types"@)
        ||| (t.package == "filesystem"@ && t.name == "preopens"@)
    }
}

fn pair_is(package: &str, name: &str, p: &str, n: &str) -> (r: bool)
    ensures
        r == (package@ == p@ && name@ == n@),
{
    same_text(package, p) && same_text(name, n)
}

/// Decides whether the triple `(namespace, package, name)` is one of the
/// interfaces that the runtime provides by itself.
pub fn is_runtime_interface(namespace: &str, package: &str, name: &str) -> (r: bool)
    ensures
        r == runtime_interface(
            InterfaceTriple { namespace: namespace@, package: package@, name: name@ },
        ),
{
    if !same_text(namespace, "wasi") {
        return false;
    }
    pair_is(package, name, "io", "poll")
        || pair_is(package, name, "io", "error")
        || pair_is(package, name, "io", "streams")
        || pair_is(package, name, "http", "types")
        || pair_is(package, name, "cli", "environment")
        || pair_is(package, name, "cli", "exit")
        || pair_is(package, name, "cli", "stdin")
        || pair_is(package, name, "cli", "stdout")
        || pair_is(package, name, "cli", "stderr")
        || pair_is(package, name, "clocks", "wall-clock")
        || pair_is(package, name, "filesystem", "types")
        || pair_is(package, name, "filesystem", "preopens")
}

} // verus!
