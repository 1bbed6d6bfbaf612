//! Operations on text, stated over sequences of characters.

use crate::seqs::{first_true, lemma_first_true_is};
use vstd::prelude::*;
use vstd::string::StringExecFns;

verus! {

/// Whether `prefix` is an initial segment of `s`.
pub open spec fn has_prefix(s: Seq<char>, prefix: Seq<char>) -> bool {
    prefix.len() <= s.len() && s.subrange(0, prefix.len() as int) == prefix
}

/// Compares two string slices, character by character.
pub fn same_text(a: &str, b: &str) -> (r: bool)
    ensures
        r == (a@ == b@),
{
    let x: String = a.to_owned();
    let y: String = b.to_owned();
    x == y
}

/// Joins two string slices into a new string.
pub fn join(a: &str, b: &str) -> (r: String)
    ensures
        r@ == a@ + b@,
{
    String::from_str(a).concat(b)
}

/// `s` without every leading repetition of `prefix`. With an empty
/// `prefix` nothing is taken away.
pub open spec fn trim_start(s: Seq<char>, prefix: Seq<char>) -> Seq<char>
    decreases s.len(),
{
    if prefix.len() > 0 && has_prefix(s, prefix) {
        trim_start(s.skip(prefix.len() as int), prefix)
    } else {
        s
    }
}

/// Whether `s` starts with `prefix`.
pub fn starts_with(s: &str, prefix: &str) -> (r: bool)
    ensures
        r == has_prefix(s@, prefix@),
{
    let n = s.unicode_len();
    let m = prefix.unicode_len();
    if m > n {
        return false;
    }
    same_text(s.substring_char(0, m), prefix)
}

/// Takes every leading repetition of `prefix` away from `s`.
pub fn trim_start_matches(s: &str, prefix: &str) -> (r: String)
    ensures
        r@ == trim_start(s@, prefix@),
{
    let n = s.unicode_len();
    let m = prefix.unicode_len();
    let mut start: usize = 0;
    if m > 0 {
        let mut more = true;
        assert(s@.skip(0) =~= s@);
        while more
            invariant
                0 < m == prefix@.len(),
                n == s@.len(),
                start <= n,
                trim_start(s@, prefix@) == trim_start(s@.skip(start as int), prefix@),
                !more ==> !has_prefix(s@.skip(start as int), prefix@),
            decreases n - start, (if more { 1int } else { 0int }),
        {
            if m <= n - start && same_text(s.substring_char(start, start + m), prefix) {
                assert(s@.skip(start as int).skip(m as int) =~= s@.skip(start + m));
                start += m;
            } else {
                if m <= n - start {
                    assert(s@.skip(start as int).subrange(0, m as int) =~= s@.subrange(
                        start as int,
                        start + m,
                    ));
                }
                more = false;
            }
        }
    }
    s.substring_char(start, n).to_owned()
}

/// Whether two lists of strings hold the same texts in the same order.
pub fn same_texts(a: &Vec<String>, b: &Vec<String>) -> (r: bool)
    ensures
        r == (a.deep_view() == b.deep_view()),
{
    if a.len() != b.len() {
        assert(a.deep_view().len() != b.deep_view().len());
        return false;
    }
    let mut i: usize = 0;
    while i < a.len()
        invariant
            i <= a.len(),
            a.len() == b.len(),
            forall|j: int| 0 <= j < i ==> a.deep_view()[j] == b.deep_view()[j],
        decreases a.len() - i,
    {
        if !same_text(a[i].as_str(), b[i].as_str()) {
            assert(a.deep_view()[i as int] != b.deep_view()[i as int]);
            return false;
        }
        i += 1;
    }
    assert(a.deep_view() =~= b.deep_view());
    true
}

/// For each place counted from the end of `s`, whether `c` stands there.
pub open spec fn flags_from_end(s: Seq<char>, c: char) -> Seq<bool> {
    Seq::new(s.len(), |i: int| s[s.len() - 1 - i] == c)
}

/// What stands in `s` behind the last `c`; all of `s` where it holds no `c`.
pub open spec fn after_last(s: Seq<char>, c: char) -> Seq<char> {
    s.skip(s.len() - first_true(flags_from_end(s, c)))
}

/// Cuts out what stands in `s` behind the last `c`; all of `s` where it
/// holds no `c`.
pub fn text_after_last(s: &str, c: char) -> (r: String)
    ensures
        r@ == after_last(s@, c),
{
    let n = s.unicode_len();
    let ghost flags = flags_from_end(s@, c);
    let mut k: usize = 0;
    let mut found = false;
    while k < n && !found
        invariant
            k <= n == s@.len(),
            flags == flags_from_end(s@, c),
            forall|j: int| 0 <= j < k ==> !flags[j],
            found ==> k < n && flags[k as int],
        decreases n - k, (if found { 0int } else { 1int }),
    {
        if s.get_char(n - 1 - k) == c {
            found = true;
        } else {
            k += 1;
        }
    }
    proof {
        lemma_first_true_is(flags, k as int);
    }
    s.substring_char(n - k, n).to_owned()
}

/// The character that stands for the digit `d`.
pub open spec fn digit(d: int) -> char {
    if d == 0 {
        '0'
    } else if d == 1 {
        '1'
    } else if d == 2 {
        '2'
    } else if d == 3 {
        '3'
    } else if d == 4 {
        '4'
    } else if d == 5 {
        '5'
    } else if d == 6 {
        '6'
    } else if d == 7 {
        '7'
    } else if d == 8 {
        '8'
    } else {
        '9'
    }
}

/// The number `n` written in decimal, without leading zeros.
pub open spec fn decimal(n: nat) -> Seq<char>
    decreases n,
{
    if n < 10 {
        seq![digit(n as int)]
    } else {
        decimal(n / 10).push(digit((n % 10) as int))
    }
}

fn digit_text(d: usize) -> (r: &'static str)
    requires
        d < 10,
    ensures
        r@ == seq![digit(d as int)],
{
    proof {
        reveal_strlit("0");
        reveal_strlit("1");
        reveal_strlit("2");
        reveal_strlit("3");
        reveal_strlit("4");
        reveal_strlit("5");
        reveal_strlit("6");
        reveal_strlit("7");
        reveal_strlit("8");
        reveal_strlit("9");
    }
    if d == 0 {
        "0"
    } else if d == 1 {
        "1"
    } else if d == 2 {
        "2"
    } else if d == 3 {
        "3"
    } else if d == 4 {
        "4"
    } else if d == 5 {
        "5"
    } else if d == 6 {
        "6"
    } else if d == 7 {
        "7"
    } else if d == 8 {
        "8"
    } else {
        "9"
    }
}

/// Writes the number `n` in decimal.
pub fn decimal_text(n: usize) -> (r: String)
    ensures
        r@ == decimal(n as nat),
    decreases n,
{
    if n < 10 {
        String::from_str(digit_text(n))
    } else {
        decimal_text(n / 10).concat(digit_text(n % 10))
    }
}

/// Whether `part` stands in `s` at place `i`.
pub open spec fn stands_at(s: Seq<char>, part: Seq<char>, i: int) -> bool {
    0 <= i && i + part.len() <= s.len() && s.subrange(i, i + part.len()) == part
}

/// Whether `part` stands somewhere in `s`.
pub open spec fn holds_text(s: Seq<char>, part: Seq<char>) -> bool {
    exists|i: int| stands_at(s, part, i)
}

/// Searches `s` for `part`.
pub fn contains_text(s: &str, part: &str) -> (r: bool)
    ensures
        r == holds_text(s@, part@),
{
    let n = s.unicode_len();
    let m = part.unicode_len();
    if m > n {
        return false;
    }
    if m == 0 {
        assert(s@.subrange(0, 0) =~= part@);
        assert(stands_at(s@, part@, 0));
        return true;
    }
    let mut i: usize = 0;
    while i <= n - m
        invariant
            0 < m <= n == s@.len(),
            m == part@.len(),
            i <= n - m + 1,
            forall|j: int| 0 <= j < i ==> !stands_at(s@, part@, j),
        decreases n - m + 1 - i,
    {
        if same_text(s.substring_char(i, i + m), part) {
            assert(stands_at(s@, part@, i as int));
            return true;
        }
        i += 1;
    }
    false
}

/// The texts of `parts` in order, with `separator` between each two.
pub open spec fn joined(parts: Seq<Seq<char>>, separator: Seq<char>) -> Seq<char>
    decreases parts.len(),
{
    if parts.len() == 0 {
        Seq::empty()
    } else if parts.len() == 1 {
        parts[0]
    } else {
        joined(parts.drop_last(), separator) + separator + parts.last()
    }
}

/// Writes the texts of `parts` in order, with `separator` between each two.
pub fn join_all(parts: &Vec<String>, separator: &str) -> (r: String)
    ensures
        r@ == joined(parts.deep_view(), separator@),
{
    let mut text = String::new();
    let mut i: usize = 0;
    while i < parts.len()
        invariant
            i <= parts.len(),
            text@ == joined(parts.deep_view().take(i as int), separator@),
        decreases parts.len() - i,
    {
        proof {
            assert(parts.deep_view().take(i as int + 1).drop_last() =~= parts.deep_view().take(
                i as int,
            ));
        }
        if i > 0 {
            text = text.concat(separator);
        }
        text = text.concat(parts[i].as_str());
        i += 1;
    }
    assert(parts.deep_view().take(i as int) =~= parts.deep_view());
    text
}

} // verus!
