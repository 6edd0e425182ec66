//! Small sequence and text helpers shared by the other modules.

use vstd::prelude::*;
use vstd::string::*;

verus! {

/// Whether two strings hold the same characters.
pub fn same_text(a: &str, b: &str) -> (same: bool)
    ensures
        same == (a@ == b@),
{
    let n: usize = a.unicode_len();
    if n != b.unicode_len() {
        return false;
    }
    let mut i: usize = 0;
    while i < n
        invariant
            i <= n,
            n == a@.len(),
            n == b@.len(),
            forall|k: int| 0 <= k < i ==> a@[k] == b@[k],
        decreases n - i,
    {
        if a.get_char(i) != b.get_char(i) {
            return false;
        }
        i += 1;
    }
    assert(a@ =~= b@);
    true
}

/// `items` with `sep` between every two neighbours: the items stand at the even
/// positions, `sep` at the odd ones.
pub open spec fn interspersed<T>(items: Seq<T>, sep: T) -> Seq<T> {
    Seq::new(
        if items.len() == 0 {
            0nat
        } else {
            (2 * items.len() - 1) as nat
        },
        |i: int|
            if i % 2 == 0 {
                items[i / 2]
            } else {
                sep
            },
    )
}

/// Puts `sep` between every two neighbours of `slice`.
pub fn intersperse<T: Copy>(slice: &[T], sep: T) -> (out: Vec<T>)
    ensures
        out@ == interspersed(slice@, sep),
{
    let mut out: Vec<T> = Vec::new();
    let mut i: usize = 0;
    while i < slice.len()
        invariant
            i <= slice.len(),
            out@ == interspersed(slice@.take(i as int), sep),
        decreases slice.len() - i,
    {
        if i > 0 {
            out.push(sep);
        }
        out.push(slice[i]);
        i += 1;
    }
    out
}

/// Interspersing `n >= 1` items gives `2n - 1` elements: the items, in order, at
/// the even positions and the separator at every odd position.
pub proof fn lemma_interspersed_layout<T>(items: Seq<T>, sep: T)
    requires
        items.len() >= 1,
    ensures
        interspersed(items, sep).len() == 2 * items.len() - 1,
        forall|k: int|
            0 <= k < 2 * items.len() - 1 && k % 2 == 0 ==> #[trigger] interspersed(items, sep)[k]
                == items[k / 2],
        forall|k: int|
            0 <= k < 2 * items.len() - 1 && k % 2 == 1 ==> #[trigger] interspersed(items, sep)[k]
                == sep,
{
}

/// Whether `text` begins with `prefix`.
pub open spec fn has_prefix(text: Seq<char>, prefix: Seq<char>) -> bool {
    prefix.len() <= text.len() && text.subrange(0, prefix.len() as int) == prefix
}

/// Whether `text` ends with `suffix`.
pub open spec fn has_suffix(text: Seq<char>, suffix: Seq<char>) -> bool {
    suffix.len() <= text.len() && text.subrange(text.len() - suffix.len(), text.len() as int)
        == suffix
}

/// Whether the `part.len()` characters of `text` from `start` on are those of `part`.
fn matches_at(text: &str, start: usize, part: &str) -> (same: bool)
    requires
        start + part@.len() <= text@.len(),
    ensures
        same == (text@.subrange(start as int, start + part@.len()) == part@),
{
    let n: usize = part.unicode_len();
    let total: usize = text.unicode_len();
    let mut i: usize = 0;
    while i < n
        invariant
            i <= n,
            n == part@.len(),
            total == text@.len(),
            start + n <= total,
            forall|k: int| 0 <= k < i ==> text@[start + k] == part@[k],
        decreases n - i,
    {
        if text.get_char(start + i) != part.get_char(i) {
            return false;
        }
        i += 1;
    }
    assert(text@.subrange(start as int, start + n) =~= part@);
    true
}

/// Whether `text` begins with `prefix`.
pub fn starts_with(text: &str, prefix: &str) -> (found: bool)
    ensures
        found == has_prefix(text@, prefix@),
{
    if prefix.unicode_len() > text.unicode_len() {
        return false;
    }
    matches_at(text, 0, prefix)
}

/// Whether `text` ends with `suffix`.
pub fn ends_with(text: &str, suffix: &str) -> (found: bool)
    ensures
        found == has_suffix(text@, suffix@),
{
    let n: usize = text.unicode_len();
    let m: usize = suffix.unicode_len();
    if m > n {
        return false;
    }
    matches_at(text, n - m, suffix)
}

} // verus!
