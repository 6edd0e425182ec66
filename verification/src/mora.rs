//! The mora table: from a katakana mora to its phonemes.
//!
//! A mora has one vowel phoneme and at most one consonant phoneme before it. The
//! table is fixed; a mora is looked up by exact match.

use vstd::prelude::*;
use vstd::string::*;

verus! {

/// Whether the mora is the one character `a`.
pub open spec fn is_one(mora: Seq<char>, a: char) -> bool {
    mora.len() == 1 && mora[0] == a
}

/// Whether the mora is the two characters `a` and `b`.
pub open spec fn is_two(mora: Seq<char>, a: char, b: char) -> bool {
    mora.len() == 2 && mora[0] == a && mora[1] == b
}

/// Whether `n` is the length of the mora, and `a` and `b` are its first two
/// characters as far as it has them.
pub open spec fn spells(mora: Seq<char>, n: usize, a: char, b: char) -> bool {
    &&& n == mora.len()
    &&& n >= 1 ==> a == mora[0]
    &&& n >= 2 ==> b == mora[1]
}

/// The characters of a table entry.
pub open spec fn entry_view(entry: Option<(Option<&'static str>, &'static str)>) -> Option<
    (Option<Seq<char>>, Seq<char>),
> {
    match entry {
        Some((Some(consonant), vowel)) => Some((Some(consonant@), vowel@)),
        Some((None, vowel)) => Some((None, vowel@)),
        None => None,
    }
}

/// The rows from ヴォ to ラ.
pub open spec fn rows_wa_ra(mora: Seq<char>) -> Option<(Option<Seq<char>>, Seq<char>)> {
    if is_two(mora, 'ヴ', 'ォ') {
        Some((Some("v"@), "o"@))
    } else if is_two(mora, 'ヴ', 'ェ') {
        Some((Some("v"@), "e"@))
    } else if is_two(mora, 'ヴ', 'ィ') {
        Some((Some("v"@), "i"@))
    } else if is_two(mora, 'ヴ', 'ァ') {
        Some((Some("v"@), "a"@))
    } else if is_one(mora, 'ヴ') {
        Some((Some("v"@), "u"@))
    } else if is_one(mora, 'ン') {
        Some((None, "N"@))
    } else if is_one(mora, 'ワ') {
        Some((Some("w"@), "a"@))
    } else if is_one(mora, 'ロ') {
        Some((Some("r"@), "o"@))
    } else if is_one(mora, 'レ') {
        Some((Some("r"@), "e"@))
    } else if is_one(mora, 'ル') {
        Some((Some("r"@), "u"@))
    } else if is_two(mora, 'リ', 'ョ') {
        Some((Some("ry"@), "o"@))
    } else if is_two(mora, 'リ', 'ュ') {
        Some((Some("ry"@), "u"@))
    } else if is_two(mora, 'リ', 'ャ') {
        Some((Some("ry"@), "a"@))
    } else if is_two(mora, 'リ', 'ェ') {
        Some((Some("ry"@), "e"@))
    } else if is_one(mora, 'リ') {
        Some((Some("r"@), "i"@))
    } else if is_one(mora, 'ラ') {
        Some((Some("r"@), "a"@))
    } else {
        None
    }
}

/// The rows from ヨ to マ.
pub open spec fn rows_ya_ma(mora: Seq<char>) -> Option<(Option<Seq<char>>, Seq<char>)> {
    if is_one(mora, 'ヨ') {
        Some((Some("y"@), "o"@))
    } else if is_one(mora, 'ユ') {
        Some((Some("y"@), "u"@))
    } else if is_one(mora, 'ヤ') {
        Some((Some("y"@), "a"@))
    } else if is_one(mora, 'モ') {
        Some((Some("m"@), "o"@))
    } else if is_one(mora, 'メ') {
        Some((Some("m"@), "e"@))
    } else if is_one(mora, 'ム') {
        Some((Some("m"@), "u"@))
    } else if is_two(mora, 'ミ', 'ョ') {
        Some((Some("my"@), "o"@))
    } else if is_two(mora, 'ミ', 'ュ') {
        Some((Some("my"@), "u"@))
    } else if is_two(mora, 'ミ', 'ャ') {
        Some((Some("my"@), "a"@))
    } else if is_two(mora, 'ミ', 'ェ') {
        Some((Some("my"@), "e"@))
    } else if is_one(mora, 'ミ') {
        Some((Some("m"@), "i"@))
    } else if is_one(mora, 'マ') {
        Some((Some("m"@), "a"@))
    } else {
        None
    }
}

/// The rows from ポ to ハ.
pub open spec fn rows_ha(mora: Seq<char>) -> Option<(Option<Seq<char>>, Seq<char>)> {
    if is_one(mora, 'ポ') {
        Some((Some("p"@), "o"@))
    } else if is_one(mora, 'ボ') {
        Some((Some("b"@), "o"@))
    } else if is_one(mora, 'ホ') {
        Some((Some("h"@), "o"@))
    } else if is_one(mora, 'ペ') {
        Some((Some("p"@), "e"@))
    } else if is_one(mora, 'ベ') {
        Some((Some("b"@), "e"@))
    } else if is_one(mora, 'ヘ') {
        Some((Some("h"@), "e"@))
    } else if is_one(mora, 'プ') {
        Some((Some("p"@), "u"@))
    } else if is_one(mora, 'ブ') {
        Some((Some("b"@), "u"@))
    } else if is_two(mora, 'フ', 'ォ') {
        Some((Some("f"@), "o"@))
    } else if is_two(mora, 'フ', 'ェ') {
        Some((Some("f"@), "e"@))
    } else if is_two(mora, 'フ', 'ィ') {
        Some((Some("f"@), "i"@))
    } else if is_two(mora, 'フ', 'ァ') {
        Some((Some("f"@), "a"@))
    } else if is_one(mora, 'フ') {
        Some((Some("f"@), "u"@))
    } else if is_two(mora, 'ピ', 'ョ') {
        Some((Some("py"@), "o"@))
    } else if is_two(mora, 'ピ', 'ュ') {
        Some((Some("py"@), "u"@))
    } else if is_two(mora, 'ピ', 'ャ') {
        Some((Some("py"@), "a"@))
    } else if is_two(mora, 'ピ', 'ェ') {
        Some((Some("py"@), "e"@))
    } else if is_one(mora, 'ピ') {
        Some((Some("p"@), "i"@))
    } else if is_two(mora, 'ビ', 'ョ') {
        Some((Some("by"@), "o"@))
    } else if is_two(mora, 'ビ', 'ュ') {
        Some((Some("by"@), "u"@))
    } else if is_two(mora, 'ビ', 'ャ') {
        Some((Some("by"@), "a"@))
    } else if is_two(mora, 'ビ', 'ェ') {
        Some((Some("by"@), "e"@))
    } else if is_one(mora, 'ビ') {
        Some((Some("b"@), "i"@))
    } else if is_two(mora, 'ヒ', 'ョ') {
        Some((Some("hy"@), "o"@))
    } else if is_two(mora, 'ヒ', 'ュ') {
        Some((Some("hy"@), "u"@))
    } else if is_two(mora, 'ヒ', 'ャ') {
        Some((Some("hy"@), "a"@))
    } else if is_two(mora, 'ヒ', 'ェ') {
        Some((Some("hy"@), "e"@))
    } else if is_one(mora, 'ヒ') {
        Some((Some("h"@), "i"@))
    } else if is_one(mora, 'パ') {
        Some((Some("p"@), "a"@))
    } else if is_one(mora, 'バ') {
        Some((Some("b"@), "a"@))
    } else if is_one(mora, 'ハ') {
        Some((Some("h"@), "a"@))
    } else {
        None
    }
}

/// The rows from ノ to ナ.
pub open spec fn rows_na(mora: Seq<char>) -> Option<(Option<Seq<char>>, Seq<char>)> {
    if is_one(mora, 'ノ') {
        Some((Some("n"@), "o"@))
    } else if is_one(mora, 'ネ') {
        Some((Some("n"@), "e"@))
    } else if is_one(mora, 'ヌ') {
        Some((Some("n"@), "u"@))
    } else if is_two(mora, 'ニ', 'ョ') {
        Some((Some("ny"@), "o"@))
    } else if is_two(mora, 'ニ', 'ュ') {
        Some((Some("ny"@), "u"@))
    } else if is_two(mora, 'ニ', 'ャ') {
        Some((Some("ny"@), "a"@))
    } else if is_two(mora, 'ニ', 'ェ') {
        Some((Some("ny"@), "e"@))
    } else if is_one(mora, 'ニ') {
        Some((Some("n"@), "i"@))
    } else if is_one(mora, 'ナ') {
        Some((Some("n"@), "a"@))
    } else {
        None
    }
}

/// The rows from ドゥ to タ.
pub open spec fn rows_ta(mora: Seq<char>) -> Option<(Option<Seq<char>>, Seq<char>)> {
    if is_two(mora, 'ド', 'ゥ') {
        Some((Some("d"@), "u"@))
    } else if is_one(mora, 'ド') {
        Some((Some("d"@), "o"@))
    } else if is_two(mora, 'ト', 'ゥ') {
        Some((Some("t"@), "u"@))
    } else if is_one(mora, 'ト') {
        Some((Some("t"@), "o"@))
    } else if is_two(mora, 'デ', 'ョ') {
        Some((Some("dy"@), "o"@))
    } else if is_two(mora, 'デ', 'ュ') {
        Some((Some("dy"@), "u"@))
    } else if is_two(mora, 'デ', 'ャ') {
        Some((Some("dy"@), "a"@))
    } else if is_two(mora, 'デ', 'ェ') {
        Some((Some("dy"@), "e"@))
    } else if is_two(mora, 'デ', 'ィ') {
        Some((Some("d"@), "i"@))
    } else if is_one(mora, 'デ') {
        Some((Some("d"@), "e"@))
    } else if is_two(mora, 'テ', 'ョ') {
        Some((Some("ty"@), "o"@))
    } else if is_two(mora, 'テ', 'ュ') {
        Some((Some("ty"@), "u"@))
    } else if is_two(mora, 'テ', 'ャ') {
        Some((Some("ty"@), "a"@))
    } else if is_two(mora, 'テ', 'ィ') {
        Some((Some("t"@), "i"@))
    } else if is_one(mora, 'テ') {
        Some((Some("t"@), "e"@))
    } else if is_two(mora, 'ツ', 'ォ') {
        Some((Some("ts"@), "o"@))
    } else if is_two(mora, 'ツ', 'ェ') {
        Some((Some("ts"@), "e"@))
    } else if is_two(mora, 'ツ', 'ィ') {
        Some((Some("ts"@), "i"@))
    } else if is_two(mora, 'ツ', 'ァ') {
        Some((Some("ts"@), "a"@))
    } else if is_one(mora, 'ツ') {
        Some((Some("ts"@), "u"@))
    } else if is_one(mora, 'ッ') {
        Some((None, "q"@))
    } else if is_two(mora, 'チ', 'ョ') {
        Some((Some("ch"@), "o"@))
    } else if is_two(mora, 'チ', 'ュ') {
        Some((Some("ch"@), "u"@))
    } else if is_two(mora, 'チ', 'ャ') {
        Some((Some("ch"@), "a"@))
    } else if is_two(mora, 'チ', 'ェ') {
        Some((Some("ch"@), "e"@))
    } else if is_one(mora, 'チ') {
        Some((Some("ch"@), "i"@))
    } else if is_one(mora, 'ダ') {
        Some((Some("d"@), "a"@))
    } else if is_one(mora, 'タ') {
        Some((Some("t"@), "a"@))
    } else {
        None
    }
}

/// The rows from ゾ to サ.
pub open spec fn rows_sa(mora: Seq<char>) -> Option<(Option<Seq<char>>, Seq<char>)> {
    if is_one(mora, 'ゾ') {
        Some((Some("z"@), "o"@))
    } else if is_one(mora, 'ソ') {
        Some((Some("s"@), "o"@))
    } else if is_one(mora, 'ゼ') {
        Some((Some("z"@), "e"@))
    } else if is_one(mora, 'セ') {
        Some((Some("s"@), "e"@))
    } else if is_two(mora, 'ズ', 'ィ') {
        Some((Some("z"@), "i"@))
    } else if is_one(mora, 'ズ') {
        Some((Some("z"@), "u"@))
    } else if is_two(mora, 'ス', 'ィ') {
        Some((Some("s"@), "i"@))
    } else if is_one(mora, 'ス') {
        Some((Some("s"@), "u"@))
    } else if is_two(mora, 'ジ', 'ョ') {
        Some((Some("j"@), "o"@))
    } else if is_two(mora, 'ジ', 'ュ') {
        Some((Some("j"@), "u"@))
    } else if is_two(mora, 'ジ', 'ャ') {
        Some((Some("j"@), "a"@))
    } else if is_two(mora, 'ジ', 'ェ') {
        Some((Some("j"@), "e"@))
    } else if is_one(mora, 'ジ') {
        Some((Some("j"@), "i"@))
    } else if is_two(mora, 'シ', 'ョ') {
        Some((Some("sh"@), "o"@))
    } else if is_two(mora, 'シ', 'ュ') {
        Some((Some("sh"@), "u"@))
    } else if is_two(mora, 'シ', 'ャ') {
        Some((Some("sh"@), "a"@))
    } else if is_two(mora, 'シ', 'ェ') {
        Some((Some("sh"@), "e"@))
    } else if is_one(mora, 'シ') {
        Some((Some("sh"@), "i"@))
    } else if is_one(mora, 'ザ') {
        Some((Some("z"@), "a"@))
    } else if is_one(mora, 'サ') {
        Some((Some("s"@), "a"@))
    } else {
        None
    }
}

/// The rows from ゴ to カ.
pub open spec fn rows_ka(mora: Seq<char>) -> Option<(Option<Seq<char>>, Seq<char>)> {
    if is_one(mora, 'ゴ') {
        Some((Some("g"@), "o"@))
    } else if is_one(mora, 'コ') {
        Some((Some("k"@), "o"@))
    } else if is_one(mora, 'ゲ') {
        Some((Some("g"@), "e"@))
    } else if is_one(mora, 'ケ') {
        Some((Some("k"@), "e"@))
    } else if is_two(mora, 'グ', 'ヮ') {
        Some((Some("gw"@), "a"@))
    } else if is_one(mora, 'グ') {
        Some((Some("g"@), "u"@))
    } else if is_two(mora, 'ク', 'ヮ') {
        Some((Some("kw"@), "a"@))
    } else if is_one(mora, 'ク') {
        Some((Some("k"@), "u"@))
    } else if is_two(mora, 'ギ', 'ョ') {
        Some((Some("gy"@), "o"@))
    } else if is_two(mora, 'ギ', 'ュ') {
        Some((Some("gy"@), "u"@))
    } else if is_two(mora, 'ギ', 'ャ') {
        Some((Some("gy"@), "a"@))
    } else if is_two(mora, 'ギ', 'ェ') {
        Some((Some("gy"@), "e"@))
    } else if is_one(mora, 'ギ') {
        Some((Some("g"@), "i"@))
    } else if is_two(mora, 'キ', 'ョ') {
        Some((Some("ky"@), "o"@))
    } else if is_two(mora, 'キ', 'ュ') {
        Some((Some("ky"@), "u"@))
    } else if is_two(mora, 'キ', 'ャ') {
        Some((Some("ky"@), "a"@))
    } else if is_two(mora, 'キ', 'ェ') {
        Some((Some("ky"@), "e"@))
    } else if is_one(mora, 'キ') {
        Some((Some("k"@), "i"@))
    } else if is_one(mora, 'ガ') {
        Some((Some("g"@), "a"@))
    } else if is_one(mora, 'カ') {
        Some((Some("k"@), "a"@))
    } else {
        None
    }
}

/// The rows from オ to ア.
pub open spec fn rows_a(mora: Seq<char>) -> Option<(Option<Seq<char>>, Seq<char>)> {
    if is_one(mora, 'オ') {
        Some((None, "o"@))
    } else if is_one(mora, 'エ') {
        Some((None, "e"@))
    } else if is_two(mora, 'ウ', 'ォ') {
        Some((Some("w"@), "o"@))
    } else if is_two(mora, 'ウ', 'ェ') {
        Some((Some("w"@), "e"@))
    } else if is_two(mora, 'ウ', 'ィ') {
        Some((Some("w"@), "i"@))
    } else if is_one(mora, 'ウ') {
        Some((None, "u"@))
    } else if is_two(mora, 'イ', 'ェ') {
        Some((Some("y"@), "e"@))
    } else if is_one(mora, 'イ') {
        Some((None, "i"@))
    } else if is_one(mora, 'ア') {
        Some((None, "a"@))
    } else {
        None
    }
}

/// The rarer moras, from ヴョ to ァ.
pub open spec fn rows_extra(mora: Seq<char>) -> Option<(Option<Seq<char>>, Seq<char>)> {
    if is_two(mora, 'ヴ', 'ョ') {
        Some((Some("by"@), "o"@))
    } else if is_two(mora, 'ヴ', 'ュ') {
        Some((Some("by"@), "u"@))
    } else if is_two(mora, 'ヴ', 'ャ') {
        Some((Some("by"@), "a"@))
    } else if is_one(mora, 'ヲ') {
        Some((None, "o"@))
    } else if is_one(mora, 'ヱ') {
        Some((None, "e"@))
    } else if is_one(mora, 'ヰ') {
        Some((None, "i"@))
    } else if is_one(mora, 'ヮ') {
        Some((Some("w"@), "a"@))
    } else if is_one(mora, 'ョ') {
        Some((Some("y"@), "o"@))
    } else if is_one(mora, 'ュ') {
        Some((Some("y"@), "u"@))
    } else if is_one(mora, 'ヅ') {
        Some((Some("z"@), "u"@))
    } else if is_one(mora, 'ヂ') {
        Some((Some("j"@), "i"@))
    } else if is_one(mora, 'ヶ') {
        Some((Some("k"@), "e"@))
    } else if is_one(mora, 'ャ') {
        Some((Some("y"@), "a"@))
    } else if is_one(mora, 'ォ') {
        Some((None, "o"@))
    } else if is_one(mora, 'ェ') {
        Some((None, "e"@))
    } else if is_one(mora, 'ゥ') {
        Some((None, "u"@))
    } else if is_one(mora, 'ィ') {
        Some((None, "i"@))
    } else if is_one(mora, 'ァ') {
        Some((None, "a"@))
    } else {
        None
    }
}

/// The consonant, if any, and the vowel of a mora; `None` for what is no mora of
/// the table.
pub open spec fn phonemes_of(mora: Seq<char>) -> Option<(Option<Seq<char>>, Seq<char>)> {
    if rows_wa_ra(mora) is Some {
        rows_wa_ra(mora)
    } else if rows_ya_ma(mora) is Some {
        rows_ya_ma(mora)
    } else if rows_ha(mora) is Some {
        rows_ha(mora)
    } else if rows_na(mora) is Some {
        rows_na(mora)
    } else if rows_ta(mora) is Some {
        rows_ta(mora)
    } else if rows_sa(mora) is Some {
        rows_sa(mora)
    } else if rows_ka(mora) is Some {
        rows_ka(mora)
    } else if rows_a(mora) is Some {
        rows_a(mora)
    } else {
        rows_extra(mora)
    }
}

/// The rows from ヴォ to ラ.
fn find_wa_ra(mora: &str, n: usize, a: char, b: char) -> (entry: Option<(Option<&'static str>, &'static str)>)
    requires
        spells(mora@, n, a, b),
    ensures
        entry_view(entry) == rows_wa_ra(mora@),
{
    if n == 2 && a == 'ヴ' && b == 'ォ' {
        Some((Some("v"), "o"))
    } else if n == 2 && a == 'ヴ' && b == 'ェ' {
        Some((Some("v"), "e"))
    } else if n == 2 && a == 'ヴ' && b == 'ィ' {
        Some((Some("v"), "i"))
    } else if n == 2 && a == 'ヴ' && b == 'ァ' {
        Some((Some("v"), "a"))
    } else if n == 1 && a == 'ヴ' {
        Some((Some("v"), "u"))
    } else if n == 1 && a == 'ン' {
        Some((None, "N"))
    } else if n == 1 && a == 'ワ' {
        Some((Some("w"), "a"))
    } else if n == 1 && a == 'ロ' {
        Some((Some("r"), "o"))
    } else if n == 1 && a == 'レ' {
        Some((Some("r"), "e"))
    } else if n == 1 && a == 'ル' {
        Some((Some("r"), "u"))
    } else if n == 2 && a == 'リ' && b == 'ョ' {
        Some((Some("ry"), "o"))
    } else if n == 2 && a == 'リ' && b == 'ュ' {
        Some((Some("ry"), "u"))
    } else if n == 2 && a == 'リ' && b == 'ャ' {
        Some((Some("ry"), "a"))
    } else if n == 2 && a == 'リ' && b == 'ェ' {
        Some((Some("ry"), "e"))
    } else if n == 1 && a == 'リ' {
        Some((Some("r"), "i"))
    } else if n == 1 && a == 'ラ' {
        Some((Some("r"), "a"))
    } else {
        None
    }
}

/// The rows from ヨ to マ.
fn find_ya_ma(mora: &str, n: usize, a: char, b: char) -> (entry: Option<(Option<&'static str>, &'static str)>)
    requires
        spells(mora@, n, a, b),
    ensures
        entry_view(entry) == rows_ya_ma(mora@),
{
    if n == 1 && a == 'ヨ' {
        Some((Some("y"), "o"))
    } else if n == 1 && a == 'ユ' {
        Some((Some("y"), "u"))
    } else if n == 1 && a == 'ヤ' {
        Some((Some("y"), "a"))
    } else if n == 1 && a == 'モ' {
        Some((Some("m"), "o"))
    } else if n == 1 && a == 'メ' {
        Some((Some("m"), "e"))
    } else if n == 1 && a == 'ム' {
        Some((Some("m"), "u"))
    } else if n == 2 && a == 'ミ' && b == 'ョ' {
        Some((Some("my"), "o"))
    } else if n == 2 && a == 'ミ' && b == 'ュ' {
        Some((Some("my"), "u"))
    } else if n == 2 && a == 'ミ' && b == 'ャ' {
        Some((Some("my"), "a"))
    } else if n == 2 && a == 'ミ' && b == 'ェ' {
        Some((Some("my"), "e"))
    } else if n == 1 && a == 'ミ' {
        Some((Some("m"), "i"))
    } else if n == 1 && a == 'マ' {
        Some((Some("m"), "a"))
    } else {
        None
    }
}

/// The rows from ポ to ハ.
fn find_ha(mora: &str, n: usize, a: char, b: char) -> (entry: Option<(Option<&'static str>, &'static str)>)
    requires
        spells(mora@, n, a, b),
    ensures
        entry_view(entry) == rows_ha(mora@),
{
    if n == 1 && a == 'ポ' {
        Some((Some("p"), "o"))
    } else if n == 1 && a == 'ボ' {
        Some((Some("b"), "o"))
    } else if n == 1 && a == 'ホ' {
        Some((Some("h"), "o"))
    } else if n == 1 && a == 'ペ' {
        Some((Some("p"), "e"))
    } else if n == 1 && a == 'ベ' {
        Some((Some("b"), "e"))
    } else if n == 1 && a == 'ヘ' {
        Some((Some("h"), "e"))
    } else if n == 1 && a == 'プ' {
        Some((Some("p"), "u"))
    } else if n == 1 && a == 'ブ' {
        Some((Some("b"), "u"))
    } else if n == 2 && a == 'フ' && b == 'ォ' {
        Some((Some("f"), "o"))
    } else if n == 2 && a == 'フ' && b == 'ェ' {
        Some((Some("f"), "e"))
    } else if n == 2 && a == 'フ' && b == 'ィ' {
        Some((Some("f"), "i"))
    } else if n == 2 && a == 'フ' && b == 'ァ' {
        Some((Some("f"), "a"))
    } else if n == 1 && a == 'フ' {
        Some((Some("f"), "u"))
    } else if n == 2 && a == 'ピ' && b == 'ョ' {
        Some((Some("py"), "o"))
    } else if n == 2 && a == 'ピ' && b == 'ュ' {
        Some((Some("py"), "u"))
    } else if n == 2 && a == 'ピ' && b == 'ャ' {
        Some((Some("py"), "a"))
    } else if n == 2 && a == 'ピ' && b == 'ェ' {
        Some((Some("py"), "e"))
    } else if n == 1 && a == 'ピ' {
        Some((Some("p"), "i"))
    } else if n == 2 && a == 'ビ' && b == 'ョ' {
        Some((Some("by"), "o"))
    } else if n == 2 && a == 'ビ' && b == 'ュ' {
        Some((Some("by"), "u"))
    } else if n == 2 && a == 'ビ' && b == 'ャ' {
        Some((Some("by"), "a"))
    } else if n == 2 && a == 'ビ' && b == 'ェ' {
        Some((Some("by"), "e"))
    } else if n == 1 && a == 'ビ' {
        Some((Some("b"), "i"))
    } else if n == 2 && a == 'ヒ' && b == 'ョ' {
        Some((Some("hy"), "o"))
    } else if n == 2 && a == 'ヒ' && b == 'ュ' {
        Some((Some("hy"), "u"))
    } else if n == 2 && a == 'ヒ' && b == 'ャ' {
        Some((Some("hy"), "a"))
    } else if n == 2 && a == 'ヒ' && b == 'ェ' {
        Some((Some("hy"), "e"))
    } else if n == 1 && a == 'ヒ' {
        Some((Some("h"), "i"))
    } else if n == 1 && a == 'パ' {
        Some((Some("p"), "a"))
    } else if n == 1 && a == 'バ' {
        Some((Some("b"), "a"))
    } else if n == 1 && a == 'ハ' {
        Some((Some("h"), "a"))
    } else {
        None
    }
}

/// The rows from ノ to ナ.
fn find_na(mora: &str, n: usize, a: char, b: char) -> (entry: Option<(Option<&'static str>, &'static str)>)
    requires
        spells(mora@, n, a, b),
    ensures
        entry_view(entry) == rows_na(mora@),
{
    if n == 1 && a == 'ノ' {
        Some((Some("n"), "o"))
    } else if n == 1 && a == 'ネ' {
        Some((Some("n"), "e"))
    } else if n == 1 && a == 'ヌ' {
        Some((Some("n"), "u"))
    } else if n == 2 && a == 'ニ' && b == 'ョ' {
        Some((Some("ny"), "o"))
    } else if n == 2 && a == 'ニ' && b == 'ュ' {
        Some((Some("ny"), "u"))
    } else if n == 2 && a == 'ニ' && b == 'ャ' {
        Some((Some("ny"), "a"))
    } else if n == 2 && a == 'ニ' && b == 'ェ' {
        Some((Some("ny"), "e"))
    } else if n == 1 && a == 'ニ' {
        Some((Some("n"), "i"))
    } else if n == 1 && a == 'ナ' {
        Some((Some("n"), "a"))
    } else {
        None
    }
}

/// The rows from ドゥ to タ.
fn find_ta(mora: &str, n: usize, a: char, b: char) -> (entry: Option<(Option<&'static str>, &'static str)>)
    requires
        spells(mora@, n, a, b),
    ensures
        entry_view(entry) == rows_ta(mora@),
{
    if n == 2 && a == 'ド' && b == 'ゥ' {
        Some((Some("d"), "u"))
    } else if n == 1 && a == 'ド' {
        Some((Some("d"), "o"))
    } else if n == 2 && a == 'ト' && b == 'ゥ' {
        Some((Some("t"), "u"))
    } else if n == 1 && a == 'ト' {
        Some((Some("t"), "o"))
    } else if n == 2 && a == 'デ' && b == 'ョ' {
        Some((Some("dy"), "o"))
    } else if n == 2 && a == 'デ' && b == 'ュ' {
        Some((Some("dy"), "u"))
    } else if n == 2 && a == 'デ' && b == 'ャ' {
        Some((Some("dy"), "a"))
    } else if n == 2 && a == 'デ' && b == 'ェ' {
        Some((Some("dy"), "e"))
    } else if n == 2 && a == 'デ' && b == 'ィ' {
        Some((Some("d"), "i"))
    } else if n == 1 && a == 'デ' {
        Some((Some("d"), "e"))
    } else if n == 2 && a == 'テ' && b == 'ョ' {
        Some((Some("ty"), "o"))
    } else if n == 2 && a == 'テ' && b == 'ュ' {
        Some((Some("ty"), "u"))
    } else if n == 2 && a == 'テ' && b == 'ャ' {
        Some((Some("ty"), "a"))
    } else if n == 2 && a == 'テ' && b == 'ィ' {
        Some((Some("t"), "i"))
    } else if n == 1 && a == 'テ' {
        Some((Some("t"), "e"))
    } else if n == 2 && a == 'ツ' && b == 'ォ' {
        Some((Some("ts"), "o"))
    } else if n == 2 && a == 'ツ' && b == 'ェ' {
        Some((Some("ts"), "e"))
    } else if n == 2 && a == 'ツ' && b == 'ィ' {
        Some((Some("ts"), "i"))
    } else if n == 2 && a == 'ツ' && b == 'ァ' {
        Some((Some("ts"), "a"))
    } else if n == 1 && a == 'ツ' {
        Some((Some("ts"), "u"))
    } else if n == 1 && a == 'ッ' {
        Some((None, "q"))
    } else if n == 2 && a == 'チ' && b == 'ョ' {
        Some((Some("ch"), "o"))
    } else if n == 2 && a == 'チ' && b == 'ュ' {
        Some((Some("ch"), "u"))
    } else if n == 2 && a == 'チ' && b == 'ャ' {
        Some((Some("ch"), "a"))
    } else if n == 2 && a == 'チ' && b == 'ェ' {
        Some((Some("ch"), "e"))
    } else if n == 1 && a == 'チ' {
        Some((Some("ch"), "i"))
    } else if n == 1 && a == 'ダ' {
        Some((Some("d"), "a"))
    } else if n == 1 && a == 'タ' {
        Some((Some("t"), "a"))
    } else {
        None
    }
}

/// The rows from ゾ to サ.
fn find_sa(mora: &str, n: usize, a: char, b: char) -> (entry: Option<(Option<&'static str>, &'static str)>)
    requires
        spells(mora@, n, a, b),
    ensures
        entry_view(entry) == rows_sa(mora@),
{
    if n == 1 && a == 'ゾ' {
        Some((Some("z"), "o"))
    } else if n == 1 && a == 'ソ' {
        Some((Some("s"), "o"))
    } else if n == 1 && a == 'ゼ' {
        Some((Some("z"), "e"))
    } else if n == 1 && a == 'セ' {
        Some((Some("s"), "e"))
    } else if n == 2 && a == 'ズ' && b == 'ィ' {
        Some((Some("z"), "i"))
    } else if n == 1 && a == 'ズ' {
        Some((Some("z"), "u"))
    } else if n == 2 && a == 'ス' && b == 'ィ' {
        Some((Some("s"), "i"))
    } else if n == 1 && a == 'ス' {
        Some((Some("s"), "u"))
    } else if n == 2 && a == 'ジ' && b == 'ョ' {
        Some((Some("j"), "o"))
    } else if n == 2 && a == 'ジ' && b == 'ュ' {
        Some((Some("j"), "u"))
    } else if n == 2 && a == 'ジ' && b == 'ャ' {
        Some((Some("j"), "a"))
    } else if n == 2 && a == 'ジ' && b == 'ェ' {
        Some((Some("j"), "e"))
    } else if n == 1 && a == 'ジ' {
        Some((Some("j"), "i"))
    } else if n == 2 && a == 'シ' && b == 'ョ' {
        Some((Some("sh"), "o"))
    } else if n == 2 && a == 'シ' && b == 'ュ' {
        Some((Some("sh"), "u"))
    } else if n == 2 && a == 'シ' && b == 'ャ' {
        Some((Some("sh"), "a"))
    } else if n == 2 && a == 'シ' && b == 'ェ' {
        Some((Some("sh"), "e"))
    } else if n == 1 && a == 'シ' {
        Some((Some("sh"), "i"))
    } else if n == 1 && a == 'ザ' {
        Some((Some("z"), "a"))
    } else if n == 1 && a == 'サ' {
        Some((Some("s"), "a"))
    } else {
        None
    }
}

/// The rows from ゴ to カ.
fn find_ka(mora: &str, n: usize, a: char, b: char) -> (entry: Option<(Option<&'static str>, &'static str)>)
    requires
        spells(mora@, n, a, b),
    ensures
        entry_view(entry) == rows_ka(mora@),
{
    if n == 1 && a == 'ゴ' {
        Some((Some("g"), "o"))
    } else if n == 1 && a == 'コ' {
        Some((Some("k"), "o"))
    } else if n == 1 && a == 'ゲ' {
        Some((Some("g"), "e"))
    } else if n == 1 && a == 'ケ' {
        Some((Some("k"), "e"))
    } else if n == 2 && a == 'グ' && b == 'ヮ' {
        Some((Some("gw"), "a"))
    } else if n == 1 && a == 'グ' {
        Some((Some("g"), "u"))
    } else if n == 2 && a == 'ク' && b == 'ヮ' {
        Some((Some("kw"), "a"))
    } else if n == 1 && a == 'ク' {
        Some((Some("k"), "u"))
    } else if n == 2 && a == 'ギ' && b == 'ョ' {
        Some((Some("gy"), "o"))
    } else if n == 2 && a == 'ギ' && b == 'ュ' {
        Some((Some("gy"), "u"))
    } else if n == 2 && a == 'ギ' && b == 'ャ' {
        Some((Some("gy"), "a"))
    } else if n == 2 && a == 'ギ' && b == 'ェ' {
        Some((Some("gy"), "e"))
    } else if n == 1 && a == 'ギ' {
        Some((Some("g"), "i"))
    } else if n == 2 && a == 'キ' && b == 'ョ' {
        Some((Some("ky"), "o"))
    } else if n == 2 && a == 'キ' && b == 'ュ' {
        Some((Some("ky"), "u"))
    } else if n == 2 && a == 'キ' && b == 'ャ' {
        Some((Some("ky"), "a"))
    } else if n == 2 && a == 'キ' && b == 'ェ' {
        Some((Some("ky"), "e"))
    } else if n == 1 && a == 'キ' {
        Some((Some("k"), "i"))
    } else if n == 1 && a == 'ガ' {
        Some((Some("g"), "a"))
    } else if n == 1 && a == 'カ' {
        Some((Some("k"), "a"))
    } else {
        None
    }
}

/// The rows from オ to ア.
fn find_a(mora: &str, n: usize, a: char, b: char) -> (entry: Option<(Option<&'static str>, &'static str)>)
    requires
        spells(mora@, n, a, b),
    ensures
        entry_view(entry) == rows_a(mora@),
{
    if n == 1 && a == 'オ' {
        Some((None, "o"))
    } else if n == 1 && a == 'エ' {
        Some((None, "e"))
    } else if n == 2 && a == 'ウ' && b == 'ォ' {
        Some((Some("w"), "o"))
    } else if n == 2 && a == 'ウ' && b == 'ェ' {
        Some((Some("w"), "e"))
    } else if n == 2 && a == 'ウ' && b == 'ィ' {
        Some((Some("w"), "i"))
    } else if n == 1 && a == 'ウ' {
        Some((None, "u"))
    } else if n == 2 && a == 'イ' && b == 'ェ' {
        Some((Some("y"), "e"))
    } else if n == 1 && a == 'イ' {
        Some((None, "i"))
    } else if n == 1 && a == 'ア' {
        Some((None, "a"))
    } else {
        None
    }
}

/// The rarer moras, from ヴョ to ァ.
fn find_extra(mora: &str, n: usize, a: char, b: char) -> (entry: Option<(Option<&'static str>, &'static str)>)
    requires
        spells(mora@, n, a, b),
    ensures
        entry_view(entry) == rows_extra(mora@),
{
    if n == 2 && a == 'ヴ' && b == 'ョ' {
        Some((Some("by"), "o"))
    } else if n == 2 && a == 'ヴ' && b == 'ュ' {
        Some((Some("by"), "u"))
    } else if n == 2 && a == 'ヴ' && b == 'ャ' {
        Some((Some("by"), "a"))
    } else if n == 1 && a == 'ヲ' {
        Some((None, "o"))
    } else if n == 1 && a == 'ヱ' {
        Some((None, "e"))
    } else if n == 1 && a == 'ヰ' {
        Some((None, "i"))
    } else if n == 1 && a == 'ヮ' {
        Some((Some("w"), "a"))
    } else if n == 1 && a == 'ョ' {
        Some((Some("y"), "o"))
    } else if n == 1 && a == 'ュ' {
        Some((Some("y"), "u"))
    } else if n == 1 && a == 'ヅ' {
        Some((Some("z"), "u"))
    } else if n == 1 && a == 'ヂ' {
        Some((Some("j"), "i"))
    } else if n == 1 && a == 'ヶ' {
        Some((Some("k"), "e"))
    } else if n == 1 && a == 'ャ' {
        Some((Some("y"), "a"))
    } else if n == 1 && a == 'ォ' {
        Some((None, "o"))
    } else if n == 1 && a == 'ェ' {
        Some((None, "e"))
    } else if n == 1 && a == 'ゥ' {
        Some((None, "u"))
    } else if n == 1 && a == 'ィ' {
        Some((None, "i"))
    } else if n == 1 && a == 'ァ' {
        Some((None, "a"))
    } else {
        None
    }
}

/// Looks a mora up in the table.
pub fn mora_phonemes(mora: &str) -> (entry: Option<(Option<&'static str>, &'static str)>)
    ensures
        entry_view(entry) == phonemes_of(mora@),
{
    let n: usize = mora.unicode_len();
    let a: char = if n >= 1 {
        mora.get_char(0)
    } else {
        ' '
    };
    let b: char = if n >= 2 {
        mora.get_char(1)
    } else {
        ' '
    };
    let found = find_wa_ra(mora, n, a, b);
    if found.is_some() {
        return found;
    }
    let found = find_ya_ma(mora, n, a, b);
    if found.is_some() {
        return found;
    }
    let found = find_ha(mora, n, a, b);
    if found.is_some() {
        return found;
    }
    let found = find_na(mora, n, a, b);
    if found.is_some() {
        return found;
    }
    let found = find_ta(mora, n, a, b);
    if found.is_some() {
        return found;
    }
    let found = find_sa(mora, n, a, b);
    if found.is_some() {
        return found;
    }
    let found = find_ka(mora, n, a, b);
    if found.is_some() {
        return found;
    }
    let found = find_a(mora, n, a, b);
    if found.is_some() {
        return found;
    }
    find_extra(mora, n, a, b)
}

} // verus!
