//! Text helpers shared by the request builders and the message formatters.

use vstd::prelude::*;
use vstd::string::*;

verus! {

/// The single decimal digit `d` as a character.
pub open spec fn digit_char(d: nat) -> char
    recommends
        d < 10,
{
    if d == 0 {
        '0'
    } else if d == 1 {
        '1'
    } else if d == 2 {
        '2'
    } else if d == 3 {
        '3'
    } else if d == 4 {
        '4'
    } else if d == 5 {
        '5'
    } else if d == 6 {
        '6'
    } else if d == 7 {
        '7'
    } else if d == 8 {
        '8'
    } else {
        '9'
    }
}

/// The decimal rendering of `n`, most significant digit first, without
/// leading zeros (`0` renders as "0").
pub open spec fn decimal(n: nat) -> Seq<char>
    decreases n,
{
    if n < 10 {
        seq![digit_char(n)]
    } else {
        decimal(n / 10).push(digit_char(n % 10))
    }
}

/// The decimal rendering of an integer of either sign.
pub open spec fn signed_decimal(n: int) -> Seq<char> {
    if n < 0 {
        "-"@ + decimal((-n) as nat)
    } else {
        decimal(n as nat)
    }
}

fn digit_str(d: u64) -> (s: &'static str)
    requires
        d < 10,
    ensures
        s@ == seq![digit_char(d as nat)],
{
    proof {
        reveal_strlit("0");
        reveal_strlit("1");
        reveal_strlit("2");
        reveal_strlit("3");
        reveal_strlit("4");
        reveal_strlit("5");
        reveal_strlit("6");
        reveal_strlit("7");
        reveal_strlit("8");
        reveal_strlit("9");
    }
    let s = if d == 0 {
        "0"
    } else if d == 1 {
        "1"
    } else if d == 2 {
        "2"
    } else if d == 3 {
        "3"
    } else if d == 4 {
        "4"
    } else if d == 5 {
        "5"
    } else if d == 6 {
        "6"
    } else if d == 7 {
        "7"
    } else if d == 8 {
        "8"
    } else {
        "9"
    };
    assert(s@ =~= seq![digit_char(d as nat)]);
    s
}

/// Renders `n` in decimal.
pub fn decimal_string(n: u64) -> (s: String)
    ensures
        s@ == decimal(n as nat),
    decreases n,
{
    if n < 10 {
        String::from_str(digit_str(n))
    } else {
        let mut s = decimal_string(n / 10);
        s.append(digit_str(n % 10));
        assert(s@ =~= decimal((n / 10) as nat).push(digit_char((n % 10) as nat)));
        s
    }
}

/// Renders `n` in decimal, with a minus sign if it is negative.
pub fn signed_decimal_string(n: i64) -> (s: String)
    ensures
        s@ == signed_decimal(n as int),
{
    if n < 0 {
        let magnitude: u64 = if n == i64::MIN {
            9223372036854775808
        } else {
            (-n) as u64
        };
        join2("-", decimal_string(magnitude).as_str())
    } else {
        decimal_string(n as u64)
    }
}

/// Whether two strings hold the same characters.
pub fn same_text(a: &str, b: &str) -> (r: bool)
    ensures
        r == (a@ == b@),
{
    let x = String::from_str(a);
    let y = String::from_str(b);
    x == y
}

/// `a` followed by `b`.
pub fn join2(a: &str, b: &str) -> (s: String)
    ensures
        s@ == a@ + b@,
{
    let mut s = String::from_str(a);
    s.append(b);
    s
}

/// `a`, `b` and `c` in a row.
pub fn join3(a: &str, b: &str, c: &str) -> (s: String)
    ensures
        s@ == a@ + b@ + c@,
{
    let mut s = String::from_str(a);
    s.append(b);
    s.append(c);
    s
}

/// `a`, `b`, `c` and `d` in a row.
pub fn join4(a: &str, b: &str, c: &str, d: &str) -> (s: String)
    ensures
        s@ == a@ + b@ + c@ + d@,
{
    let mut s = String::from_str(a);
    s.append(b);
    s.append(c);
    s.append(d);
    s
}

/// The characters of an optional string.
pub open spec fn opt_text(o: Option<String>) -> Option<Seq<char>> {
    match o {
        Some(s) => Some(s@),
        None => None,
    }
}

/// The characters of each string of a list.
pub open spec fn texts(v: Seq<String>) -> Seq<Seq<char>> {
    v.map_values(|s: String| s@)
}

/// A copy of an optional string.
pub fn copy_opt(o: &Option<String>) -> (r: Option<String>)
    ensures
        opt_text(r) == opt_text(*o),
{
    match o {
        Some(s) => Some(s.clone()),
        None => None,
    }
}

/// Whether `text` ends with `suffix`.
pub open spec fn spec_ends_with(text: Seq<char>, suffix: Seq<char>) -> bool {
    text.len() >= suffix.len() && text.subrange(text.len() - suffix.len(), text.len() as int)
        == suffix
}

/// `text` with every trailing repetition of `suffix` taken off.
pub open spec fn spec_trim_end(text: Seq<char>, suffix: Seq<char>) -> Seq<char>
    decreases text.len(),
{
    if suffix.len() > 0 && spec_ends_with(text, suffix) {
        spec_trim_end(text.subrange(0, text.len() - suffix.len()), suffix)
    } else {
        text
    }
}

/// The order of strings: character by character, by code point; a proper
/// prefix comes before what it is a prefix of.
pub open spec fn text_le(a: Seq<char>, b: Seq<char>) -> bool
    decreases a.len(),
{
    if a.len() == 0 {
        true
    } else if b.len() == 0 {
        false
    } else if a[0] != b[0] {
        (a[0] as u32) < (b[0] as u32)
    } else {
        text_le(a.skip(1), b.skip(1))
    }
}

/// Whether no string of the list comes after a later one.
pub open spec fn ascending(list: Seq<Seq<char>>) -> bool {
    forall|i: int, j: int| 0 <= i < j < list.len() ==> text_le(list[i], list[j])
}

/// Whether every string of the list comes before all later ones and differs
/// from them.
pub open spec fn strictly_ascending(list: Seq<Seq<char>>) -> bool {
    forall|i: int, j: int|
        0 <= i < j < list.len() ==> text_le(list[i], list[j]) && list[i] != list[j]
}

/// The list without the strings that repeat the one just before them.
pub open spec fn spec_dedup(list: Seq<Seq<char>>) -> Seq<Seq<char>>
    decreases list.len(),
{
    if list.len() <= 1 {
        list
    } else if list.last() == list[list.len() - 2] {
        spec_dedup(list.drop_last())
    } else {
        spec_dedup(list.drop_last()).push(list.last())
    }
}

/// Calls `str::ends_with` with a string pattern: whether the pattern matches
/// a suffix of the string.
#[verifier::external_body]
pub(crate) fn ends_with(text: &str, suffix: &str) -> (r: bool)
    ensures
        r == spec_ends_with(text@, suffix@),
{
    text.ends_with(suffix)
}

/// Calls `str::trim_end_matches` with a string pattern: the string with all
/// suffixes that match the pattern repeatedly removed. An empty pattern is
/// left out.
#[verifier::external_body]
pub(crate) fn trim_end_matches<'a>(text: &'a str, suffix: &str) -> (r: &'a str)
    requires
        suffix@.len() > 0,
    ensures
        r@ == spec_trim_end(text@, suffix@),
{
    text.trim_end_matches(suffix)
}

/// Calls `sort` on a vector of strings: the same strings, in ascending
/// order, strings being ordered as `text_le` says.
#[verifier::external_body]
pub(crate) fn sort_texts(list: &mut Vec<String>)
    ensures
        texts(final(list)@).to_multiset() == texts(old(list)@).to_multiset(),
        ascending(texts(final(list)@)),
{
    list.sort();
}

/// Calls `Vec::dedup` on a vector of strings: consecutive repeated strings
/// are removed.
#[verifier::external_body]
pub(crate) fn dedup_texts(list: &mut Vec<String>)
    ensures
        texts(final(list)@) == spec_dedup(texts(old(list)@)),
{
    list.dedup();
}

/// Two strings that each come no later than the other are the same string.
pub proof fn lemma_text_le_antisymmetric(a: Seq<char>, b: Seq<char>)
    requires
        text_le(a, b),
        text_le(b, a),
    ensures
        a == b,
    decreases a.len(),
{
    if a.len() == 0 {
        assert(b.len() == 0);
        assert(a =~= b);
    } else {
        assert(b.len() > 0);
        assert(a[0] == b[0]);
        lemma_text_le_antisymmetric(a.skip(1), b.skip(1));
        assert(a =~= seq![a[0]] + a.skip(1));
        assert(b =~= seq![b[0]] + b.skip(1));
    }
}

/// Taking the repeats out of an ascending list leaves the same strings, now
/// strictly ascending.
pub proof fn lemma_dedup_of_ascending(list: Seq<Seq<char>>)
    requires
        ascending(list),
    ensures
        strictly_ascending(spec_dedup(list)),
        forall|t: Seq<char>| spec_dedup(list).contains(t) <==> list.contains(t),
    decreases list.len(),
{
    let kept = spec_dedup(list);
    if list.len() <= 1 {
    } else {
        let shorter = list.drop_last();
        let before = spec_dedup(shorter);
        let x = list.last();
        let y = list[list.len() - 2];
        assert(ascending(shorter)) by {
            assert forall|i: int, j: int| 0 <= i < j < shorter.len() implies text_le(
                shorter[i],
                shorter[j],
            ) by {
                assert(shorter[i] == list[i] && shorter[j] == list[j]);
            }
        }
        lemma_dedup_of_ascending(shorter);
        assert(shorter.last() == y);
        assert(shorter.contains(y));
        assert forall|t: Seq<char>| kept.contains(t) <==> list.contains(t) by {
            if list.contains(t) {
                let k = choose|k: int| 0 <= k < list.len() && list[k] == t;
                if k < shorter.len() {
                    assert(shorter[k] == t);
                    assert(shorter.contains(t));
                    assert(before.contains(t));
                    let m = choose|m: int| 0 <= m < before.len() && before[m] == t;
                    if x != y {
                        assert(kept[m] == t);
                    }
                } else {
                    assert(t == x);
                    if x == y {
                        assert(before.contains(y));
                    } else {
                        assert(kept[kept.len() - 1] == x);
                    }
                }
            }
            if kept.contains(t) {
                let m = choose|m: int| 0 <= m < kept.len() && kept[m] == t;
                if x != y && m == before.len() {
                    assert(list[list.len() - 1] == t);
                } else {
                    assert(before[m] == t);
                    assert(before.contains(t));
                    assert(shorter.contains(t));
                    let k = choose|k: int| 0 <= k < shorter.len() && shorter[k] == t;
                    assert(list[k] == t);
                }
            }
        }
        if x != y {
            assert forall|i: int, j: int| 0 <= i < j < kept.len() implies text_le(kept[i], kept[j])
                && kept[i] != kept[j] by {
                if j < before.len() {
                    assert(kept[i] == before[i] && kept[j] == before[j]);
                } else {
                    assert(kept[j] == x);
                    assert(kept[i] == before[i]);
                    assert(before.contains(before[i]));
                    assert(shorter.contains(before[i]));
                    let k = choose|k: int| 0 <= k < shorter.len() && shorter[k] == before[i];
                    assert(list[k] == before[i]);
                    assert(text_le(list[k], list[list.len() - 1]));
                    if before[i] == x {
                        // Then x sits at k, before y, and y before x again.
                        assert(text_le(list[k], list[list.len() - 2])) by {
                            if k < list.len() - 2 {
                            } else {
                                assert(list[k] == y);
                            }
                        }
                        assert(text_le(list[list.len() - 2], list[list.len() - 1]));
                        lemma_text_le_antisymmetric(x, y);
                    }
                }
            }
        }
    }
}

} // verus!
