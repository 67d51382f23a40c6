use vstd::prelude::*;
use vstd::string::*;
use crate::errors::views;
use crate::patterns::{is_date_token, is_period_label, Patterns};

verus! {

/// `s` with leading and trailing whitespace removed.
pub uninterp spec fn trimmed(s: Seq<char>) -> Seq<char>;

/// Relies on `str::trim`: the result depends on the characters of `s` alone.
#[verifier::external_body]
fn trim_text(s: &str) -> (r: String)
    ensures
        r@ == trimmed(s@),
{
    s.trim().to_string()
}

/// The cleaned tokens of a row's text nodes: each node trimmed, empty results
/// dropped, order kept.
pub open spec fn cleaned(nodes: Seq<Seq<char>>) -> Seq<Seq<char>>
    decreases nodes.len(),
{
    if nodes.len() == 0 {
        Seq::empty()
    } else {
        let prev = cleaned(nodes.drop_last());
        let t = trimmed(nodes.last());
        if t.len() == 0 {
            prev
        } else {
            prev.push(t)
        }
    }
}

/// The cleaned tokens that are a date or a period label, order kept.
pub open spec fn classified(tokens: Seq<Seq<char>>) -> Seq<Seq<char>>
    decreases tokens.len(),
{
    if tokens.len() == 0 {
        Seq::empty()
    } else {
        let prev = classified(tokens.drop_last());
        let t = tokens.last();
        if is_date_token(t) || is_period_label(t) {
            prev.push(t)
        } else {
            prev
        }
    }
}

/// All text nodes of a row joined with no separator.
pub open spec fn flatten(nodes: Seq<Seq<char>>) -> Seq<char>
    decreases nodes.len(),
{
    if nodes.len() == 0 {
        Seq::empty()
    } else {
        flatten(nodes.drop_last()) + nodes.last()
    }
}

/// `needle` occurs in `hay` as a contiguous run of characters.
pub open spec fn contains_seq(hay: Seq<char>, needle: Seq<char>) -> bool {
    exists|i: int| 0 <= i <= hay.len() - needle.len() && #[trigger] hay.subrange(i, i + needle.len()) == needle
}

/// Trims every text node and drops those left empty.
pub fn clean_tokens(nodes: &Vec<String>) -> (r: Vec<String>)
    ensures
        views(r@) == cleaned(views(nodes@)),
{
    let mut out: Vec<String> = Vec::new();
    let mut i: usize = 0;
    while i < nodes.len()
        invariant
            i <= nodes.len(),
            views(out@) == cleaned(views(nodes@.subrange(0, i as int))),
        decreases nodes.len() - i,
    {
        let t = trim_text(nodes[i].as_str());
        proof {
            assert(nodes@.subrange(0, i + 1).drop_last() =~= nodes@.subrange(0, i as int));
            assert(views(nodes@.subrange(0, i + 1)).drop_last() =~= views(nodes@.subrange(0, i as int)));
        }
        if t.unicode_len() != 0 {
            let ghost before = out@;
            out.push(t);
            assert(views(out@) =~= views(before).push(trimmed(nodes@[i as int]@)));
        }
        i += 1;
    }
    assert(nodes@.subrange(0, nodes.len() as int) =~= nodes@);
    out
}

/// Keeps the cleaned tokens that are a date or a period label.
pub fn classify_tokens(tokens: &Vec<String>, patterns: &Patterns) -> (r: Vec<String>)
    requires
        patterns.wf(),
    ensures
        views(r@) == classified(views(tokens@)),
{
    let mut out: Vec<String> = Vec::new();
    let mut i: usize = 0;
    while i < tokens.len()
        invariant
            i <= tokens.len(),
            patterns.wf(),
            views(out@) == classified(views(tokens@.subrange(0, i as int))),
        decreases tokens.len() - i,
    {
        let t = tokens[i].as_str();
        proof {
            assert(views(tokens@.subrange(0, i + 1)).drop_last() =~= views(tokens@.subrange(0, i as int)));
        }
        if patterns.date.is_match(t) || patterns.period.is_match(t) {
            let ghost before = out@;
            out.push(tokens[i].clone());
            assert(views(out@) =~= views(before).push(tokens@[i as int]@));
        }
        i += 1;
    }
    assert(tokens@.subrange(0, tokens.len() as int) =~= tokens@);
    out
}

/// The characters of all text nodes, joined with no separator.
pub fn flatten_nodes(nodes: &Vec<String>) -> (r: Vec<char>)
    ensures
        r@ == flatten(views(nodes@)),
{
    let mut out: Vec<char> = Vec::new();
    let mut i: usize = 0;
    while i < nodes.len()
        invariant
            i <= nodes.len(),
            out@ == flatten(views(nodes@.subrange(0, i as int))),
        decreases nodes.len() - i,
    {
        let node = nodes[i].as_str();
        let n = node.unicode_len();
        let mut k: usize = 0;
        while k < n
            invariant
                k <= n,
                n == node@.len(),
                out@ == flatten(views(nodes@.subrange(0, i as int))) + node@.subrange(0, k as int),
            decreases n - k,
        {
            let c = node.get_char(k);
            out.push(c);
            assert(node@.subrange(0, k + 1) =~= node@.subrange(0, k as int).push(c));
            k += 1;
        }
        proof {
            assert(node@.subrange(0, n as int) =~= node@);
            assert(views(nodes@.subrange(0, i + 1)).drop_last() =~= views(nodes@.subrange(0, i as int)));
        }
        i += 1;
    }
    assert(nodes@.subrange(0, nodes.len() as int) =~= nodes@);
    out
}

/// The characters of `s`, in order.
pub fn chars_of(s: &str) -> (r: Vec<char>)
    ensures
        r@ == s@,
{
    let n = s.unicode_len();
    let mut out: Vec<char> = Vec::new();
    let mut k: usize = 0;
    while k < n
        invariant
            k <= n,
            n == s@.len(),
            out@ == s@.subrange(0, k as int),
        decreases n - k,
    {
        out.push(s.get_char(k));
        assert(out@ =~= s@.subrange(0, k + 1));
        k += 1;
    }
    out
}

/// Whether `needle` occurs in `hay` as a contiguous run.
pub fn contains_chars(hay: &Vec<char>, needle: &Vec<char>) -> (r: bool)
    ensures
        r == contains_seq(hay@, needle@),
{
    let n = needle.len();
    if n > hay.len() {
        assert forall|i: int| 0 <= i <= hay@.len() - needle@.len() implies
            #[trigger] hay@.subrange(i, i + needle@.len()) != needle@ by {};
        return false;
    }
    let mut i: usize = 0;
    while i <= hay.len() - n
        invariant
            n == needle@.len(),
            n <= hay@.len(),
            i <= hay@.len() - n + 1,
            forall|j: int| 0 <= j < i ==> #[trigger] hay@.subrange(j, j + n) != needle@,
        decreases hay.len() + 1 - i,
    {
        let mut k: usize = 0;
        let mut same = true;
        assert(hay@.subrange(i as int, i as int) =~= needle@.subrange(0, 0));
        while k < n && same
            invariant
                n == needle@.len(),
                i + n <= hay@.len(),
                k <= n,
                same == (hay@.subrange(i as int, i + k) == needle@.subrange(0, k as int)),
            decreases n - k,
        {
            assert(i + k < hay.len());
            if hay[i + k] != needle[k] {
                same = false;
                assert(hay@.subrange(i as int, i + k + 1)[k as int] != needle@.subrange(0, k + 1)[k as int]);
            } else {
                assert(hay@.subrange(i as int, i + k + 1) =~= hay@.subrange(i as int, i + k as int).push(hay@[i + k]));
                assert(needle@.subrange(0, k + 1) =~= needle@.subrange(0, k as int).push(needle@[k as int]));
            }
            k += 1;
        }
        if same {
            assert(needle@.subrange(0, n as int) =~= needle@);
            assert(hay@.subrange(i as int, i + needle@.len()) == needle@);
            return true;
        }
        proof {
            if k < n {
                assert(hay@.subrange(i as int, i + k) != needle@.subrange(0, k as int));
            }
            if hay@.subrange(i as int, i + n) == needle@ {
                assert(hay@.subrange(i as int, i + k) =~= hay@.subrange(i as int, i + n).subrange(0, k as int));
            }
        }
        i += 1;
    }
    false
}

/// An ASCII decimal digit.
pub open spec fn is_ascii_digit(c: char) -> bool {
    '0' <= c <= '9'
}

/// Ten to the power `k`.
pub open spec fn pow10(k: nat) -> int
    decreases k,
{
    if k == 0 {
        1
    } else {
        10 * pow10((k - 1) as nat)
    }
}

/// The number written by a string of decimal digits, most significant first.
pub open spec fn digits_value(s: Seq<char>) -> int
    decreases s.len(),
{
    if s.len() == 0 {
        0
    } else {
        digits_value(s.drop_last()) * 10 + (s.last() as u32 - '0' as u32)
    }
}

/// The value of a decimal numeral of one to nine ASCII digits (so that it fits
/// an `i32`); `None` for any other text.
pub open spec fn decimal_value(s: Seq<char>) -> Option<i32> {
    if 1 <= s.len() <= 9 && forall|i: int| 0 <= i < s.len() ==> #[trigger] is_ascii_digit(s[i]) {
        Some(digits_value(s) as i32)
    } else {
        None
    }
}

proof fn lemma_pow10_bound(k: nat)
    requires
        k <= 9,
    ensures
        pow10(k) <= 1_000_000_000,
    decreases 9 - k,
{
    if k < 9 {
        lemma_pow10_bound(k + 1);
    } else {
        reveal_with_fuel(pow10, 10);
    }
}

/// Reads a decimal numeral of one to nine ASCII digits.
pub fn parse_decimal(s: &str) -> (r: Option<i32>)
    ensures
        r == decimal_value(s@),
{
    let chars = chars_of(s);
    let n = chars.len();
    if n == 0 || n > 9 {
        return None;
    }
    let mut v: i32 = 0;
    let mut k: usize = 0;
    while k < n
        invariant
            n == s@.len(),
            1 <= n <= 9,
            chars@ == s@,
            k <= n,
            0 <= v,
            v as int == digits_value(s@.subrange(0, k as int)),
            v < pow10(k as nat),
            forall|j: int| 0 <= j < k ==> #[trigger] is_ascii_digit(s@[j]),
        decreases n - k,
    {
        let c = chars[k];
        if !('0' <= c && c <= '9') {
            assert(!is_ascii_digit(s@[k as int]));
            return None;
        }
        proof {
            lemma_pow10_bound((k + 1) as nat);
            assert(s@.subrange(0, k + 1).drop_last() =~= s@.subrange(0, k as int));
        }
        let d = (c as u32 - '0' as u32) as i32;
        v = v * 10 + d;
        k += 1;
    }
    assert(s@.subrange(0, n as int) =~= s@);
    Some(v)
}

/// A token that is neither a date nor a period label, inserted anywhere, leaves
/// the classified tokens unchanged.
pub proof fn lemma_unclassified_insert(tokens: Seq<Seq<char>>, i: int, t: Seq<char>)
    requires
        0 <= i <= tokens.len(),
        !is_date_token(t),
        !is_period_label(t),
    ensures
        classified(tokens.insert(i, t)) == classified(tokens),
    decreases tokens.len(),
{
    if i == tokens.len() {
        assert(tokens.insert(i, t).drop_last() =~= tokens);
    } else {
        assert(tokens.insert(i, t).drop_last() =~= tokens.drop_last().insert(i, t));
        assert(tokens.insert(i, t).last() == tokens.last());
        lemma_unclassified_insert(tokens.drop_last(), i, t);
    }
}

} // verus!
