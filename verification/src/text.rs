//! Text helpers: comparison, decimal numbers, and splitting a line into words.

use vstd::prelude::*;
use vstd::string::StrSliceExecFns;
use vstd::string::StringExecFns;
use vstd::utf8::encode_utf8;
use vstd::utf8::encode_utf8_decode_utf8;

verus! {

/// Whether `c` counts as white space, as `char::is_whitespace` decides it.
pub uninterp spec fn is_space(c: char) -> bool;

/// The upper-case form of a text, as `str::to_uppercase` produces it.
pub uninterp spec fn upper(s: Seq<char>) -> Seq<char>;

/// Calls `char::is_whitespace`; the result is the value that [`is_space`] names.
#[verifier::external_body]
fn char_is_space(c: char) -> (r: bool)
    ensures
        r == is_space(c),
{
    c.is_whitespace()
}

/// Calls `str::to_uppercase`; the result is the text that [`upper`] names.
#[verifier::external_body]
pub(crate) fn to_upper(s: &str) -> (r: String)
    ensures
        r@ == upper(s@),
{
    s.to_uppercase()
}

/// Whether two texts hold the same characters.
pub fn same_text(a: &str, b: &str) -> (r: bool)
    ensures
        r == (a@ == b@),
{
    let x = a.as_bytes();
    let y = b.as_bytes();
    proof {
        encode_utf8_decode_utf8(a@);
        encode_utf8_decode_utf8(b@);
    }
    if x.len() != y.len() {
        return false;
    }
    let mut i: usize = 0;
    while i < x.len()
        invariant
            i <= x.len(),
            x.len() == y.len(),
            x@ == encode_utf8(a@),
            y@ == encode_utf8(b@),
            forall|j: int| 0 <= j < i ==> x@[j] == y@[j],
        decreases x.len() - i,
    {
        if x[i] != y[i] {
            return false;
        }
        i += 1;
    }
    assert(x@ =~= y@);
    true
}

/// The characters of a text, one by one.
pub fn chars_of(s: &str) -> (v: Vec<char>)
    ensures
        v@ == s@,
{
    let mut v: Vec<char> = Vec::new();
    for c in it: s.chars()
        invariant
            v@ == it.seq().take(it.index() as int),
            it.seq() == s@,
    {
        v.push(c);
    }
    v
}

/// For each character of `s`, whether it is white space.
pub open spec fn space_mask(s: Seq<char>) -> Seq<bool> {
    s.map_values(|c: char| is_space(c))
}

/// Marks the white space of a line.
pub fn mask_of(chars: &Vec<char>) -> (mask: Vec<bool>)
    ensures
        mask@ == space_mask(chars@),
{
    let mut mask: Vec<bool> = Vec::new();
    let mut i: usize = 0;
    while i < chars.len()
        invariant
            i <= chars.len(),
            mask@ == space_mask(chars@.take(i as int)),
        decreases chars.len() - i,
    {
        let b = char_is_space(chars[i]);
        mask.push(b);
        i += 1;
        assert(mask@ =~= space_mask(chars@.take(i as int)));
    }
    assert(chars@.take(chars.len() as int) =~= chars@);
    mask
}

/// The words of a line, as half-open index ranges, given which of its
/// positions hold white space. A word is a longest run of positions that hold
/// none; the ranges come in the order of the line.
pub open spec fn spans(mask: Seq<bool>) -> Seq<(int, int)>
    decreases mask.len(),
{
    if mask.len() == 0 {
        Seq::empty()
    } else {
        let before = spans(mask.drop_last());
        let n = mask.len() as int;
        if mask.last() {
            before
        } else if n >= 2 && !mask[n - 2] {
            before.drop_last().push((before.last().0, n))
        } else {
            before.push((n - 1, n))
        }
    }
}

/// What [`spans`] yields is a list of non-empty ranges inside the line, one
/// after the other and apart, none of which holds white space, and every
/// position that holds none lies in one of them: so each range is a longest
/// run. The last one ends at the end of the line exactly when the line does
/// not end in white space.
pub proof fn lemma_spans(mask: Seq<bool>)
    ensures
        forall|k: int|
            0 <= k < spans(mask).len() ==> 0 <= (#[trigger] spans(mask)[k]).0 < spans(mask)[k].1
                <= mask.len(),
        forall|k: int, j: int|
            0 <= k < spans(mask).len() && #[trigger] in_span(spans(mask)[k], j) ==> !mask[j],
        forall|k: int, l: int|
            0 <= k < l < spans(mask).len() ==> (#[trigger] spans(mask)[k]).1 < (
            #[trigger] spans(mask)[l]).0,
        forall|j: int|
            0 <= j < mask.len() && !#[trigger] mask[j] ==> exists|k: int|
                0 <= k < spans(mask).len() && in_span(#[trigger] spans(mask)[k], j),
        mask.len() > 0 && !mask.last() ==> spans(mask).len() > 0 && spans(mask).last().1
            == mask.len(),
        mask.len() > 0 && mask.last() && spans(mask).len() > 0 ==> spans(mask).last().1
            < mask.len(),
    decreases mask.len(),
{
    if mask.len() > 0 {
        let init = mask.drop_last();
        lemma_spans(init);
        let before = spans(init);
        let n = mask.len() as int;
        if mask.last() {
            assert forall|j: int| 0 <= j < mask.len() && !#[trigger] mask[j] implies exists|k: int|
                0 <= k < spans(mask).len() && in_span(#[trigger] spans(mask)[k], j) by {
                assert(!init[j]);
                let k = choose|k: int| 0 <= k < before.len() && in_span(#[trigger] before[k], j);
                assert(in_span(spans(mask)[k], j));
            }
        } else if n >= 2 && !mask[n - 2] {
            assert(init.last() == mask[n - 2]);
            let w = before.drop_last().push((before.last().0, n));
            assert(spans(mask) == w);
            assert forall|j: int| 0 <= j < mask.len() && !#[trigger] mask[j] implies exists|k: int|
                0 <= k < w.len() && in_span(#[trigger] w[k], j) by {
                if j < n - 1 {
                    assert(!init[j]);
                    let k = choose|k: int| 0 <= k < before.len() && in_span(#[trigger] before[k], j);
                    if k < w.len() - 1 {
                        assert(w[k] == before[k]);
                    }
                    assert(in_span(w[k], j));
                } else {
                    assert(in_span(w[w.len() - 1], j));
                }
            }
            assert forall|k: int, j: int| 0 <= k < w.len() && #[trigger] in_span(w[k], j) implies !mask[j] by {
                if k < w.len() - 1 {
                    assert(w[k] == before[k]);
                    assert(in_span(before[k], j));
                    assert(mask[j] == init[j]);
                } else {
                    if j < n - 1 {
                        assert(in_span(before.last(), j));
                        assert(mask[j] == init[j]);
                    }
                }
            }
        } else {
            let w = before.push((n - 1, n));
            assert(spans(mask) == w);
            if n >= 2 {
                assert(init.last() == mask[n - 2]);
            }
            assert forall|j: int| 0 <= j < mask.len() && !#[trigger] mask[j] implies exists|k: int|
                0 <= k < w.len() && in_span(#[trigger] w[k], j) by {
                if j < n - 1 {
                    assert(!init[j]);
                    let k = choose|k: int| 0 <= k < before.len() && in_span(#[trigger] before[k], j);
                    assert(w[k] == before[k]);
                    assert(in_span(w[k], j));
                } else {
                    assert(in_span(w[w.len() - 1], j));
                }
            }
            assert forall|k: int, j: int| 0 <= k < w.len() && #[trigger] in_span(w[k], j) implies !mask[j] by {
                if k < w.len() - 1 {
                    assert(w[k] == before[k]);
                    assert(in_span(before[k], j));
                    assert(mask[j] == init[j]);
                }
            }
        }
    }
}

/// Whether position `j` lies in the range `span`.
pub open spec fn in_span(span: (int, int), j: int) -> bool {
    span.0 <= j < span.1
}

/// The ranges of a list of index pairs, as mathematical integers.
pub open spec fn span_view(v: Seq<(usize, usize)>) -> Seq<(int, int)> {
    v.map_values(|p: (usize, usize)| (p.0 as int, p.1 as int))
}

/// Finds the words of a line from the marks of its white space.
pub fn word_spans(mask: &Vec<bool>) -> (out: Vec<(usize, usize)>)
    ensures
        span_view(out@) == spans(mask@),
{
    let mut out: Vec<(usize, usize)> = Vec::new();
    let mut start: usize = 0;
    let mut inside = false;
    let mut i: usize = 0;
    assert(span_view(out@) =~= spans(mask@.take(0)));
    while i < mask.len()
        invariant
            i <= mask.len(),
            inside ==> start < i && !mask@[i - 1] && spans(mask@.take(i as int)) == span_view(
                out@,
            ).push((start as int, i as int)),
            !inside ==> (i == 0 || mask@[i - 1]) && spans(mask@.take(i as int)) == span_view(out@),
        decreases mask.len() - i,
    {
        let ghost seen = mask@.take(i as int);
        let ghost next = mask@.take(i + 1);
        assert(next.drop_last() =~= seen);
        assert(next.last() == mask@[i as int]);
        if i >= 1 {
            assert(next[next.len() - 2] == mask@[i - 1]);
        }
        if mask[i] {
            if inside {
                out.push((start, i));
                inside = false;
                assert(span_view(out@) =~= spans(seen));
            }
        } else {
            if !inside {
                start = i;
                inside = true;
            } else {
                assert(spans(seen).drop_last() =~= span_view(out@));
            }
        }
        i += 1;
    }
    assert(mask@.take(mask.len() as int) =~= mask@);
    if inside {
        out.push((start, i));
        assert(span_view(out@) =~= spans(mask@));
    }
    out
}

/// The pieces of a text that the given ranges mark.
pub open spec fn cut(s: Seq<char>, found: Seq<(int, int)>) -> Seq<Seq<char>> {
    found.map_values(|p: (int, int)| s.subrange(p.0, p.1))
}

/// The piece of a text from the start of the first range to the end of the
/// last one; empty where there is no range.
pub open spec fn across(s: Seq<char>, found: Seq<(int, int)>) -> Seq<char> {
    if found.len() == 0 {
        Seq::empty()
    } else {
        s.subrange(found.first().0, found.last().1)
    }
}

/// Whether the ranges lie inside a text of `len` characters, one after the
/// other.
pub open spec fn ranges_fit(found: Seq<(int, int)>, len: nat) -> bool {
    &&& forall|k: int| 0 <= k < found.len() ==> 0 <= (#[trigger] found[k]).0 <= found[k].1 <= len
    &&& forall|k: int, l: int|
        0 <= k < l < found.len() ==> (#[trigger] found[k]).1 <= (#[trigger] found[l]).0
}

/// The words of a line: its longest runs of characters that are not white
/// space, in order.
pub open spec fn words(s: Seq<char>) -> Seq<Seq<char>> {
    cut(s, spans(space_mask(s)))
}

/// The line without the white space at its two ends.
pub open spec fn trimmed(s: Seq<char>) -> Seq<char> {
    across(s, spans(space_mask(s)))
}

/// The texts that a list of strings holds.
pub open spec fn texts(v: Seq<String>) -> Seq<Seq<char>> {
    v.map_values(|t: String| t@)
}

/// Finds the words of a line, as ranges of character positions.
pub fn line_spans(line: &str) -> (found: Vec<(usize, usize)>)
    ensures
        span_view(found@) == spans(space_mask(line@)),
        ranges_fit(span_view(found@), line@.len()),
{
    let chars = chars_of(line);
    let mask = mask_of(&chars);
    proof {
        lemma_spans(mask@);
    }
    word_spans(&mask)
}

/// Cuts the marked pieces out of a line.
pub fn cut_words(line: &str, found: &Vec<(usize, usize)>) -> (out: Vec<String>)
    requires
        ranges_fit(span_view(found@), line@.len()),
    ensures
        texts(out@) == cut(line@, span_view(found@)),
{
    let mut out: Vec<String> = Vec::new();
    let mut k: usize = 0;
    while k < found.len()
        invariant
            k <= found.len(),
            ranges_fit(span_view(found@), line@.len()),
            out.len() == k,
            texts(out@) == cut(line@, span_view(found@)).take(k as int),
        decreases found.len() - k,
    {
        let (a, b) = found[k];
        assert(span_view(found@)[k as int] == (a as int, b as int));
        let word = String::from_str(line.substring_char(a, b));
        assert(word@ == cut(line@, span_view(found@))[k as int]);
        let ghost had = out@;
        out.push(word);
        k += 1;
        assert forall|j: int| 0 <= j < k implies texts(out@)[j] == cut(line@, span_view(found@))[j] by {
            if j < k - 1 {
                assert(out@[j] == had[j]);
                assert(texts(had)[j] == cut(line@, span_view(found@)).take(k - 1)[j]);
            } else {
                assert(out@[j] == word);
            }
        }
        assert(texts(out@) =~= cut(line@, span_view(found@)).take(k as int));
    }
    assert(cut(line@, span_view(found@)).take(found.len() as int) =~= cut(
        line@,
        span_view(found@),
    ));
    out
}

/// Cuts out of a line what lies between the start of the first marked piece
/// and the end of the last.
pub fn cut_across(line: &str, found: &Vec<(usize, usize)>) -> (out: String)
    requires
        ranges_fit(span_view(found@), line@.len()),
    ensures
        out@ == across(line@, span_view(found@)),
{
    if found.len() == 0 {
        String::new()
    } else {
        let a = found[0].0;
        let b = found[found.len() - 1].1;
        assert(span_view(found@)[0] == (found@[0].0 as int, found@[0].1 as int));
        assert(span_view(found@)[found.len() - 1] == (
            found@[found.len() - 1].0 as int,
            found@[found.len() - 1].1 as int,
        ));
        String::from_str(line.substring_char(a, b))
    }
}

/// Splits a line into its words.
pub fn split_words(line: &str) -> (out: Vec<String>)
    ensures
        texts(out@) == words(line@),
{
    let found = line_spans(line);
    cut_words(line, &found)
}

/// Removes the white space at the two ends of a line.
pub fn trim(line: &str) -> (out: String)
    ensures
        out@ == trimmed(line@),
{
    let found = line_spans(line);
    cut_across(line, &found)
}

/// A line of white space alone has no words, and a word is never empty nor
/// holds white space.
pub proof fn lemma_words(s: Seq<char>)
    ensures
        (forall|j: int| 0 <= j < s.len() ==> is_space(#[trigger] s[j])) ==> words(s).len() == 0,
        forall|k: int| 0 <= k < words(s).len() ==> (#[trigger] words(s)[k]).len() > 0,
        forall|k: int, j: int|
            0 <= k < words(s).len() && 0 <= j < words(s)[k].len() ==> !is_space(
                #[trigger] words(s)[k][j],
            ),
{
    let mask = space_mask(s);
    lemma_spans(mask);
    let w = spans(mask);
    if w.len() > 0 {
        assert(in_span(w[0], w[0].0));
        assert(!mask[w[0].0]);
    }
    assert forall|k: int, j: int| 0 <= k < words(s).len() && 0 <= j < words(s)[k].len() implies !is_space(
        #[trigger] words(s)[k][j],
    ) by {
        assert(in_span(w[k], w[k].0 + j));
        assert(!mask[w[k].0 + j]);
    }
}

/// The decimal digit of a number below ten.
pub open spec fn digit(d: nat) -> char
    recommends
        d < 10,
{
    if d == 0 {
        '0'
    } else if d == 1 {
        '1'
    } else if d == 2 {
        '2'
    } else if d == 3 {
        '3'
    } else if d == 4 {
        '4'
    } else if d == 5 {
        '5'
    } else if d == 6 {
        '6'
    } else if d == 7 {
        '7'
    } else if d == 8 {
        '8'
    } else {
        '9'
    }
}

/// A number written in decimal, without leading zeros.
pub open spec fn decimal(n: nat) -> Seq<char>
    decreases n,
{
    if n < 10 {
        seq![digit(n)]
    } else {
        decimal(n / 10).push(digit(n % 10))
    }
}

fn digit_text(d: usize) -> (r: &'static str)
    requires
        d < 10,
    ensures
        r@ == seq![digit(d as nat)],
{
    proof {
        reveal_strlit("0");
        reveal_strlit("1");
        reveal_strlit("2");
        reveal_strlit("3");
        reveal_strlit("4");
        reveal_strlit("5");
        reveal_strlit("6");
        reveal_strlit("7");
        reveal_strlit("8");
        reveal_strlit("9");
    }
    let r = if d == 0 {
        "0"
    } else if d == 1 {
        "1"
    } else if d == 2 {
        "2"
    } else if d == 3 {
        "3"
    } else if d == 4 {
        "4"
    } else if d == 5 {
        "5"
    } else if d == 6 {
        "6"
    } else if d == 7 {
        "7"
    } else if d == 8 {
        "8"
    } else {
        "9"
    };
    assert(r@ =~= seq![digit(d as nat)]);
    r
}

/// Writes a number in decimal.
pub fn decimal_text(n: usize) -> (r: String)
    ensures
        r@ == decimal(n as nat),
    decreases n,
{
    if n < 10 {
        String::from_str(digit_text(n))
    } else {
        let mut r = decimal_text(n / 10);
        r.append(digit_text(n % 10));
        assert(r@ =~= decimal(n as nat));
        r
    }
}

/// `count` copies of the character `c`.
pub open spec fn repeated(c: char, count: nat) -> Seq<char> {
    Seq::new(count, |i: int| c)
}

} // verus!
