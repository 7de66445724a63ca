//! What holds of character classes, trimming and decimal numbers.

use vstd::prelude::*;

use crate::text::alphanumeric;
use crate::text::blank;
use crate::text::decimal;
use crate::text::decimal_text;
use crate::text::digit;
use crate::text::is_blank;
use crate::text::trim;
use crate::text::trimmed;
use crate::text::trimmed_end;
use crate::text::trimmed_start;
use crate::text::whitespace;
use crate::text::wide_alphanumeric;
use crate::text::wide_whitespace;

verus! {

/// Among the ASCII characters the space, the tab, the line feed, the vertical tab, the form feed
/// and the carriage return are whitespace, and the letters and the digits are alphanumeric.
/// Elsewhere the two classes are those of Unicode. No character is in both.
pub proof fn law_character_classes(c: char)
    ensures
        c <= '\x7f' ==> (whitespace(c) <==> (c == ' ' || c == '\t' || c == '\n' || c == '\x0b' || c
            == '\x0c' || c == '\r')),
        c <= '\x7f' ==> (alphanumeric(c) <==> (('0' <= c && c <= '9') || ('A' <= c && c <= 'Z')
            || ('a' <= c && c <= 'z'))),
        c > '\x7f' ==> whitespace(c) == wide_whitespace(c),
        c > '\x7f' ==> alphanumeric(c) == wide_alphanumeric(c),
        c <= '\x7f' ==> !(whitespace(c) && alphanumeric(c)),
{
}

/// Trimming cuts a text at two places. What is cut off is whitespace, and what is left neither
/// begins nor ends with whitespace.
pub proof fn law_trimmed_is_cut_out(s: Seq<char>)
    ensures
        exists|from: int, to: int| #[trigger]
            s.subrange(from, to) == trimmed(s) && 0 <= from <= to <= s.len() && (forall|i: int|
                0 <= i < s.len() && (i < from || to <= i) ==> whitespace(#[trigger] s[i])),
        trimmed(s).len() > 0 ==> !whitespace(trimmed(s)[0]) && !whitespace(trimmed(s).last()),
{
    let from = lemma_start_of(s);
    let tail = trimmed_start(s);
    let kept = lemma_end_of(tail);
    assert(s.subrange(from, from + kept) =~= trimmed(s));
    assert forall|i: int| 0 <= i < s.len() && (i < from || from + kept <= i) implies whitespace(
        #[trigger] s[i],
    ) by {
        if from + kept <= i {
            assert(tail[i - from] == s[i]);
        }
    }
    if trimmed(s).len() > 0 {
        assert(trimmed(s)[0] == tail[0]);
    }
}

proof fn lemma_start_of(s: Seq<char>) -> (from: int)
    ensures
        0 <= from <= s.len(),
        trimmed_start(s) == s.skip(from),
        forall|i: int| 0 <= i < from ==> whitespace(#[trigger] s[i]),
        from < s.len() ==> !whitespace(s[from]),
    decreases s.len(),
{
    if s.len() > 0 && whitespace(s[0]) {
        let rest = s.drop_first();
        let from = lemma_start_of(rest);
        assert(rest.skip(from) =~= s.skip(from + 1));
        assert forall|i: int| 0 <= i < from + 1 implies whitespace(#[trigger] s[i]) by {
            if i > 0 {
                assert(rest[i - 1] == s[i]);
            }
        }
        from + 1
    } else {
        assert(s.skip(0) =~= s);
        0
    }
}

/// How much of a text is left when the whitespace at its end is cut off.
pub(crate) proof fn lemma_end_of(s: Seq<char>) -> (kept: int)
    ensures
        0 <= kept <= s.len(),
        trimmed_end(s) == s.take(kept),
        forall|i: int| kept <= i < s.len() ==> whitespace(#[trigger] s[i]),
        kept > 0 ==> !whitespace(s[kept - 1]),
    decreases s.len(),
{
    if s.len() > 0 && whitespace(s.last()) {
        let rest = s.drop_last();
        let kept = lemma_end_of(rest);
        assert(rest.take(kept) =~= s.take(kept));
        assert forall|i: int| kept <= i < s.len() implies whitespace(#[trigger] s[i]) by {
            if i < rest.len() {
                assert(rest[i] == s[i]);
            }
        }
        if kept > 0 {
            assert(rest[kept - 1] == s[kept - 1]);
        }
        kept
    } else {
        assert(s.take(s.len() as int) =~= s);
        s.len() as int
    }
}

/// A trimmed copy is the text between two cuts, of which everything outside is whitespace and
/// neither end is.
pub proof fn law_trim(s: &str, r: String)
    requires
        call_ensures(trim, (s,), r),
    ensures
        exists|from: int, to: int| #[trigger]
            s@.subrange(from, to) == r@ && 0 <= from <= to <= s@.len() && (forall|i: int|
                0 <= i < s@.len() && (i < from || to <= i) ==> whitespace(#[trigger] s@[i])),
        r@.len() > 0 ==> !whitespace(r@[0]) && !whitespace(r@.last()),
{
    law_trimmed_is_cut_out(s@);
}

/// A text is blank exactly where each of its characters is whitespace; the empty text is.
pub proof fn law_is_blank(s: &str, r: bool)
    requires
        call_ensures(is_blank, (s,), r),
    ensures
        r <==> (forall|i: int| 0 <= i < s@.len() ==> whitespace(#[trigger] s@[i])),
        r == blank(s@),
{
}

/// The number that a text of decimal digits stands for.
pub open spec fn numeral(text: Seq<char>) -> int
    decreases text.len(),
{
    if text.len() == 0 {
        0
    } else {
        10 * numeral(text.drop_last()) + (text.last() as int - '0' as int)
    }
}

/// The decimal notation of a number is made of digits, stands for the number and has no zero in
/// front, save that of zero itself.
pub proof fn law_decimal(n: nat)
    ensures
        decimal(n).len() > 0,
        forall|i: int| 0 <= i < decimal(n).len() ==> '0' <= #[trigger] decimal(n)[i] <= '9',
        numeral(decimal(n)) == n,
        decimal(n)[0] == '0' ==> n == 0 && decimal(n).len() == 1,
    decreases n,
{
    reveal_with_fuel(numeral, 2);
    let d = n % 10;
    assert('0' <= digit(d) <= '9' && digit(d) as int - '0' as int == d);
    if n < 10 {
        assert(decimal(n).drop_last() =~= Seq::<char>::empty());
    } else {
        law_decimal(n / 10);
        assert(decimal(n).drop_last() =~= decimal(n / 10));
    }
}

/// The text of a number is its decimal notation.
pub proof fn law_decimal_text(n: u64, s: String)
    requires
        call_ensures(decimal_text, (n,), s),
    ensures
        s@.len() > 0,
        forall|i: int| 0 <= i < s@.len() ==> '0' <= #[trigger] s@[i] <= '9',
        numeral(s@) == n,
        s@[0] == '0' ==> n == 0 && s@.len() == 1,
{
    law_decimal(n as nat);
}

} // verus!
