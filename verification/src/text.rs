//! Text: white space, trimming, and decimal numerals.
use vstd::prelude::*;
use vstd::string::*;

verus! {

/// The characters with the Unicode property `White_Space`.
pub open spec fn white_space(c: char) -> bool {
    ||| '\u{9}' <= c <= '\u{d}'
    ||| c == '\u{20}'
    ||| c == '\u{85}'
    ||| c == '\u{a0}'
    ||| c == '\u{1680}'
    ||| '\u{2000}' <= c <= '\u{200a}'
    ||| c == '\u{2028}'
    ||| c == '\u{2029}'
    ||| c == '\u{202f}'
    ||| c == '\u{205f}'
    ||| c == '\u{3000}'
}

/// Nothing but white space.
pub open spec fn blank(text: Seq<char>) -> bool {
    forall|i: int| 0 <= i < text.len() ==> white_space(#[trigger] text[i])
}

/// `text` without the white space at its start.
pub open spec fn trimmed_start(text: Seq<char>) -> Seq<char>
    decreases text.len(),
{
    if text.len() > 0 && white_space(text.first()) {
        trimmed_start(text.drop_first())
    } else {
        text
    }
}

/// `text` without the white space at its end.
pub open spec fn trimmed_end(text: Seq<char>) -> Seq<char>
    decreases text.len(),
{
    if text.len() > 0 && white_space(text.last()) {
        trimmed_end(text.drop_last())
    } else {
        text
    }
}

/// `text` without the white space at either end.
pub open spec fn trimmed(text: Seq<char>) -> Seq<char> {
    trimmed_end(trimmed_start(text))
}

/// The digit that stands for `d`.
pub open spec fn digit(d: nat) -> char
    recommends
        d < 10,
{
    (48 + d) as char
}

/// The decimal numeral of `n`, without leading zeros.
pub open spec fn decimal(n: nat) -> Seq<char>
    decreases n,
{
    if n < 10 {
        seq![digit(n)]
    } else {
        decimal(n / 10).push(digit(n % 10))
    }
}

/// Whether `c` is white space.
pub fn is_white_space(c: char) -> (white: bool)
    ensures
        white == white_space(c),
{
    ('\u{9}' <= c && c <= '\u{d}') || c == '\u{20}' || c == '\u{85}' || c == '\u{a0}' || c
        == '\u{1680}' || ('\u{2000}' <= c && c <= '\u{200a}') || c == '\u{2028}' || c == '\u{2029}'
        || c == '\u{202f}' || c == '\u{205f}' || c == '\u{3000}'
}

proof fn lemma_trimmed_start_blank(text: Seq<char>)
    ensures
        blank(text) ==> trimmed_start(text).len() == 0,
        !blank(text) ==> trimmed_start(text).len() > 0 && !blank(trimmed_start(text)),
    decreases text.len(),
{
    if text.len() > 0 && white_space(text.first()) {
        let rest = text.drop_first();
        lemma_trimmed_start_blank(rest);
        if blank(rest) {
            assert forall|i: int| 0 <= i < text.len() implies white_space(#[trigger] text[i]) by {
                if i > 0 {
                    assert(white_space(rest[i - 1]));
                }
            }
        }
        if blank(text) {
            assert forall|i: int| 0 <= i < rest.len() implies white_space(#[trigger] rest[i]) by {
                assert(white_space(text[i + 1]));
            }
        }
    } else if text.len() > 0 {
        assert(!white_space(text[0]));
    }
}

proof fn lemma_trimmed_end_blank(text: Seq<char>)
    ensures
        blank(text) <==> trimmed_end(text).len() == 0,
    decreases text.len(),
{
    if text.len() > 0 && white_space(text.last()) {
        let rest = text.drop_last();
        lemma_trimmed_end_blank(rest);
        if blank(rest) {
            assert forall|i: int| 0 <= i < text.len() implies white_space(#[trigger] text[i]) by {
                if i < text.len() - 1 {
                    assert(white_space(rest[i]));
                }
            }
        }
        if blank(text) {
            assert forall|i: int| 0 <= i < rest.len() implies white_space(#[trigger] rest[i]) by {
                assert(white_space(text[i]));
            }
        }
    } else if text.len() > 0 {
        assert(!white_space(text[text.len() - 1]));
    }
}

/// Trimming leaves nothing exactly of a text that is nothing but white space.
pub proof fn law_trimmed_empty_iff_blank(text: Seq<char>)
    ensures
        trimmed(text).len() == 0 <==> blank(text),
{
    lemma_trimmed_start_blank(text);
    lemma_trimmed_end_blank(trimmed_start(text));
}

proof fn lemma_trimmed_start_first(text: Seq<char>)
    ensures
        trimmed_start(text).len() > 0 ==> !white_space(trimmed_start(text).first()),
    decreases text.len(),
{
    if text.len() > 0 && white_space(text.first()) {
        lemma_trimmed_start_first(text.drop_first());
    }
}

proof fn lemma_trimmed_end_ends(text: Seq<char>)
    ensures
        trimmed_end(text).len() > 0 ==> !white_space(trimmed_end(text).last()) && trimmed_end(
            text,
        ).first() == text.first(),
    decreases text.len(),
{
    if text.len() > 0 && white_space(text.last()) {
        lemma_trimmed_end_ends(text.drop_last());
    }
}

/// Trimming a trimmed text changes nothing.
pub proof fn law_trimming_is_idempotent(text: Seq<char>)
    ensures
        trimmed(trimmed(text)) == trimmed(text),
{
    lemma_trimmed_start_first(text);
    lemma_trimmed_end_ends(trimmed_start(text));
}

/// `text` without the white space at either end.
pub fn trim(text: &str) -> (inner: &str)
    ensures
        inner@ == trimmed(text@),
{
    let len: usize = text.unicode_len();
    let mut start: usize = 0;
    assert(text@.skip(0) == text@);
    while start < len && is_white_space(text.get_char(start))
        invariant
            start <= len == text@.len(),
            trimmed_start(text@) == trimmed_start(text@.skip(start as int)),
        decreases len - start,
    {
        assert(text@.skip(start as int).drop_first() == text@.skip(start + 1));
        start = start + 1;
    }
    let mut end: usize = len;
    assert(text@.subrange(start as int, end as int) == text@.skip(start as int));
    while start < end && is_white_space(text.get_char(end - 1))
        invariant
            start <= end <= len == text@.len(),
            trimmed(text@) == trimmed_end(text@.subrange(start as int, end as int)),
        decreases end,
    {
        assert(text@.subrange(start as int, end as int).drop_last() == text@.subrange(
            start as int,
            end - 1,
        ));
        end = end - 1;
    }
    text.substring_char(start, end)
}

/// Whether `text` is nothing but white space.
pub fn is_blank(text: &str) -> (empty: bool)
    ensures
        empty == blank(text@),
{
    proof {
        law_trimmed_empty_iff_blank(text@);
    }
    trim(text).is_empty()
}

/// Whether two texts are the same.
pub fn same_text(a: &str, b: &str) -> (same: bool)
    ensures
        same == (a@ == b@),
{
    a.to_owned() == b.to_owned()
}

/// `head` followed by `tail`.
pub fn joined(head: &str, tail: &str) -> (whole: String)
    ensures
        whole@ == head@ + tail@,
{
    head.to_owned().concat(tail)
}

/// The numeral of a single digit.
fn digit_text(d: u64) -> (text: &'static str)
    requires
        d < 10,
    ensures
        text@ == seq![digit(d as nat)],
{
    proof {
        reveal_strlit("0");
        reveal_strlit("1");
        reveal_strlit("2");
        reveal_strlit("3");
        reveal_strlit("4");
        reveal_strlit("5");
        reveal_strlit("6");
        reveal_strlit("7");
        reveal_strlit("8");
        reveal_strlit("9");
    }
    match d {
        0 => "0",
        1 => "1",
        2 => "2",
        3 => "3",
        4 => "4",
        5 => "5",
        6 => "6",
        7 => "7",
        8 => "8",
        _ => "9",
    }
}

/// The decimal numeral of `n`.
pub fn to_decimal(n: u64) -> (text: String)
    ensures
        text@ == decimal(n as nat),
    decreases n,
{
    if n < 10 {
        digit_text(n).to_owned()
    } else {
        to_decimal(n / 10).concat(digit_text(n % 10))
    }
}

/// Different numbers have different numerals.
pub proof fn law_decimal_is_injective(a: nat, b: nat)
    requires
        decimal(a) == decimal(b),
    ensures
        a == b,
    decreases a,
{
    lemma_decimal_length(a);
    lemma_decimal_length(b);
    assert(digit(a % 10) == decimal(a).last());
    assert(digit(b % 10) == decimal(b).last());
    if a >= 10 && b >= 10 {
        assert(decimal(a).drop_last() == decimal(a / 10));
        assert(decimal(b).drop_last() == decimal(b / 10));
        law_decimal_is_injective(a / 10, b / 10);
    }
}

proof fn lemma_decimal_length(n: nat)
    ensures
        n < 10 ==> decimal(n).len() == 1,
        n >= 10 ==> decimal(n).len() >= 2,
    decreases n,
{
    if n >= 10 {
        lemma_decimal_length(n / 10);
    }
}

proof fn lemma_trimmed_start_splits(text: Seq<char>) -> (head: Seq<char>)
    ensures
        text == head + trimmed_start(text),
        forall|i: int| 0 <= i < head.len() ==> white_space(#[trigger] head[i]),
    decreases text.len(),
{
    if text.len() > 0 && white_space(text.first()) {
        let rest = lemma_trimmed_start_splits(text.drop_first());
        let head = seq![text.first()] + rest;
        assert forall|i: int| 0 <= i < head.len() implies white_space(#[trigger] head[i]) by {
            if i > 0 {
                assert(head[i] == rest[i - 1]);
            }
        }
        assert(text == seq![text.first()] + text.drop_first());
        head
    } else {
        Seq::empty()
    }
}

proof fn lemma_trimmed_end_splits(text: Seq<char>) -> (tail: Seq<char>)
    ensures
        text == trimmed_end(text) + tail,
        forall|i: int| 0 <= i < tail.len() ==> white_space(#[trigger] tail[i]),
    decreases text.len(),
{
    if text.len() > 0 && white_space(text.last()) {
        let rest = lemma_trimmed_end_splits(text.drop_last());
        let tail = rest + seq![text.last()];
        assert forall|i: int| 0 <= i < tail.len() implies white_space(#[trigger] tail[i]) by {
            if i < rest.len() {
                assert(tail[i] == rest[i]);
            }
        }
        assert(text == text.drop_last() + seq![text.last()]);
        tail
    } else {
        Seq::empty()
    }
}

/// Trimming takes white space away at either end, all of it, and nothing else: what is left neither
/// begins nor ends with white space, and with the white space that was taken away it is the text
/// again.
pub proof fn law_trimming_takes_only_outer_white_space(text: &str, inner: &str)
    requires
        call_ensures(trim, (text,), inner),
    ensures
        exists|head: Seq<char>, tail: Seq<char>|
            {
                &&& text@ == #[trigger] (head + inner@ + tail)
                &&& forall|i: int| 0 <= i < head.len() ==> white_space(#[trigger] head[i])
                &&& forall|i: int| 0 <= i < tail.len() ==> white_space(#[trigger] tail[i])
            },
        inner@.len() > 0 ==> !white_space(inner@[0]) && !white_space(inner@[inner@.len() - 1]),
{
    let head = lemma_trimmed_start_splits(text@);
    let tail = lemma_trimmed_end_splits(trimmed_start(text@));
    lemma_trimmed_start_first(text@);
    lemma_trimmed_end_ends(trimmed_start(text@));
    assert(text@ == head + inner@ + tail);
}

/// A text is blank exactly if no character of it is anything but white space.
pub proof fn law_blank_text_is_all_white_space(text: &str, empty: bool)
    requires
        call_ensures(is_blank, (text,), empty),
    ensures
        !empty <==> exists|i: int| 0 <= i < text@.len() && !white_space(#[trigger] text@[i]),
{
}

/// Two texts are the same exactly if they have the same characters in the same order.
pub proof fn law_same_texts_have_the_same_characters(a: &str, b: &str, same: bool)
    requires
        call_ensures(same_text, (a, b), same),
    ensures
        same <==> a@.len() == b@.len() && forall|i: int|
            0 <= i < a@.len() ==> a@[i] == #[trigger] b@[i],
{
    if a@.len() == b@.len() && forall|i: int| 0 <= i < a@.len() ==> a@[i] == #[trigger] b@[i] {
        assert(a@ =~= b@);
    }
}

/// Joining keeps both texts, character for character, the first before the second.
pub proof fn law_joining_keeps_both_texts(head: &str, tail: &str, whole: String)
    requires
        call_ensures(joined, (head, tail), whole),
    ensures
        whole@.len() == head@.len() + tail@.len(),
        forall|i: int| 0 <= i < head@.len() ==> whole@[i] == #[trigger] head@[i],
        forall|i: int| 0 <= i < tail@.len() ==> whole@[head@.len() + i] == #[trigger] tail@[i],
{
}

/// The number that a run of digits stands for, read from left to right.
pub open spec fn numeral_value(text: Seq<char>) -> int
    decreases text.len(),
{
    if text.len() == 0 {
        0
    } else {
        10 * numeral_value(text.drop_last()) + (text.last() as int - '0' as int)
    }
}

proof fn lemma_decimal_value(n: nat)
    ensures
        numeral_value(decimal(n)) == n,
        forall|i: int|
            0 <= i < decimal(n).len() ==> '0' <= #[trigger] decimal(n)[i] && decimal(n)[i] <= '9',
        n > 0 ==> decimal(n)[0] != '0',
        decimal(n).len() > 0,
    decreases n,
{
    reveal_with_fuel(numeral_value, 2);
    assert(decimal(n).last() == digit(n % 10));
    if n >= 10 {
        lemma_decimal_value(n / 10);
        assert(decimal(n).drop_last() == decimal(n / 10));
        assert forall|i: int| 0 <= i < decimal(n).len() implies '0' <= #[trigger] decimal(n)[i]
            && decimal(n)[i] <= '9' by {
            if i < decimal(n).len() - 1 {
                assert(decimal(n)[i] == decimal(n / 10)[i]);
            }
        }
    } else {
        assert(decimal(n).drop_last() == Seq::<char>::empty());
    }
}

/// A numeral is made of digits only, stands for its number, and has no leading zero.
pub proof fn law_numeral_stands_for_its_number(n: u64, text: String)
    requires
        call_ensures(to_decimal, (n,), text),
    ensures
        numeral_value(text@) == n,
        text@.len() > 0,
        forall|i: int| 0 <= i < text@.len() ==> '0' <= #[trigger] text@[i] && text@[i] <= '9',
        n > 0 ==> text@[0] != '0',
        n == 0 ==> text@.len() == 1,
{
    lemma_decimal_value(n as nat);
}

} // verus!
