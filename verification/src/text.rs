//! Text helpers: comparison, trimming, decimal numbers and line joining.

use vstd::prelude::*;
use vstd::string::*;

verus! {

/// Whether `c` has the Unicode property `White_Space`.
pub open spec fn white_space(c: char) -> bool {
    ||| '\u{9}' <= c <= '\u{d}'
    ||| c == '\u{20}'
    ||| c == '\u{85}'
    ||| c == '\u{a0}'
    ||| c == '\u{1680}'
    ||| '\u{2000}' <= c <= '\u{200a}'
    ||| c == '\u{2028}'
    ||| c == '\u{2029}'
    ||| c == '\u{202f}'
    ||| c == '\u{205f}'
    ||| c == '\u{3000}'
}

/// `char::is_whitespace` of std: true exactly for the characters with the
/// Unicode property `White_Space`, listed in [`white_space`].
pub assume_specification[ char::is_whitespace ](c: char) -> (yes: bool)
    ensures
        yes == white_space(c),
;

/// Every character of `text` is white space (the empty text included).
pub open spec fn blank(text: Seq<char>) -> bool {
    forall|i: int| 0 <= i < text.len() ==> white_space(#[trigger] text[i])
}

/// `text` without its leading white space.
pub open spec fn trimmed_start(text: Seq<char>) -> Seq<char>
    decreases text.len(),
{
    if text.len() > 0 && white_space(text[0]) {
        trimmed_start(text.drop_first())
    } else {
        text
    }
}

/// `text` without its trailing white space.
pub open spec fn trimmed_end(text: Seq<char>) -> Seq<char>
    decreases text.len(),
{
    if text.len() > 0 && white_space(text.last()) {
        trimmed_end(text.drop_last())
    } else {
        text
    }
}

/// `text` without leading and trailing white space.
pub open spec fn trimmed(text: Seq<char>) -> Seq<char> {
    trimmed_end(trimmed_start(text))
}

/// The decimal digit of a value below ten.
pub open spec fn digit_char(value: nat) -> char {
    if value == 0 {
        '0'
    } else if value == 1 {
        '1'
    } else if value == 2 {
        '2'
    } else if value == 3 {
        '3'
    } else if value == 4 {
        '4'
    } else if value == 5 {
        '5'
    } else if value == 6 {
        '6'
    } else if value == 7 {
        '7'
    } else if value == 8 {
        '8'
    } else {
        '9'
    }
}

/// The decimal notation of a natural number, without leading zeros.
pub open spec fn decimal_text(value: nat) -> Seq<char>
    decreases value,
{
    if value < 10 {
        seq![digit_char(value)]
    } else {
        decimal_text(value / 10).push(digit_char(value % 10))
    }
}

/// The decimal notation of an integer.
pub open spec fn signed_decimal_text(value: int) -> Seq<char> {
    if value < 0 {
        "-"@ + decimal_text((-value) as nat)
    } else {
        decimal_text(value as nat)
    }
}

/// The texts of a list of strings.
pub open spec fn texts(lines: Seq<String>) -> Seq<Seq<char>> {
    lines.map_values(|line: String| line@)
}

/// The lines joined by one newline between neighbours.
pub open spec fn joined_lines(lines: Seq<Seq<char>>) -> Seq<char>
    decreases lines.len(),
{
    if lines.len() == 0 {
        seq![]
    } else if lines.len() == 1 {
        lines[0]
    } else {
        joined_lines(lines.drop_last()) + "\n"@ + lines.last()
    }
}

/// Whether two texts are equal.
pub fn same_text(left: &str, right: &str) -> (same: bool)
    ensures
        same == (left@ == right@),
{
    left.to_owned() == right.to_owned()
}

/// Two texts, one after the other.
pub fn concat(left: &str, right: &str) -> (text: String)
    ensures
        text@ == left@ + right@,
{
    let mut text = left.to_owned();
    text.append(right);
    text
}

/// Three texts, one after the other.
pub fn concat3(first: &str, second: &str, third: &str) -> (text: String)
    ensures
        text@ == first@ + second@ + third@,
{
    let mut text = first.to_owned();
    text.append(second);
    text.append(third);
    text
}

/// Whether the text holds white space only.
pub fn is_blank(text: &str) -> (yes: bool)
    ensures
        yes == blank(text@),
{
    let length: usize = text.unicode_len();
    let mut at: usize = 0;
    while at < length
        invariant
            at <= length,
            length == text@.len(),
            forall|i: int| 0 <= i < at ==> white_space(#[trigger] text@[i]),
        decreases length - at,
    {
        if !text.get_char(at).is_whitespace() {
            return false;
        }
        at = at + 1;
    }
    true
}

/// The text without leading and trailing white space.
pub fn trim(text: &str) -> (inner: String)
    ensures
        inner@ == trimmed(text@),
{
    let length: usize = text.unicode_len();
    let mut from: usize = 0;
    assert(text@.subrange(0, length as int) =~= text@);
    while from < length && text.get_char(from).is_whitespace()
        invariant
            from <= length,
            length == text@.len(),
            trimmed_start(text@) == trimmed_start(text@.subrange(from as int, length as int)),
        decreases length - from,
    {
        assert(text@.subrange(from as int, length as int).drop_first() =~= text@.subrange(
            from as int + 1,
            length as int,
        ));
        from = from + 1;
    }
    let ghost kept = text@.subrange(from as int, length as int);
    assert(trimmed_start(kept) == kept);
    let mut to: usize = length;
    while from < to && text.get_char(to - 1).is_whitespace()
        invariant
            from <= to <= length,
            length == text@.len(),
            trimmed_end(kept) == trimmed_end(text@.subrange(from as int, to as int)),
        decreases to,
    {
        assert(text@.subrange(from as int, to as int).drop_last() =~= text@.subrange(
            from as int,
            to as int - 1,
        ));
        to = to - 1;
    }
    text.substring_char(from, to).to_owned()
}

/// A text is blank exactly when trimming leaves nothing of it.
pub proof fn law_blank_means_trimmed_away(text: Seq<char>)
    ensures
        blank(text) <==> trimmed(text).len() == 0,
{
    lemma_trimmed_start(text);
    lemma_trimmed_end(trimmed_start(text));
    if blank(text) && trimmed_start(text).len() > 0 {
        let rest = trimmed_start(text);
        assert(rest[0] == text[text.len() - rest.len()]);
        assert(false);
    }
    if !blank(text) && trimmed(text).len() == 0 {
        let i = choose|i: int| 0 <= i < text.len() && !white_space(#[trigger] text[i]);
        let rest = trimmed_start(text);
        let skipped = text.len() - rest.len();
        assert(i >= skipped);
        assert(rest[i - skipped] == text[i]);
        assert(false);
    }
}

proof fn lemma_trimmed_start(text: Seq<char>)
    ensures
        trimmed_start(text).len() <= text.len(),
        forall|i: int|
            0 <= i < text.len() - trimmed_start(text).len() ==> white_space(#[trigger] text[i]),
        forall|i: int|
            0 <= i < trimmed_start(text).len() ==> #[trigger] trimmed_start(text)[i] == text[text.len()
                - trimmed_start(text).len() + i],
        trimmed_start(text).len() > 0 ==> !white_space(trimmed_start(text)[0]),
    decreases text.len(),
{
    if text.len() > 0 && white_space(text[0]) {
        let rest = text.drop_first();
        lemma_trimmed_start(rest);
        assert forall|i: int| 0 <= i < text.len() - trimmed_start(text).len() implies white_space(
            #[trigger] text[i],
        ) by {
            if i > 0 {
                assert(text[i] == rest[i - 1]);
            }
        }
    }
}

proof fn lemma_trimmed_end(text: Seq<char>)
    ensures
        trimmed_end(text).len() <= text.len(),
        forall|i: int| trimmed_end(text).len() <= i < text.len() ==> white_space(#[trigger] text[i]),
        forall|i: int|
            0 <= i < trimmed_end(text).len() ==> #[trigger] trimmed_end(text)[i] == text[i],
    decreases text.len(),
{
    if text.len() > 0 && white_space(text.last()) {
        let rest = text.drop_last();
        lemma_trimmed_end(rest);
        assert forall|i: int| trimmed_end(text).len() <= i < text.len() implies white_space(
            #[trigger] text[i],
        ) by {
            if i < rest.len() {
                assert(text[i] == rest[i]);
            }
        }
    }
}

fn digit(value: u64) -> (text: &'static str)
    requires
        value < 10,
    ensures
        text@ == seq![digit_char(value as nat)],
{
    proof {
        reveal_strlit("0");
        reveal_strlit("1");
        reveal_strlit("2");
        reveal_strlit("3");
        reveal_strlit("4");
        reveal_strlit("5");
        reveal_strlit("6");
        reveal_strlit("7");
        reveal_strlit("8");
        reveal_strlit("9");
    }
    if value == 0 {
        "0"
    } else if value == 1 {
        "1"
    } else if value == 2 {
        "2"
    } else if value == 3 {
        "3"
    } else if value == 4 {
        "4"
    } else if value == 5 {
        "5"
    } else if value == 6 {
        "6"
    } else if value == 7 {
        "7"
    } else if value == 8 {
        "8"
    } else {
        "9"
    }
}

/// The decimal notation of a number.
pub fn decimal(value: u64) -> (text: String)
    ensures
        text@ == decimal_text(value as nat),
    decreases value,
{
    if value < 10 {
        digit(value).to_owned()
    } else {
        let mut text = decimal(value / 10);
        text.append(digit(value % 10));
        text
    }
}

/// The decimal notation of a signed number.
pub fn signed_decimal(value: i64) -> (text: String)
    ensures
        text@ == signed_decimal_text(value as int),
{
    if value >= 0 {
        decimal(value as u64)
    } else {
        let magnitude: u64 = if value == i64::MIN {
            9_223_372_036_854_775_808
        } else {
            (-value) as u64
        };
        concat("-", decimal(magnitude).as_str())
    }
}

/// The lines joined by newlines.
pub fn join_lines(lines: &Vec<String>) -> (text: String)
    ensures
        text@ == joined_lines(texts(lines@)),
{
    let mut text = String::new();
    let mut at: usize = 0;
    let ghost views = texts(lines@);
    assert(views.take(0) =~= seq![]);
    while at < lines.len()
        invariant
            at <= lines.len(),
            views == texts(lines@),
            text@ == joined_lines(views.take(at as int)),
        decreases lines.len() - at,
    {
        if at > 0 {
            text.append("\n");
        }
        text.append(lines[at].as_str());
        assert(views.take(at as int + 1).drop_last() =~= views.take(at as int));
        at = at + 1;
    }
    assert(views.take(lines.len() as int) =~= views);
    text
}

/// The value of a decimal digit.
pub open spec fn digit_value(c: char) -> nat {
    (c as u32 - '0' as u32) as nat
}

/// The number that a text of decimal digits stands for.
pub open spec fn number_in(text: Seq<char>) -> nat
    decreases text.len(),
{
    if text.len() == 0 {
        0
    } else {
        number_in(text.drop_last()) * 10 + digit_value(text.last())
    }
}

/// The decimal notation of a number is made of digits, has no leading zero,
/// and stands for that number.
pub proof fn law_decimal_notation(value: nat)
    ensures
        number_in(decimal_text(value)) == value,
        decimal_text(value).len() > 0,
        forall|i: int|
            0 <= i < decimal_text(value).len() ==> '0' <= #[trigger] decimal_text(value)[i] <= '9',
        value > 0 ==> decimal_text(value)[0] != '0',
    decreases value,
{
    if value < 10 {
        let text = decimal_text(value);
        assert(text.drop_last() =~= seq![]);
        assert(number_in(text.drop_last()) == 0);
    } else {
        law_decimal_notation(value / 10);
        let text = decimal_text(value);
        assert(text.drop_last() =~= decimal_text(value / 10));
        assert(text.last() == digit_char(value % 10));
        assert(digit_value(text.last()) == value % 10);
        assert(value == (value / 10) * 10 + value % 10);
    }
}

} // verus!
