//! From the text of a table cell to a typed value. Every converter is total:
//! text that does not have the expected form gives `None`.

use vstd::prelude::*;
use vstd::string::StringExecFns;
use crate::text::{
    chars_of, remove_char, split, split_on, split_whitespace, texts_of, trim_end_matches,
    trim_end_of, without_char, words_of,
};

verus! {

/// The character that groups the digits of a count by thousands.
pub const THOUSANDS_SEPARATOR: char = '\'';

/// Whether `c` is one of the ten decimal digits.
pub open spec fn is_digit(c: char) -> bool {
    0x30 <= c as u32 <= 0x39
}

/// The number a decimal digit stands for.
pub open spec fn digit_value(c: char) -> nat {
    if is_digit(c) {
        (c as u32 - 0x30) as nat
    } else {
        0
    }
}

/// Whether `text` holds decimal digits only.
pub open spec fn all_digits(text: Seq<char>) -> bool {
    forall|k: int| 0 <= k < text.len() ==> is_digit(#[trigger] text[k])
}

/// The number that the digits of `text` write in base ten.
pub open spec fn decimal_value(text: Seq<char>) -> nat
    decreases text.len(),
{
    if text.len() == 0 {
        0
    } else {
        decimal_value(text.drop_last()) * 10 + digit_value(text.last())
    }
}

/// The number that `text` writes, where it is one or more digits and the
/// number is a `u32`.
pub open spec fn decimal_of(text: Seq<char>) -> Option<u32> {
    if text.len() > 0 && all_digits(text) && decimal_value(text) <= u32::MAX {
        Some(decimal_value(text) as u32)
    } else {
        None
    }
}

/// The count that `text` writes once its thousands separators are gone.
pub open spec fn count_of(text: Seq<char>) -> Option<u32> {
    decimal_of(without_char(text, THOUSANDS_SEPARATOR))
}

/// A text writes a number no smaller than any of its beginnings does.
proof fn lemma_decimal_value_grows(text: Seq<char>, n: int)
    requires
        0 <= n <= text.len(),
    ensures
        decimal_value(text.take(n)) <= decimal_value(text),
    decreases text.len() - n,
{
    if n == text.len() {
        assert(text.take(n) =~= text);
    } else {
        lemma_decimal_value_grows(text.drop_last(), n);
        assert(text.drop_last().take(n) =~= text.take(n));
    }
}

/// Reads `text` as a number written in decimal digits.
pub fn parse_decimal(text: &str) -> (number: Option<u32>)
    ensures
        number == decimal_of(text@),
{
    let chars = chars_of(text);
    if chars.len() == 0 {
        return None;
    }
    let mut value: u32 = 0;
    let mut at: usize = 0;
    while at < chars.len()
        invariant
            at <= chars.len(),
            chars@ == text@,
            all_digits(text@.take(at as int)),
            value == decimal_value(text@.take(at as int)),
        decreases chars.len() - at,
    {
        let code: u32 = chars[at] as u32;
        if code < 0x30 || code > 0x39 {
            return None;
        }
        let digit: u32 = code - 0x30;
        proof {
            assert(text@.take(at + 1).drop_last() =~= text@.take(at as int));
            lemma_decimal_value_grows(text@, at + 1);
        }
        if value > (u32::MAX - digit) / 10 {
            return None;
        }
        value = value * 10 + digit;
        at += 1;
    }
    assert(text@.take(at as int) =~= text@);
    Some(value)
}

/// Reads a count of voters or ballots, which may group its digits by
/// thousands. No cell gives no count.
pub fn string_to_u32(candidate: Option<&String>) -> (count: Option<u32>)
    ensures
        count == match candidate {
            Some(text) => count_of(text@),
            None => None,
        },
{
    match candidate {
        Some(text) => {
            let digits = remove_char(text.as_str(), THOUSANDS_SEPARATOR);
            parse_decimal(digits.as_str())
        },
        None => None,
    }
}

/// Whether `c` occurs nowhere in `text`.
pub open spec fn free_of(text: Seq<char>, c: char) -> bool {
    forall|k: int| 0 <= k < text.len() ==> #[trigger] text[k] != c
}

/// The date `year-month-day` that `text` gives where it reads
/// `day.month.year`: where the full stops cut it into exactly three pieces.
pub open spec fn date_of(text: Seq<char>) -> Option<Seq<char>> {
    let pieces = split_on(text, '.');
    if pieces.len() == 3 {
        Some(pieces[2] + seq!['-'] + pieces[1] + seq!['-'] + pieces[0])
    } else {
        None
    }
}

/// A text that holds no separator is one piece.
proof fn lemma_split_on_free(text: Seq<char>, separator: char)
    requires
        free_of(text, separator),
    ensures
        split_on(text, separator) == seq![text],
    decreases text.len(),
{
    if text.len() == 0 {
        assert(text =~= Seq::<char>::empty());
    } else {
        lemma_split_on_free(text.drop_last(), separator);
        let before = seq![text.drop_last()];
        assert(text.drop_last().push(text.last()) =~= text);
        assert(before.drop_last().push(before.last().push(text.last())) =~= seq![text]);
    }
}

/// After a separator, a text that holds none is one more piece.
proof fn lemma_split_on_last_piece(head: Seq<char>, separator: char, tail: Seq<char>)
    requires
        free_of(tail, separator),
    ensures
        split_on(head + seq![separator] + tail, separator) == split_on(head, separator).push(tail),
    decreases tail.len(),
{
    let whole = head + seq![separator] + tail;
    if tail.len() == 0 {
        assert(whole.drop_last() =~= head);
        assert(tail =~= Seq::<char>::empty());
    } else {
        lemma_split_on_last_piece(head, separator, tail.drop_last());
        assert(whole.drop_last() =~= head + seq![separator] + tail.drop_last());
        let before = split_on(head, separator).push(tail.drop_last());
        assert(tail.drop_last().push(tail.last()) =~= tail);
        assert(before.drop_last() =~= split_on(head, separator));
    }
}

/// A day, a month and a year that hold no full stop, written with a full
/// stop between them, give the date with the year first and hyphens between.
pub proof fn lemma_date_of_day_month_year(day: Seq<char>, month: Seq<char>, year: Seq<char>)
    requires
        free_of(day, '.'),
        free_of(month, '.'),
        free_of(year, '.'),
    ensures
        date_of(day + seq!['.'] + month + seq!['.'] + year) == Some(
            year + seq!['-'] + month + seq!['-'] + day,
        ),
{
    lemma_split_on_free(day, '.');
    lemma_split_on_last_piece(day, '.', month);
    lemma_split_on_last_piece(day + seq!['.'] + month, '.', year);
}

/// Turns a date written `day.month.year` into `year-month-day`. The three
/// pieces are taken as they stand.
pub fn convert_date_to_us_format(date: &str) -> (converted: Option<String>)
    ensures
        match converted {
            Some(text) => date_of(date@) == Some(text@),
            None => date_of(date@) is None,
        },
{
    let pieces = split(date, '.');
    assert(texts_of(pieces@).len() == pieces@.len());
    if pieces.len() == 3 {
        proof {
            reveal_strlit("-");
            assert("-"@ =~= seq!['-']);
            assert(texts_of(pieces@)[0] == pieces@[0]@);
            assert(texts_of(pieces@)[1] == pieces@[1]@);
            assert(texts_of(pieces@)[2] == pieces@[2]@);
        }
        let mut text = String::new();
        text.append(pieces[2].as_str());
        text.append("-");
        text.append(pieces[1].as_str());
        text.append("-");
        text.append(pieces[0].as_str());
        assert(text@ =~= pieces@[2]@ + seq!['-'] + pieces@[1]@ + seq!['-'] + pieces@[0]@);
        Some(text)
    } else {
        None
    }
}

/// The sign that ends a ratio written in hundredths.
pub const PERCENT_SIGN: char = '%';

/// The stroke between the two halves of a fraction.
pub const FRACTION_STROKE: char = '/';

/// A count of cantons as a table writes it: a whole number, and perhaps a
/// fraction after it, each still as text.
#[derive(Debug)]
pub struct CantonCount {
    /// The digits of the whole number.
    pub whole: String,
    /// The numerator and the denominator, where a fraction follows.
    pub fraction: Option<(String, String)>,
}

/// What a `CantonCount` holds, as sequences of characters.
pub ghost struct CantonCountText {
    pub whole: Seq<char>,
    pub fraction: Option<(Seq<char>, Seq<char>)>,
}

impl View for CantonCount {
    type V = CantonCountText;

    open spec fn view(&self) -> CantonCountText {
        CantonCountText {
            whole: self.whole@,
            fraction: match self.fraction {
                Some((numerator, denominator)) => Some((numerator@, denominator@)),
                None => None,
            },
        }
    }
}

/// The number in a ratio's text: the text without the percent signs it ends
/// with.
pub open spec fn ratio_text_of(text: Seq<char>) -> Seq<char> {
    trim_end_of(text, PERCENT_SIGN)
}

/// The parts of a count of cantons. One word is a whole number, read without
/// its thousands separators. Two words are a whole number and a fraction,
/// which has exactly one stroke. Any other text is no count.
pub open spec fn canton_count_of(text: Seq<char>) -> Option<CantonCountText> {
    let words = words_of(text);
    if words.len() == 1 {
        Some(CantonCountText { whole: without_char(words[0], THOUSANDS_SEPARATOR), fraction: None })
    } else if words.len() == 2 {
        let halves = split_on(words[1], FRACTION_STROKE);
        if halves.len() == 2 {
            Some(CantonCountText { whole: words[0], fraction: Some((halves[0], halves[1])) })
        } else {
            None
        }
    } else {
        None
    }
}

/// The number in the text of a ratio, ready to be read as a decimal fraction
/// of a hundred. No cell gives no text.
pub fn ratio_text(candidate: Option<&String>) -> (number: Option<String>)
    ensures
        match candidate {
            Some(text) => number is Some && number->0@ == ratio_text_of(text@),
            None => number is None,
        },
{
    match candidate {
        Some(text) => Some(String::from_str(trim_end_matches(text.as_str(), PERCENT_SIGN))),
        None => None,
    }
}

/// The parts of a count of cantons, each ready to be read as a number. No
/// cell gives no count.
pub fn integer_and_fraction(candidate: Option<&String>) -> (count: Option<CantonCount>)
    ensures
        match candidate {
            Some(text) => match count {
                Some(parts) => canton_count_of(text@) == Some(parts@),
                None => canton_count_of(text@) is None,
            },
            None => count is None,
        },
{
    let text = match candidate {
        Some(text) => text,
        None => { return None; },
    };
    let mut words = split_whitespace(text.as_str());
    assert(texts_of(words@).len() == words@.len());
    if words.len() == 1 {
        assert(texts_of(words@)[0] == words@[0]@);
        let whole = remove_char(words[0].as_str(), THOUSANDS_SEPARATOR);
        Some(CantonCount { whole, fraction: None })
    } else if words.len() == 2 {
        assert(texts_of(words@)[0] == words@[0]@);
        assert(texts_of(words@)[1] == words@[1]@);
        let mut halves = split(words[1].as_str(), FRACTION_STROKE);
        assert(texts_of(halves@).len() == halves@.len());
        if halves.len() == 2 {
            assert(texts_of(halves@)[0] == halves@[0]@);
            assert(texts_of(halves@)[1] == halves@[1]@);
            let denominator = halves.remove(1);
            let numerator = halves.remove(0);
            let whole = words.remove(0);
            Some(CantonCount { whole, fraction: Some((numerator, denominator)) })
        } else {
            None
        }
    } else {
        None
    }
}

} // verus!
