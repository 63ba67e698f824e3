//! Text as a sequence of characters: the operations the converters and the
//! extractors are built from, each stated over `Seq<char>`.

use vstd::prelude::*;
use vstd::string::StrSliceExecFns;
use vstd::string::StringExecFns;

verus! {

/// Whether `c` is white space as Unicode defines it (`White_Space`).
pub open spec fn is_white_space(c: char) -> bool {
    let code = c as u32;
    ||| 0x09 <= code <= 0x0D
    ||| code == 0x20
    ||| code == 0x85
    ||| code == 0xA0
    ||| code == 0x1680
    ||| 0x2000 <= code <= 0x200A
    ||| code == 0x2028
    ||| code == 0x2029
    ||| code == 0x202F
    ||| code == 0x205F
    ||| code == 0x3000
}

/// `text` without the white space it begins with.
pub open spec fn trim_start(text: Seq<char>) -> Seq<char>
    decreases text.len(),
{
    if text.len() > 0 && is_white_space(text.first()) {
        trim_start(text.drop_first())
    } else {
        text
    }
}

/// `text` without the white space it ends with.
pub open spec fn trim_end(text: Seq<char>) -> Seq<char>
    decreases text.len(),
{
    if text.len() > 0 && is_white_space(text.last()) {
        trim_end(text.drop_last())
    } else {
        text
    }
}

/// `text` without the white space at either end.
pub open spec fn trimmed(text: Seq<char>) -> Seq<char> {
    trim_end(trim_start(text))
}

/// `text` without the copies of `c` it ends with.
pub open spec fn trim_end_of(text: Seq<char>, c: char) -> Seq<char>
    decreases text.len(),
{
    if text.len() > 0 && text.last() == c {
        trim_end_of(text.drop_last(), c)
    } else {
        text
    }
}

/// Cutting white space off the front leaves the rest of `text` from the first
/// character that is none.
proof fn lemma_trim_start_skips(text: Seq<char>, from: int)
    requires
        0 <= from <= text.len(),
        forall|k: int| 0 <= k < from ==> is_white_space(#[trigger] text[k]),
        from == text.len() || !is_white_space(text[from]),
    ensures
        trim_start(text) == text.skip(from),
    decreases from,
{
    if from == 0 {
        assert(text.skip(0) =~= text);
    } else {
        let rest = text.drop_first();
        assert forall|k: int| 0 <= k < from - 1 implies is_white_space(#[trigger] rest[k]) by {
            assert(rest[k] == text[k + 1]);
        }
        lemma_trim_start_skips(rest, from - 1);
        assert(rest.skip(from - 1) =~= text.skip(from));
    }
}

/// Cutting white space off the end leaves `text` up to its last character
/// that is none.
proof fn lemma_trim_end_takes(text: Seq<char>, to: int)
    requires
        0 <= to <= text.len(),
        forall|k: int| to <= k < text.len() ==> is_white_space(#[trigger] text[k]),
        to == 0 || !is_white_space(text[to - 1]),
    ensures
        trim_end(text) == text.take(to),
    decreases text.len() - to,
{
    if to == text.len() {
        assert(text.take(to) =~= text);
    } else {
        let rest = text.drop_last();
        lemma_trim_end_takes(rest, to);
        assert(rest.take(to) =~= text.take(to));
    }
}

/// Cutting copies of `c` off the end leaves `text` up to its last character
/// that is another.
proof fn lemma_trim_end_of_takes(text: Seq<char>, c: char, to: int)
    requires
        0 <= to <= text.len(),
        forall|k: int| to <= k < text.len() ==> #[trigger] text[k] == c,
        to == 0 || text[to - 1] != c,
    ensures
        trim_end_of(text, c) == text.take(to),
    decreases text.len() - to,
{
    if to == text.len() {
        assert(text.take(to) =~= text);
    } else {
        let rest = text.drop_last();
        lemma_trim_end_of_takes(rest, c, to);
        assert(rest.take(to) =~= text.take(to));
    }
}

/// Tells whether `c` is white space.
pub fn is_white_space_char(c: char) -> (white: bool)
    ensures
        white == is_white_space(c),
{
    let code: u32 = c as u32;
    (0x09 <= code && code <= 0x0D) || code == 0x20 || code == 0x85 || code == 0xA0
        || code == 0x1680 || (0x2000 <= code && code <= 0x200A) || code == 0x2028
        || code == 0x2029 || code == 0x202F || code == 0x205F || code == 0x3000
}

/// The characters of `text`, in order.
pub fn chars_of(text: &str) -> (chars: Vec<char>)
    ensures
        chars@ == text@,
{
    let mut chars: Vec<char> = Vec::new();
    for c in it: text.chars()
        invariant
            it.seq() == text@,
            chars@ == text@.take(it.index()),
    {
        chars.push(c);
    }
    chars
}

/// `text` without the white space at either end.
pub fn trim(text: &str) -> (inner: &str)
    ensures
        inner@ == trimmed(text@),
{
    let chars = chars_of(text);
    let mut from: usize = 0;
    while from < chars.len() && is_white_space_char(chars[from])
        invariant
            from <= chars.len(),
            forall|k: int| 0 <= k < from ==> is_white_space(#[trigger] chars@[k]),
        decreases chars.len() - from,
    {
        from += 1;
    }
    let mut to: usize = chars.len();
    while to > from && is_white_space_char(chars[to - 1])
        invariant
            from <= to <= chars.len(),
            forall|k: int| to <= k < chars.len() ==> is_white_space(#[trigger] chars@[k]),
        decreases to,
    {
        to -= 1;
    }
    proof {
        lemma_trim_start_skips(text@, from as int);
        let rest = text@.skip(from as int);
        assert forall|k: int| to - from <= k < rest.len() implies is_white_space(#[trigger] rest[k]) by {
            assert(rest[k] == text@[k + from]);
        }
        lemma_trim_end_takes(rest, to - from);
        assert(rest.take(to - from) =~= text@.subrange(from as int, to as int));
    }
    text.substring_char(from, to)
}

/// `text` without the copies of `c` it ends with.
pub fn trim_end_matches(text: &str, c: char) -> (inner: &str)
    ensures
        inner@ == trim_end_of(text@, c),
{
    let chars = chars_of(text);
    let mut to: usize = chars.len();
    while to > 0 && chars[to - 1] == c
        invariant
            to <= chars.len(),
            forall|k: int| to <= k < chars.len() ==> #[trigger] chars@[k] == c,
        decreases to,
    {
        to -= 1;
    }
    proof {
        lemma_trim_end_of_takes(text@, c, to as int);
        assert(text@.take(to as int) =~= text@.subrange(0, to as int));
    }
    text.substring_char(0, to)
}

/// Whether `part` stands in `text` at position `at`.
pub open spec fn occurs_at(text: Seq<char>, part: Seq<char>, at: int) -> bool {
    0 <= at && at + part.len() <= text.len() && text.subrange(at, at + part.len()) == part
}

/// Whether `part` stands somewhere in `text`.
pub open spec fn contains_text(text: Seq<char>, part: Seq<char>) -> bool {
    exists|at: int| occurs_at(text, part, at)
}

/// `text` without its copies of `c`.
pub open spec fn without_char(text: Seq<char>, c: char) -> Seq<char>
    decreases text.len(),
{
    if text.len() == 0 {
        text
    } else if text.last() == c {
        without_char(text.drop_last(), c)
    } else {
        without_char(text.drop_last(), c).push(text.last())
    }
}

/// The texts of `parts` one after the other, with `between` after each but
/// the last.
pub open spec fn joined(parts: Seq<Seq<char>>, between: Seq<char>) -> Seq<char>
    decreases parts.len(),
{
    if parts.len() == 0 {
        Seq::empty()
    } else if parts.len() == 1 {
        parts[0]
    } else {
        joined(parts.drop_last(), between) + between + parts.last()
    }
}

/// The texts that the strings of `parts` hold.
pub open spec fn texts_of(parts: Seq<String>) -> Seq<Seq<char>> {
    parts.map_values(|part: String| part@)
}

/// Tells whether two texts hold the same characters.
pub fn same_text(left: &str, right: &str) -> (same: bool)
    ensures
        same == (left@ == right@),
{
    let a = chars_of(left);
    let b = chars_of(right);
    if a.len() != b.len() {
        return false;
    }
    let mut at: usize = 0;
    while at < a.len()
        invariant
            at <= a.len(),
            a.len() == b.len(),
            a@ == left@,
            b@ == right@,
            forall|k: int| 0 <= k < at ==> a@[k] == b@[k],
        decreases a.len() - at,
    {
        if a[at] != b[at] {
            return false;
        }
        at += 1;
    }
    assert(a@ =~= b@);
    true
}

/// Tells whether `part` stands in `text` at position `at`.
fn matches_at(text: &Vec<char>, part: &Vec<char>, at: usize) -> (found: bool)
    requires
        at + part.len() <= text.len(),
    ensures
        found == occurs_at(text@, part@, at as int),
{
    let mut k: usize = 0;
    while k < part.len()
        invariant
            k <= part.len(),
            at + part.len() <= text.len(),
            forall|j: int| 0 <= j < k ==> text@[at + j] == part@[j],
        decreases part.len() - k,
    {
        if text[at + k] != part[k] {
            assert(text@.subrange(at as int, at + part.len())[k as int] == text@[at + k]);
            return false;
        }
        k += 1;
    }
    assert(text@.subrange(at as int, at + part.len()) =~= part@);
    true
}

/// Tells whether `text` begins with `part`.
pub fn starts_with(text: &str, part: &str) -> (begins: bool)
    ensures
        begins == occurs_at(text@, part@, 0),
{
    let a = chars_of(text);
    let b = chars_of(part);
    if b.len() > a.len() {
        return false;
    }
    matches_at(&a, &b, 0)
}

/// Tells whether `part` stands somewhere in `text`.
pub fn contains(text: &str, part: &str) -> (found: bool)
    ensures
        found == contains_text(text@, part@),
{
    let a = chars_of(text);
    let b = chars_of(part);
    if b.len() > a.len() {
        return false;
    }
    let last: usize = a.len() - b.len();
    let mut at: usize = 0;
    loop
        invariant
            at <= last,
            last == a.len() - b.len(),
            a@ == text@,
            b@ == part@,
            forall|k: int| 0 <= k < at ==> !occurs_at(a@, b@, k),
        decreases last - at,
    {
        if matches_at(&a, &b, at) {
            return true;
        }
        if at == last {
            return false;
        }
        at += 1;
    }
}

/// `text` without its copies of `c`.
pub fn remove_char(text: &str, c: char) -> (rest: String)
    ensures
        rest@ == without_char(text@, c),
{
    let chars = chars_of(text);
    let mut rest = String::new();
    let mut from: usize = 0;
    let mut at: usize = 0;
    while at < chars.len()
        invariant
            from <= at <= chars.len(),
            chars@ == text@,
            rest@ + text@.subrange(from as int, at as int) == without_char(text@.take(at as int), c),
        decreases chars.len() - at,
    {
        proof {
            assert(text@.take(at + 1).drop_last() =~= text@.take(at as int));
        }
        if chars[at] == c {
            rest.append(text.substring_char(from, at));
            from = at + 1;
            assert(text@.subrange(from as int, at + 1) =~= Seq::<char>::empty());
            assert(rest@ + Seq::<char>::empty() =~= rest@);
        } else {
            assert(text@.subrange(from as int, at + 1) =~= text@.subrange(from as int, at as int).push(text@[at as int]));
            assert(rest@ + text@.subrange(from as int, at as int).push(text@[at as int])
                =~= (rest@ + text@.subrange(from as int, at as int)).push(text@[at as int]));
        }
        at += 1;
    }
    rest.append(text.substring_char(from, at));
    assert(text@.take(at as int) =~= text@);
    rest
}

/// The texts of `parts` one after the other, with `between` after each but
/// the last.
pub fn join(parts: &Vec<String>, between: &str) -> (whole: String)
    ensures
        whole@ == joined(texts_of(parts@), between@),
{
    let mut whole = String::new();
    let mut at: usize = 0;
    while at < parts.len()
        invariant
            at <= parts.len(),
            whole@ == joined(texts_of(parts@).take(at as int), between@),
        decreases parts.len() - at,
    {
        proof {
            let before = texts_of(parts@).take(at as int);
            let after = texts_of(parts@).take(at + 1);
            assert(after.drop_last() =~= before);
            assert(after.last() == parts@[at as int]@);
            if at == 0 {
                assert(Seq::<char>::empty() + parts@[0]@ =~= parts@[0]@);
            }
        }
        if at > 0 {
            whole.append(between);
        }
        whole.append(parts[at].as_str());
        at += 1;
    }
    assert(texts_of(parts@).take(at as int) =~= texts_of(parts@));
    whole
}

/// The pieces that `text` falls into where it is cut at each copy of
/// `separator`: one more than there are copies, some of them perhaps empty.
pub open spec fn split_on(text: Seq<char>, separator: char) -> Seq<Seq<char>>
    decreases text.len(),
{
    if text.len() == 0 {
        seq![Seq::empty()]
    } else {
        let before = split_on(text.drop_last(), separator);
        if text.last() == separator {
            before.push(Seq::empty())
        } else {
            before.drop_last().push(before.last().push(text.last()))
        }
    }
}

/// The words of `text`: its longest runs of characters that are no white
/// space, in order.
pub open spec fn words_of(text: Seq<char>) -> Seq<Seq<char>>
    decreases text.len(),
{
    if text.len() == 0 {
        Seq::empty()
    } else {
        let before = words_of(text.drop_last());
        if is_white_space(text.last()) {
            before
        } else if text.len() >= 2 && !is_white_space(text[text.len() - 2]) {
            before.drop_last().push(before.last().push(text.last()))
        } else {
            before.push(seq![text.last()])
        }
    }
}

/// The pieces that `text` falls into where it is cut at each copy of
/// `separator`.
pub fn split(text: &str, separator: char) -> (pieces: Vec<String>)
    ensures
        texts_of(pieces@) == split_on(text@, separator),
{
    let chars = chars_of(text);
    let mut pieces: Vec<String> = Vec::new();
    let mut from: usize = 0;
    let mut at: usize = 0;
    proof {
        assert(text@.take(0) =~= Seq::<char>::empty());
        assert(texts_of(pieces@).push(text@.subrange(0, 0)) =~= seq![Seq::<char>::empty()]);
    }
    while at < chars.len()
        invariant
            from <= at <= chars.len(),
            chars@ == text@,
            texts_of(pieces@).push(text@.subrange(from as int, at as int)) == split_on(
                text@.take(at as int),
                separator,
            ),
        decreases chars.len() - at,
    {
        let ghost open = text@.subrange(from as int, at as int);
        let ghost done = texts_of(pieces@);
        proof {
            assert(text@.take(at + 1).drop_last() =~= text@.take(at as int));
            assert(done.push(open).drop_last() =~= done);
        }
        if chars[at] == separator {
            let piece = String::from_str(text.substring_char(from, at));
            pieces.push(piece);
            from = at + 1;
            proof {
                assert(texts_of(pieces@) =~= done.push(open));
                assert(text@.subrange(from as int, at + 1) =~= Seq::<char>::empty());
            }
        } else {
            assert(text@.subrange(from as int, at + 1) =~= open.push(text@[at as int]));
        }
        at += 1;
    }
    let ghost done = texts_of(pieces@);
    let piece = String::from_str(text.substring_char(from, at));
    pieces.push(piece);
    proof {
        assert(text@.take(at as int) =~= text@);
        assert(texts_of(pieces@) =~= done.push(text@.subrange(from as int, at as int)));
    }
    pieces
}

/// The words of `text`.
pub fn split_whitespace(text: &str) -> (words: Vec<String>)
    ensures
        texts_of(words@) == words_of(text@),
{
    let chars = chars_of(text);
    let mut words: Vec<String> = Vec::new();
    let mut from: usize = 0;
    let mut inside: bool = false;
    let mut at: usize = 0;
    while at < chars.len()
        invariant
            from <= at <= chars.len(),
            chars@ == text@,
            inside == (at > 0 && !is_white_space(text@[at - 1])),
            inside ==> from < at && texts_of(words@).push(text@.subrange(from as int, at as int))
                == words_of(text@.take(at as int)),
            !inside ==> texts_of(words@) == words_of(text@.take(at as int)),
        decreases chars.len() - at,
    {
        let ghost open = text@.subrange(from as int, at as int);
        let ghost done = texts_of(words@);
        proof {
            assert(text@.take(at + 1).drop_last() =~= text@.take(at as int));
            assert(done.push(open).drop_last() =~= done);
        }
        if is_white_space_char(chars[at]) {
            if inside {
                let word = String::from_str(text.substring_char(from, at));
                words.push(word);
                inside = false;
                assert(texts_of(words@) =~= done.push(open));
            }
        } else if inside {
            assert(text@.subrange(from as int, at + 1) =~= open.push(text@[at as int]));
        } else {
            from = at;
            inside = true;
            assert(text@.subrange(from as int, at + 1) =~= seq![text@[at as int]]);
        }
        at += 1;
    }
    if inside {
        let ghost done = texts_of(words@);
        let word = String::from_str(text.substring_char(from, at));
        words.push(word);
        assert(texts_of(words@) =~= done.push(text@.subrange(from as int, at as int)));
    }
    assert(text@.take(at as int) =~= text@);
    words
}

} // verus!
