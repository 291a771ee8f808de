//! Text helpers: comparing strings, writing numbers in decimal, quoting, and
//! cutting a line into words.

use vstd::prelude::*;
use vstd::string::StrSliceExecFns;
use vstd::string::StringExecFns;

verus! {

/// The character that stands for the digit `d`.
pub open spec fn digit(d: nat) -> char {
    if d == 0 {
        '0'
    } else if d == 1 {
        '1'
    } else if d == 2 {
        '2'
    } else if d == 3 {
        '3'
    } else if d == 4 {
        '4'
    } else if d == 5 {
        '5'
    } else if d == 6 {
        '6'
    } else if d == 7 {
        '7'
    } else if d == 8 {
        '8'
    } else {
        '9'
    }
}

/// The decimal numeral of `n`, without leading zeros.
pub open spec fn decimal(n: nat) -> Seq<char>
    decreases n,
{
    if n < 10 {
        seq![digit(n)]
    } else {
        decimal(n / 10).push(digit(n % 10))
    }
}

/// What `{:?}` prints for a string: the string between double quotes, with
/// the characters that need it escaped.
pub uninterp spec fn quoted(s: Seq<char>) -> Seq<char>;

/// Whether `c` is white space, as Unicode defines it.
pub open spec fn is_space(c: char) -> bool {
    let u = c as u32;
    ||| 0x09 <= u <= 0x0D
    ||| u == 0x20
    ||| u == 0x85
    ||| u == 0xA0
    ||| u == 0x1680
    ||| 0x2000 <= u <= 0x200A
    ||| u == 0x2028
    ||| u == 0x2029
    ||| u == 0x202F
    ||| u == 0x205F
    ||| u == 0x3000
}

/// The words of `s`: its maximal runs of characters that are not white
/// space, from left to right.
///
/// Read from the end: a trailing space adds nothing; a character that
/// follows another character of a word lengthens the last word; any other
/// character begins a new word.
pub open spec fn words(s: Seq<char>) -> Seq<Seq<char>>
    decreases s.len(),
{
    if s.len() == 0 {
        Seq::empty()
    } else if is_space(s.last()) {
        words(s.drop_last())
    } else if s.len() >= 2 && !is_space(s[s.len() - 2]) {
        let before = words(s.drop_last());
        before.drop_last().push(before.last().push(s.last()))
    } else {
        words(s.drop_last()).push(seq![s.last()])
    }
}

/// The pieces into which the separator `sep` cuts `s`, from left to right.
/// There is always one piece more than there are separators, and a piece
/// may be empty.
pub open spec fn split_on(s: Seq<char>, sep: char) -> Seq<Seq<char>>
    decreases s.len(),
{
    if s.len() == 0 {
        seq![Seq::empty()]
    } else if s.last() == sep {
        split_on(s.drop_last(), sep).push(Seq::empty())
    } else {
        let before = split_on(s.drop_last(), sep);
        before.drop_last().push(before.last().push(s.last()))
    }
}

/// How many characters of `s` stand before its first character that is not
/// white space: the whole length where there is no such character.
pub open spec fn leading_space(s: Seq<char>) -> int
    decreases s.len(),
{
    if s.len() == 0 || !is_space(s[0]) {
        0
    } else {
        1 + leading_space(s.drop_first())
    }
}

/// The length of `s` without the white space at its end.
pub open spec fn trimmed_end(s: Seq<char>) -> int
    decreases s.len(),
{
    if s.len() == 0 || !is_space(s.last()) {
        s.len() as int
    } else {
        trimmed_end(s.drop_last())
    }
}

/// `s` without the white space at its two ends.
pub open spec fn trimmed(s: Seq<char>) -> Seq<char> {
    if leading_space(s) >= trimmed_end(s) {
        Seq::empty()
    } else {
        s.subrange(leading_space(s), trimmed_end(s))
    }
}

/// The value of a digit; none for any other character.
pub open spec fn digit_value(c: char) -> Option<nat> {
    if '0' <= c <= '9' {
        Some((c as u32 - '0' as u32) as nat)
    } else {
        None
    }
}

/// The number that a row of digits writes in decimal; none where a
/// character is no digit. The empty row writes 0.
pub open spec fn digits_value(s: Seq<char>) -> Option<nat>
    decreases s.len(),
{
    if s.len() == 0 {
        Some(0)
    } else {
        match (digits_value(s.drop_last()), digit_value(s.last())) {
            (Some(before), Some(digit)) => Some(before * 10 + digit),
            _ => None,
        }
    }
}

/// The number that `s` writes: a row of one or more digits, with or without
/// a `+` before it, whose value a `u32` holds. Any other text writes none.
pub open spec fn number(s: Seq<char>) -> Option<u32> {
    let digits = if s.len() > 1 && s[0] == '+' {
        s.drop_first()
    } else {
        s
    };
    if digits.len() == 0 {
        None
    } else {
        match digits_value(digits) {
            Some(value) => if value <= u32::MAX {
                Some(value as u32)
            } else {
                None
            },
            None => None,
        }
    }
}

/// A row of digits that goes on behind a row with a value is worth at
/// least as much, if it is worth anything.
pub proof fn lemma_digits_grow(s: Seq<char>, n: int)
    requires
        0 <= n <= s.len(),
    ensures
        digits_value(s) matches Some(all) ==> digits_value(s.take(n)) matches Some(part) && part
            <= all,
    decreases s.len() - n,
{
    if n < s.len() {
        lemma_digits_grow(s.drop_last(), n);
        assert(s.drop_last().take(n) =~= s.take(n));
    } else {
        assert(s.take(n) =~= s);
    }
}

/// The words from index `from` on, with one space between neighbours.
pub open spec fn joined(words: Seq<Seq<char>>, from: int) -> Seq<char>
    decreases words.len() - from,
{
    if from < 0 || from >= words.len() {
        Seq::empty()
    } else if from == words.len() - 1 {
        words[from]
    } else {
        words[from] + seq![' '] + joined(words, from + 1)
    }
}

/// Whether two strings hold the same characters.
pub fn same_text(a: &str, b: &str) -> (same: bool)
    ensures
        same == (a@ == b@),
{
    let left: String = a.to_owned();
    let right: String = b.to_owned();
    left == right
}

fn digit_text(d: u32) -> (s: &'static str)
    requires
        d < 10,
    ensures
        s@ == seq![digit(d as nat)],
{
    proof {
        reveal_strlit("0");
        reveal_strlit("1");
        reveal_strlit("2");
        reveal_strlit("3");
        reveal_strlit("4");
        reveal_strlit("5");
        reveal_strlit("6");
        reveal_strlit("7");
        reveal_strlit("8");
        reveal_strlit("9");
    }
    let s: &'static str = if d == 0 {
        "0"
    } else if d == 1 {
        "1"
    } else if d == 2 {
        "2"
    } else if d == 3 {
        "3"
    } else if d == 4 {
        "4"
    } else if d == 5 {
        "5"
    } else if d == 6 {
        "6"
    } else if d == 7 {
        "7"
    } else if d == 8 {
        "8"
    } else {
        "9"
    };
    s
}

/// Writes `n` in decimal.
pub fn decimal_text(n: u32) -> (s: String)
    ensures
        s@ == decimal(n as nat),
    decreases n,
{
    if n < 10 {
        digit_text(n).to_owned()
    } else {
        let mut s: String = decimal_text(n / 10);
        s.append(digit_text(n % 10));
        s
    }
}

/// Formats `s` with `{:?}`, which for a string is `<str as Debug>::fmt`:
/// the result is the quoted form of `s`.
#[verifier::external_body]
pub(crate) fn debug_text(s: &str) -> (r: String)
    ensures
        r@ == quoted(s@),
{
    format!("{:?}", s)
}

/// Whether `c` is white space.
pub fn is_whitespace(c: char) -> (r: bool)
    ensures
        r == is_space(c),
{
    let u: u32 = c as u32;
    (0x09 <= u && u <= 0x0D) || u == 0x20 || u == 0x85 || u == 0xA0 || u == 0x1680 || (0x2000 <= u
        && u <= 0x200A) || u == 0x2028 || u == 0x2029 || u == 0x202F || u == 0x205F || u == 0x3000
}

/// The views of a list of string slices.
pub open spec fn views(parts: Seq<&str>) -> Seq<Seq<char>> {
    parts.map_values(|part: &str| part@)
}

/// Cuts `line` into its words.
pub fn split_words<'a>(line: &'a str) -> (parts: Vec<&'a str>)
    ensures
        views(parts@) == words(line@),
{
    let len: usize = line.unicode_len();
    let mut parts: Vec<&'a str> = Vec::new();
    let mut in_word: bool = false;
    let mut start: usize = 0;
    let mut at: usize = 0;
    for c in it: line.chars()
        invariant
            it.seq() == line@,
            line@.len() == len,
            at == it.index(),
            start <= at,
            in_word ==> start < at && !is_space(line@[at - 1]) && words(line@.take(at as int))
                == views(parts@).push(line@.subrange(start as int, at as int)),
            !in_word ==> (at == 0 || is_space(line@[at - 1])) && words(line@.take(at as int))
                == views(parts@),
    {
        let ghost before = line@.take(at as int);
        let ghost now = line@.take(at + 1);
        assert(now.drop_last() =~= before);
        if is_whitespace(c) {
            if in_word {
                let part: &'a str = line.substring_char(start, at);
                parts.push(part);
                in_word = false;
            }
        } else {
            if in_word {
                assert(line@.subrange(start as int, at + 1) =~= line@.subrange(
                    start as int,
                    at as int,
                ).push(c));
            } else {
                start = at;
                in_word = true;
                assert(line@.subrange(start as int, at + 1) =~= seq![c]);
            }
        }
        at = at + 1;
    }
    assert(line@.take(len as int) =~= line@);
    if in_word {
        let part: &'a str = line.substring_char(start, len);
        parts.push(part);
    }
    parts
}

/// The white space at the start of `s` ends where its first other character
/// stands.
pub proof fn lemma_leading_space(s: Seq<char>, at: int)
    requires
        0 <= at <= s.len(),
        forall|j: int| 0 <= j < at ==> is_space(#[trigger] s[j]),
        at < s.len() ==> !is_space(s[at]),
    ensures
        leading_space(s) == at,
    decreases s.len(),
{
    if s.len() > 0 && at > 0 {
        let rest = s.drop_first();
        assert forall|j: int| 0 <= j < at - 1 implies is_space(#[trigger] rest[j]) by {}
        lemma_leading_space(rest, at - 1);
    }
}

/// Cuts `s` at every `sep`.
pub fn split_at<'a>(s: &'a str, sep: char) -> (parts: Vec<&'a str>)
    ensures
        views(parts@) == split_on(s@, sep),
{
    let len: usize = s.unicode_len();
    let mut parts: Vec<&'a str> = Vec::new();
    let mut start: usize = 0;
    let mut at: usize = 0;
    assert(s@.take(0) =~= Seq::<char>::empty());
    for c in it: s.chars()
        invariant
            it.seq() == s@,
            s@.len() == len,
            at == it.index(),
            start <= at,
            split_on(s@.take(at as int), sep) == views(parts@).push(
                s@.subrange(start as int, at as int),
            ),
    {
        let ghost before = s@.take(at as int);
        let ghost now = s@.take(at + 1);
        assert(now.drop_last() =~= before);
        if c == sep {
            let part: &'a str = s.substring_char(start, at);
            parts.push(part);
            start = at + 1;
            assert(s@.subrange(start as int, at + 1) =~= Seq::<char>::empty());
        } else {
            assert(s@.subrange(start as int, at + 1) =~= s@.subrange(start as int, at as int).push(
                c,
            ));
        }
        at = at + 1;
    }
    assert(s@.take(len as int) =~= s@);
    let part: &'a str = s.substring_char(start, len);
    parts.push(part);
    parts
}

/// Takes the white space off the two ends of `s`.
pub fn trim<'a>(s: &'a str) -> (r: &'a str)
    ensures
        r@ == trimmed(s@),
{
    let len: usize = s.unicode_len();
    let mut first: usize = 0;
    let mut found: bool = false;
    let mut end: usize = 0;
    let mut at: usize = 0;
    for c in it: s.chars()
        invariant
            it.seq() == s@,
            s@.len() == len,
            at == it.index(),
            end <= at,
            end == trimmed_end(s@.take(at as int)),
            found ==> first < at && !is_space(s@[first as int]) && forall|j: int|
                0 <= j < first ==> is_space(#[trigger] s@[j]),
            !found ==> forall|j: int| 0 <= j < at ==> is_space(#[trigger] s@[j]),
    {
        let ghost before = s@.take(at as int);
        let ghost now = s@.take(at + 1);
        assert(now.drop_last() =~= before);
        if !is_whitespace(c) {
            if !found {
                first = at;
                found = true;
            }
            end = at + 1;
        }
        at = at + 1;
    }
    assert(s@.take(len as int) =~= s@);
    if found {
        proof {
            lemma_leading_space(s@, first as int);
            lemma_trimmed_end_behind(s@, first as int);
        }
        s.substring_char(first, end)
    } else {
        proof {
            lemma_leading_space(s@, len as int);
        }
        s.substring_char(0, 0)
    }
}

/// The end of `s` without its trailing white space lies behind every
/// character that is not white space.
pub proof fn lemma_trimmed_end_behind(s: Seq<char>, at: int)
    requires
        0 <= at < s.len(),
        !is_space(s[at]),
    ensures
        at < trimmed_end(s) <= s.len(),
    decreases s.len(),
{
    if is_space(s.last()) {
        lemma_trimmed_end_behind(s.drop_last(), at);
    }
}

/// Reads the number that `s` writes; see [`number`].
pub fn parse_number(s: &str) -> (value: Option<u32>)
    ensures
        value == number(s@),
{
    let len: usize = s.unicode_len();
    let mut total: u64 = 0;
    let mut at: usize = 0;
    let mut signed: bool = false;
    let ghost digits = if s@.len() > 1 && s@[0] == '+' {
        s@.drop_first()
    } else {
        s@
    };
    for c in it: s.chars()
        invariant
            it.seq() == s@,
            s@.len() == len,
            at == it.index(),
            digits == if s@.len() > 1 && s@[0] == '+' {
                s@.drop_first()
            } else {
                s@
            },
            signed == (at > 0 && s@.len() > 1 && s@[0] == '+'),
            total <= u32::MAX,
            digits_value(digits.take(if signed {
                at - 1
            } else {
                at as int
            })) == Some(total as nat),
    {
        if at == 0 && len > 1 && c == '+' {
            signed = true;
        } else {
            let ghost seen = if signed {
                at - 1
            } else {
                at as int
            };
            assert(digits.take(seen + 1).drop_last() =~= digits.take(seen));
            if c < '0' || c > '9' {
                proof {
                    lemma_digits_grow(digits, seen + 1);
                }
                return None;
            }
            let digit: u64 = (c as u32 - '0' as u32) as u64;
            total = total * 10 + digit;
            if total > 0xffff_ffff {
                proof {
                    lemma_digits_grow(digits, seen + 1);
                }
                return None;
            }
        }
        at = at + 1;
    }
    assert(digits.take(digits.len() as int) =~= digits);
    if len == 0 {
        None
    } else {
        Some(total as u32)
    }
}

/// Joins the words from index `from` on with single spaces.
pub fn join_words(parts: &Vec<&str>, from: usize) -> (r: String)
    ensures
        r@ == joined(views(parts@), from as int),
    decreases parts@.len() - from,
{
    if from >= parts.len() {
        String::new()
    } else if from == parts.len() - 1 {
        parts[from].to_owned()
    } else {
        let mut r: String = parts[from].to_owned();
        r.append(" ");
        proof {
            reveal_strlit(" ");
        }
        let rest: String = join_words(parts, from + 1);
        r.append(rest.as_str());
        r
    }
}

} // verus!
