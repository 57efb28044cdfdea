//! Text helpers for the settings file and the command line: characters of a
//! string, line splitting, trimming, and decimal integers.

use vstd::prelude::*;
use vstd::std_specs::iter::IteratorSpec;

verus! {

/// The characters of `text`.
pub fn chars_of(text: &str) -> (chars: Vec<char>)
    ensures
        chars@ == text@,
{
    broadcast use vstd::string::group_string_axioms;
    let mut chars: Vec<char> = Vec::new();
    for c in it: text.chars()
        invariant
            chars@ == it.seq().take(it.index() as int),
    {
        chars.push(c);
    }
    chars
}

/// Is `c` a white space character: the characters that have the Unicode
/// `White_Space` property.
pub open spec fn is_white_space(c: char) -> bool {
    let u = c as u32;
    ||| 0x9 <= u <= 0xD
    ||| u == 0x20
    ||| u == 0x85
    ||| u == 0xA0
    ||| u == 0x1680
    ||| 0x2000 <= u <= 0x200A
    ||| u == 0x2028
    ||| u == 0x2029
    ||| u == 0x202F
    ||| u == 0x205F
    ||| u == 0x3000
}

/// Is `c` a white space character, as `char::is_whitespace` tells: the
/// characters with the Unicode `White_Space` property.
pub fn char_is_whitespace(c: char) -> (res: bool)
    ensures
        res == is_white_space(c),
{
    let u = c as u32;
    (0x9 <= u && u <= 0xD) || u == 0x20 || u == 0x85 || u == 0xA0 || u == 0x1680
        || (0x2000 <= u && u <= 0x200A) || u == 0x2028 || u == 0x2029 || u == 0x202F
        || u == 0x205F || u == 0x3000
}

/// `s` without its leading white space.
pub open spec fn trim_start(s: Seq<char>) -> Seq<char>
    decreases s.len(),
{
    if s.len() > 0 && is_white_space(s[0]) {
        trim_start(s.drop_first())
    } else {
        s
    }
}

/// `s` without its trailing white space.
pub open spec fn trim_end(s: Seq<char>) -> Seq<char>
    decreases s.len(),
{
    if s.len() > 0 && is_white_space(s.last()) {
        trim_end(s.drop_last())
    } else {
        s
    }
}

/// `s` without leading and trailing white space.
pub open spec fn trim(s: Seq<char>) -> Seq<char> {
    trim_end(trim_start(s))
}

/// Bounds of the trimmed part of `chars[start..end]`.
pub fn trim_range(chars: &Vec<char>, start: usize, end: usize) -> (range: (usize, usize))
    requires
        start <= end <= chars@.len(),
    ensures
        start <= range.0 <= range.1 <= end,
        range.0 == end - trim_start(chars@.subrange(start as int, end as int)).len(),
        range.1 == range.0 + trim(chars@.subrange(start as int, end as int)).len(),
        chars@.subrange(range.0 as int, range.1 as int) == trim(chars@.subrange(start as int, end as int)),
{
    let mut a = start;
    while a < end && char_is_whitespace(chars[a])
        invariant
            start <= a <= end <= chars@.len(),
            trim_start(chars@.subrange(start as int, end as int)) == trim_start(chars@.subrange(a as int, end as int)),
        decreases end - a,
    {
        assert(chars@.subrange(a as int, end as int).drop_first() =~= chars@.subrange(a + 1, end as int));
        a = a + 1;
    }
    assert(trim_start(chars@.subrange(a as int, end as int)) == chars@.subrange(a as int, end as int));
    let mut b = end;
    while b > a && char_is_whitespace(chars[b - 1])
        invariant
            start <= a <= b <= end <= chars@.len(),
            trim_end(chars@.subrange(a as int, end as int)) == trim_end(chars@.subrange(a as int, b as int)),
        decreases b - a,
    {
        assert(chars@.subrange(a as int, b as int).drop_last() =~= chars@.subrange(a as int, b - 1));
        b = b - 1;
    }
    assert(trim_end(chars@.subrange(a as int, b as int)) == chars@.subrange(a as int, b as int));
    (a, b)
}

/// Is `chars[start..end]` the same text as `literal`.
pub fn range_equals(chars: &Vec<char>, start: usize, end: usize, literal: &str) -> (equal: bool)
    requires
        start <= end <= chars@.len(),
    ensures
        equal == (chars@.subrange(start as int, end as int) == literal@),
{
    let literal_chars = chars_of(literal);
    if end - start != literal_chars.len() {
        assert(chars@.subrange(start as int, end as int).len() != literal@.len());
        return false;
    }
    let mut i: usize = 0;
    while i < literal_chars.len()
        invariant
            start <= end <= chars@.len(),
            end - start == literal_chars@.len(),
            literal_chars@ == literal@,
            i <= literal_chars@.len(),
            forall|j: int| 0 <= j < i ==> chars@[start + j] == literal_chars@[j],
        decreases literal_chars@.len() - i,
    {
        if chars[start + i] != literal_chars[i] {
            assert(chars@.subrange(start as int, end as int)[i as int] != literal@[i as int]);
            return false;
        }
        i = i + 1;
    }
    assert(chars@.subrange(start as int, end as int) =~= literal@);
    true
}

/// Is `a` the same text as `b`.
pub fn str_equals(a: &str, b: &str) -> (equal: bool)
    ensures
        equal == (a@ == b@),
{
    let chars = chars_of(a);
    let equal = range_equals(&chars, 0, chars.len(), b);
    assert(chars@.subrange(0, chars@.len() as int) =~= a@);
    equal
}

/// Every piece of `s` between newline characters, the last piece included
/// even when it is empty.
pub open spec fn newline_pieces(s: Seq<char>) -> Seq<Seq<char>>
    decreases s.len(),
{
    if s.len() == 0 {
        seq![Seq::<char>::empty()]
    } else {
        let rest = newline_pieces(s.drop_last());
        if s.last() == '\n' {
            rest.push(Seq::<char>::empty())
        } else {
            rest.update(rest.len() - 1, rest.last().push(s.last()))
        }
    }
}

/// The lines of `s`: the pieces between newline characters, where a newline at
/// the end of the text does not start one more line.
pub open spec fn text_lines(s: Seq<char>) -> Seq<Seq<char>> {
    let pieces = newline_pieces(s);
    if pieces.last().len() == 0 {
        pieces.drop_last()
    } else {
        pieces
    }
}

/// The text made of `lines`, each one followed by a newline.
pub open spec fn join_lines(lines: Seq<Seq<char>>) -> Seq<char>
    decreases lines.len(),
{
    if lines.len() == 0 {
        Seq::<char>::empty()
    } else {
        join_lines(lines.drop_last()) + lines.last() + seq!['\n']
    }
}

/// `newline_pieces` always holds at least one piece.
pub proof fn lemma_newline_pieces_nonempty(s: Seq<char>)
    ensures
        newline_pieces(s).len() >= 1,
    decreases s.len(),
{
    if s.len() > 0 {
        lemma_newline_pieces_nonempty(s.drop_last());
    }
}

/// Text without newlines extends the last piece.
proof fn lemma_newline_pieces_append(s: Seq<char>, line: Seq<char>)
    requires
        !line.contains('\n'),
    ensures
        newline_pieces(s + line).len() == newline_pieces(s).len(),
        newline_pieces(s + line) == newline_pieces(s).update(
            newline_pieces(s).len() - 1,
            newline_pieces(s).last() + line,
        ),
    decreases line.len(),
{
    lemma_newline_pieces_nonempty(s);
    if line.len() == 0 {
        assert(s + line =~= s);
        assert(newline_pieces(s).last() + line =~= newline_pieces(s).last());
        assert(newline_pieces(s).update(newline_pieces(s).len() - 1, newline_pieces(s).last())
            =~= newline_pieces(s));
    } else {
        let shorter = line.drop_last();
        assert(!shorter.contains('\n')) by {
            if shorter.contains('\n') {
                let k = choose|k: int| 0 <= k < shorter.len() && shorter[k] == '\n';
                assert(line[k] == '\n');
            }
        }
        lemma_newline_pieces_append(s, shorter);
        assert((s + line).drop_last() =~= s + shorter);
        assert((s + line).last() == line.last());
        assert(line.last() != '\n') by {
            assert(line[line.len() - 1] == line.last());
        }
        assert(newline_pieces(s).last() + shorter + seq![line.last()] =~= newline_pieces(s).last() + line);
        let pieces = newline_pieces(s);
        let rest = newline_pieces(s + shorter);
        assert(newline_pieces(s + line) == rest.update(rest.len() - 1, rest.last().push(line.last())));
        assert(rest.len() == pieces.len());
        assert(rest.last() == pieces.last() + shorter);
        assert((pieces.last() + shorter).push(line.last()) =~= pieces.last() + line);
        assert(newline_pieces(s + line) =~= newline_pieces(s).update(
            newline_pieces(s).len() - 1,
            newline_pieces(s).last() + line,
        ));
    }
}

/// Lines without newlines, each one followed by a newline, are read back as
/// the same lines.
pub proof fn lemma_lines_of_joined(lines: Seq<Seq<char>>)
    requires
        forall|i: int| 0 <= i < lines.len() ==> !(#[trigger] lines[i]).contains('\n'),
    ensures
        newline_pieces(join_lines(lines)) == lines.push(Seq::<char>::empty()),
        text_lines(join_lines(lines)) == lines,
    decreases lines.len(),
{
    if lines.len() == 0 {
        assert(newline_pieces(join_lines(lines)) =~= lines.push(Seq::<char>::empty()));
    } else {
        let init = lines.drop_last();
        assert forall|i: int| 0 <= i < init.len() implies !(#[trigger] init[i]).contains('\n') by {
            assert(init[i] == lines[i]);
        }
        lemma_lines_of_joined(init);
        let prefix = join_lines(init);
        let last = lines.last();
        assert(!last.contains('\n')) by {
            assert(lines[lines.len() - 1] == last);
        }
        lemma_newline_pieces_append(prefix, last);
        let with_line = prefix + last;
        assert(join_lines(lines) == with_line + seq!['\n']);
        assert((with_line + seq!['\n']).drop_last() =~= with_line);
        assert(newline_pieces(with_line) =~= lines);
        assert(newline_pieces(join_lines(lines)) =~= lines.push(Seq::<char>::empty()));
    }
    assert(lines.push(Seq::<char>::empty()).drop_last() =~= lines);
}

/// Text after text `s` that is empty or ends with a newline starts new pieces:
/// the pieces of `s + rest` are those of `s` but its empty last one, and then
/// those of `rest`.
pub proof fn lemma_newline_pieces_after_line_end(s: Seq<char>, rest: Seq<char>)
    requires
        s.len() == 0 || s.last() == '\n',
    ensures
        newline_pieces(s + rest) == newline_pieces(s).drop_last() + newline_pieces(rest),
    decreases rest.len(),
{
    lemma_newline_pieces_nonempty(s);
    if rest.len() == 0 {
        assert(s + rest =~= s);
        assert(newline_pieces(s).last() == Seq::<char>::empty());
        assert(newline_pieces(s).drop_last() + newline_pieces(rest) =~= newline_pieces(s));
    } else {
        let shorter = rest.drop_last();
        lemma_newline_pieces_after_line_end(s, shorter);
        lemma_newline_pieces_nonempty(shorter);
        assert((s + rest).drop_last() =~= s + shorter);
        assert((s + rest).last() == rest.last());
        let d = newline_pieces(s).drop_last();
        let p = newline_pieces(shorter);
        if rest.last() == '\n' {
            assert((d + p).push(Seq::<char>::empty()) =~= d + p.push(Seq::<char>::empty()));
        } else {
            assert((d + p).last() == p.last());
            assert((d + p).update((d + p).len() - 1, p.last().push(rest.last()))
                =~= d + p.update(p.len() - 1, p.last().push(rest.last())));
        }
    }
}

/// The lines of the text of `lines` followed by text `rest` are `lines` and
/// then the lines of `rest`.
pub proof fn lemma_text_lines_after_joined(lines: Seq<Seq<char>>, rest: Seq<char>)
    requires
        forall|i: int| 0 <= i < lines.len() ==> !(#[trigger] lines[i]).contains('\n'),
    ensures
        text_lines(join_lines(lines) + rest) == lines + text_lines(rest),
{
    lemma_lines_of_joined(lines);
    let j = join_lines(lines);
    if lines.len() > 0 {
        assert(j == join_lines(lines.drop_last()) + lines.last() + seq!['\n']);
        assert(j.last() == '\n');
    }
    lemma_newline_pieces_after_line_end(j, rest);
    lemma_newline_pieces_nonempty(rest);
    assert(lines.push(Seq::<char>::empty()).drop_last() =~= lines);
    let p = newline_pieces(rest);
    assert((lines + p).last() == p.last());
    assert((lines + p).drop_last() =~= lines + p.drop_last());
}

/// The character of decimal digit `d`.
pub open spec fn digit_char(d: int) -> char {
    (d + 48) as char
}

/// Is `c` a decimal digit.
pub open spec fn is_digit(c: char) -> bool {
    48 <= c as u32 <= 57
}

/// Decimal digits of `n`, without leading zeros.
pub open spec fn nat_decimal(n: nat) -> Seq<char>
    decreases n,
{
    if n < 10 {
        seq![digit_char(n as int)]
    } else {
        nat_decimal(n / 10).push(digit_char(n as int % 10))
    }
}

/// Decimal text of `v`, with a minus sign when it is negative.
pub open spec fn int_decimal(v: int) -> Seq<char> {
    if v < 0 {
        seq!['-'] + nat_decimal((-v) as nat)
    } else {
        nat_decimal(v as nat)
    }
}

/// Are all characters of `s` decimal digits.
pub open spec fn all_digits(s: Seq<char>) -> bool {
    forall|i: int| 0 <= i < s.len() ==> is_digit(#[trigger] s[i])
}

/// The number that the decimal digits `s` stand for.
pub open spec fn digits_value(s: Seq<char>) -> int
    decreases s.len(),
{
    if s.len() == 0 {
        0
    } else {
        digits_value(s.drop_last()) * 10 + (s.last() as u32 - 48)
    }
}

/// The `i32` that `s` stands for: an optional `+` or `-` sign, then at least one
/// decimal digit and nothing else, the value within the range of `i32`.
pub open spec fn parse_i32(s: Seq<char>) -> Option<i32> {
    let negative = s.len() > 0 && s[0] == '-';
    let digits = if s.len() > 0 && (s[0] == '-' || s[0] == '+') { s.drop_first() } else { s };
    if digits.len() == 0 || !all_digits(digits) {
        None
    } else {
        let v = if negative { -digits_value(digits) } else { digits_value(digits) };
        if i32::MIN <= v <= i32::MAX {
            Some(v as i32)
        } else {
            None
        }
    }
}

/// Calls `i32::to_string`, whose `Display` output for integers is the decimal
/// text of the value with a minus sign for negative values.
#[verifier::external_body]
pub(crate) fn i32_to_string(value: i32) -> (text: String)
    ensures
        text@ == int_decimal(value as int),
{
    value.to_string()
}

/// Calls `str::parse::<i32>`, which accepts an optional sign followed by one or
/// more decimal digits whose value fits in `i32`, and refuses everything else.
#[verifier::external_body]
pub(crate) fn parse_i32_text(text: &str) -> (value: Option<i32>)
    ensures
        value == parse_i32(text@),
{
    text.parse::<i32>().ok()
}

/// The decimal digits of `n` are digits that stand for `n`.
pub proof fn lemma_nat_decimal(n: nat)
    ensures
        nat_decimal(n).len() > 0,
        all_digits(nat_decimal(n)),
        digits_value(nat_decimal(n)) == n,
    decreases n,
{
    if n < 10 {
        assert(is_digit(digit_char(n as int)));
        assert(digits_value(nat_decimal(n).drop_last()) == 0) by {
            assert(nat_decimal(n).drop_last() =~= Seq::<char>::empty());
        }
    } else {
        lemma_nat_decimal(n / 10);
        let d = nat_decimal(n);
        assert(d.drop_last() =~= nat_decimal(n / 10));
        assert(is_digit(digit_char(n as int % 10)));
        assert forall|i: int| 0 <= i < d.len() implies is_digit(#[trigger] d[i]) by {
            if i < d.len() - 1 {
                assert(d[i] == nat_decimal(n / 10)[i]);
            }
        }
        assert(n == (n / 10) * 10 + n % 10);
    }
}

/// Reading the decimal text of an `i32` gives the value back.
pub proof fn lemma_parse_decimal(v: i32)
    ensures
        parse_i32(int_decimal(v as int)) == Some(v),
{
    let text = int_decimal(v as int);
    if v < 0 {
        let m = (-(v as int)) as nat;
        lemma_nat_decimal(m);
        assert(text[0] == '-');
        assert(text.drop_first() =~= nat_decimal(m));
    } else {
        lemma_nat_decimal(v as nat);
        let d = nat_decimal(v as nat);
        assert(is_digit(d[0]));
        assert(text[0] != '-' && text[0] != '+');
    }
}

} // verus!
