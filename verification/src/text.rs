//! Text as sequences of characters: splitting into pieces, lines and words,
//! trimming, and decimal numbers. The parsers of this library are built
//! from these.

use vstd::prelude::*;
use vstd::utf8::{decode_utf8, valid_utf8};

verus! {

/// Appends one character to a string (`String::push`).
#[verifier::external_body]
pub(crate) fn push_char(s: &mut String, c: char)
    ensures
        final(s)@ == old(s)@.push(c),
{
    s.push(c);
}

/// The text that a byte sequence decodes to when every invalid sequence in it
/// is replaced: what `String::from_utf8_lossy` gives.
pub uninterp spec fn utf8_lossy(bytes: Seq<u8>) -> Seq<char>;

/// `String::from_utf8_lossy`: decodes `bytes` as UTF-8 and substitutes the
/// replacement character for what is invalid, so that any input gives a
/// string. Valid UTF-8 is decoded as it stands.
#[verifier::external_body]
pub(crate) fn from_utf8_lossy(bytes: &[u8]) -> (out: String)
    ensures
        out@ == utf8_lossy(bytes@),
        valid_utf8(bytes@) ==> out@ == decode_utf8(bytes@),
{
    String::from_utf8_lossy(bytes).into_owned()
}

/// Whether `c` is white space, as `char::is_whitespace` tells.
pub uninterp spec fn is_whitespace(c: char) -> bool;

/// `char::is_whitespace`: whether `c` has the Unicode property White_Space.
#[verifier::external_body]
pub(crate) fn char_is_whitespace(c: char) -> (out: bool)
    ensures
        out == is_whitespace(c),
{
    c.is_whitespace()
}

/// Whether `c` is a letter or a number, as `char::is_alphanumeric` tells.
pub uninterp spec fn is_alphanumeric(c: char) -> bool;

/// `char::is_alphanumeric`: whether `c` is alphabetic or numeric by its
/// Unicode properties.
#[verifier::external_body]
pub(crate) fn char_is_alphanumeric(c: char) -> (out: bool)
    ensures
        out == is_alphanumeric(c),
{
    c.is_alphanumeric()
}

/// `text` in lower case, as `str::to_lowercase` gives it.
pub uninterp spec fn lowercase(text: Seq<char>) -> Seq<char>;

/// `str::to_lowercase`: the lower-case equivalent of `text` by Unicode's
/// case mapping.
#[verifier::external_body]
pub(crate) fn str_to_lowercase(text: &str) -> (out: String)
    ensures
        out@ == lowercase(text@),
{
    text.to_lowercase()
}

/// The texts of `v`, in order.
pub open spec fn texts(v: Seq<String>) -> Seq<Seq<char>> {
    Seq::new(v.len(), |i: int| v[i]@)
}

/// The character sequences of `v`, in order.
pub open spec fn views(v: Seq<Vec<char>>) -> Seq<Seq<char>> {
    Seq::new(v.len(), |i: int| v[i]@)
}

/// The characters of `s`, in order.
pub fn chars_of(s: &str) -> (out: Vec<char>)
    ensures
        out@ == s@,
{
    let mut out: Vec<char> = Vec::new();
    for c in it: s.chars()
        invariant
            out@ == it.seq().take(it.index() as int),
            it.seq() == s@,
    {
        out.push(c);
    }
    out
}

/// The string whose characters are `v[from..to]`.
pub fn string_of(v: &Vec<char>, from: usize, to: usize) -> (out: String)
    requires
        from <= to <= v.len(),
    ensures
        out@ == v@.subrange(from as int, to as int),
{
    let mut out = String::new();
    let mut i: usize = from;
    while i < to
        invariant
            from <= i <= to <= v.len(),
            out@ == v@.subrange(from as int, i as int),
        decreases to - i,
    {
        push_char(&mut out, v[i]);
        i += 1;
    }
    out
}

/// The string whose characters are `v`.
pub fn to_string(v: &Vec<char>) -> (out: String)
    ensures
        out@ == v@,
{
    let out = string_of(v, 0, v.len());
    assert(v@.subrange(0, v@.len() as int) =~= v@);
    out
}

/// The characters `v[from..to]`.
pub fn copy_range(v: &Vec<char>, from: usize, to: usize) -> (out: Vec<char>)
    requires
        from <= to <= v.len(),
    ensures
        out@ == v@.subrange(from as int, to as int),
{
    let mut out: Vec<char> = Vec::new();
    let mut i: usize = from;
    while i < to
        invariant
            from <= i <= to <= v.len(),
            out@ == v@.subrange(from as int, i as int),
        decreases to - i,
    {
        out.push(v[i]);
        assert(v@.subrange(from as int, i + 1) =~= v@.subrange(from as int, i as int).push(
            v@[i as int],
        ));
        i += 1;
    }
    out
}

/// Whether `c` occurs in `v`.
pub fn contains_char(v: &Vec<char>, c: char) -> (out: bool)
    ensures
        out == v@.contains(c),
{
    let mut i: usize = 0;
    while i < v.len()
        invariant
            i <= v.len(),
            forall|k: int| 0 <= k < i ==> v@[k] != c,
        decreases v.len() - i,
    {
        if v[i] == c {
            return true;
        }
        i += 1;
    }
    false
}

/// The pieces of `s` between the occurrences of `sep`: one more piece than
/// there are separators, empty pieces included.
pub open spec fn split(s: Seq<char>, sep: char) -> Seq<Seq<char>>
    decreases s.len(),
{
    if s.len() == 0 {
        seq![Seq::<char>::empty()]
    } else {
        let before = split(s.drop_last(), sep);
        if s.last() == sep {
            before.push(Seq::<char>::empty())
        } else {
            before.update(before.len() - 1, before.last().push(s.last()))
        }
    }
}

/// Splits `v` at every occurrence of `sep`.
pub fn split_chars(v: &Vec<char>, sep: char) -> (out: Vec<Vec<char>>)
    ensures
        views(out@) == split(v@, sep),
        out.len() >= 1,
{
    let mut done: Vec<Vec<char>> = Vec::new();
    let mut cur: Vec<char> = Vec::new();
    let mut i: usize = 0;
    assert(views(done@).push(cur@) =~= split(v@.take(0), sep));
    while i < v.len()
        invariant
            i <= v.len(),
            views(done@).push(cur@) == split(v@.take(i as int), sep),
        decreases v.len() - i,
    {
        let c = v[i];
        let ghost before = views(done@).push(cur@);
        proof {
            assert(v@.take(i + 1).drop_last() =~= v@.take(i as int));
            assert(v@.take(i + 1).last() == c);
        }
        if c == sep {
            done.push(cur);
            cur = Vec::new();
            assert(views(done@).push(cur@) =~= before.push(Seq::<char>::empty()));
        } else {
            cur.push(c);
            assert(views(done@).push(cur@) =~= before.update(
                before.len() - 1,
                before.last().push(c),
            ));
        }
        i += 1;
    }
    proof {
        assert(v@.take(v.len() as int) =~= v@);
    }
    done.push(cur);
    assert(views(done@) =~= views(done@.drop_last()).push(done@.last()@));
    done
}

/// `line` without a carriage return at its end.
pub open spec fn strip_cr(line: Seq<char>) -> Seq<char> {
    if line.len() > 0 && line.last() == '\r' {
        line.drop_last()
    } else {
        line
    }
}

/// `line` without a carriage return at its end.
pub fn strip_cr_chars(line: &Vec<char>) -> (out: Vec<char>)
    ensures
        out@ == strip_cr(line@),
{
    let n = line.len();
    let keep = if n > 0 && line[n - 1] == '\r' {
        n - 1
    } else {
        n
    };
    let out = copy_range(line, 0, keep);
    assert(line@.subrange(0, n as int) =~= line@);
    assert(n > 0 ==> line@.subrange(0, n - 1) =~= line@.drop_last());
    out
}

/// The lines of `s`. A line ends at a line feed, or at a carriage return
/// followed by a line feed; the ending is no part of the line. What follows
/// the last line feed is a line of its own unless it is empty, and keeps a
/// carriage return at its end.
pub open spec fn lines(s: Seq<char>) -> Seq<Seq<char>> {
    let pieces = split(s, '\n');
    let ended = Seq::new((pieces.len() - 1) as nat, |i: int| strip_cr(pieces[i]));
    if pieces.last().len() == 0 {
        ended
    } else {
        ended.push(pieces.last())
    }
}

/// The lines of `v`.
pub fn lines_of(v: &Vec<char>) -> (out: Vec<Vec<char>>)
    ensures
        views(out@) == lines(v@),
{
    let mut pieces = split_chars(v, '\n');
    let ghost all = views(pieces@);
    let last = pieces.pop().unwrap();
    assert(views(pieces@) =~= all.drop_last());
    let mut out: Vec<Vec<char>> = Vec::new();
    let mut i: usize = 0;
    while i < pieces.len()
        invariant
            i <= pieces.len(),
            all.len() == pieces.len() + 1,
            views(pieces@) == all.drop_last(),
            views(out@) == Seq::new(i as nat, |k: int| strip_cr(all[k])),
        decreases pieces.len() - i,
    {
        let line = strip_cr_chars(&pieces[i]);
        assert(pieces@[i as int]@ == views(pieces@)[i as int]);
        assert(all.drop_last()[i as int] == all[i as int]);
        assert(line@ == strip_cr(all[i as int]));
        let ghost prev = views(out@);
        out.push(line);
        assert(views(out@) =~= prev.push(strip_cr(all[i as int])));
        assert(views(out@) =~= Seq::new((i + 1) as nat, |k: int| strip_cr(all[k])));
        i += 1;
    }
    assert(views(out@) =~= Seq::new((all.len() - 1) as nat, |k: int| strip_cr(all[k])));
    if last.len() > 0 {
        let ghost ended = views(out@);
        out.push(last);
        assert(views(out@) =~= ended.push(all.last()));
    }
    out
}

/// The pieces of `parts` in one sequence, with `sep` between each two.
pub open spec fn join(parts: Seq<Seq<char>>, sep: Seq<char>) -> Seq<char>
    decreases parts.len(),
{
    if parts.len() == 0 {
        Seq::<char>::empty()
    } else if parts.len() == 1 {
        parts[0]
    } else {
        join(parts.drop_last(), sep) + sep + parts.last()
    }
}

/// The pieces `parts[from..]` in one string, with `sep` between each two.
pub fn join_from(parts: &Vec<Vec<char>>, from: usize, sep: &str) -> (out: String)
    requires
        from <= parts.len(),
    ensures
        out@ == join(views(parts@).skip(from as int), sep@),
{
    let mut out = String::new();
    let mut i: usize = from;
    let ghost all = views(parts@).skip(from as int);
    assert(all.take(0) =~= Seq::<Seq<char>>::empty());
    while i < parts.len()
        invariant
            from <= i <= parts.len(),
            all == views(parts@).skip(from as int),
            out@ == join(all.take(i - from), sep@),
        decreases parts.len() - i,
    {
        let ghost prev = out@;
        let piece = string_of(&parts[i], 0, parts[i].len());
        proof {
            assert(parts@[i as int]@.subrange(0, parts@[i as int]@.len() as int) =~= parts@[i as int]@);
            assert(all.take(i + 1 - from).drop_last() =~= all.take(i - from));
            assert(all.take(i + 1 - from).last() == parts@[i as int]@);
        }
        if i > from {
            out.append(sep);
        }
        out.append(piece.as_str());
        proof {
            if i > from {
                assert(out@ =~= prev + sep@ + parts@[i as int]@);
            } else {
                assert(prev =~= Seq::<char>::empty());
                assert(out@ =~= parts@[i as int]@);
                assert(all.take(1)[0] == parts@[i as int]@);
            }
        }
        i += 1;
    }
    assert(all.take(parts.len() - from) =~= all);
    out
}

/// For each character of `s`, whether it is white space.
pub open spec fn space_marks(s: Seq<char>) -> Seq<bool> {
    Seq::new(s.len(), |i: int| is_whitespace(s[i]))
}

/// For each character of `v`, whether it is white space.
pub fn mark_spaces(v: &Vec<char>) -> (out: Vec<bool>)
    ensures
        out@ == space_marks(v@),
{
    let mut out: Vec<bool> = Vec::new();
    let mut i: usize = 0;
    while i < v.len()
        invariant
            i <= v.len(),
            out@ == space_marks(v@.take(i as int)),
        decreases v.len() - i,
    {
        out.push(char_is_whitespace(v[i]));
        assert(out@ =~= space_marks(v@.take(i + 1)));
        i += 1;
    }
    assert(v@.take(v.len() as int) =~= v@);
    out
}

/// Whether position `i` is marked in `marks`. A position without a mark
/// counts as not marked.
pub open spec fn marked(marks: Seq<bool>, i: int) -> bool {
    0 <= i < marks.len() && marks[i]
}

/// Whether position `i` is marked in `marks`.
pub fn is_marked(marks: &Vec<bool>, i: usize) -> (out: bool)
    ensures
        out == marked(marks@, i as int),
{
    i < marks.len() && marks[i]
}

/// The number of marked positions at the start of `0..n`, counted from
/// position `from`.
pub open spec fn leading(marks: Seq<bool>, from: int, n: int) -> int
    decreases n - from,
{
    if from < n && marked(marks, from) {
        leading(marks, from + 1, n)
    } else {
        from
    }
}

/// The end of what remains of `from..to` when the marked positions at its
/// end are dropped.
pub open spec fn trailing(marks: Seq<bool>, from: int, to: int) -> int
    decreases to - from,
{
    if from < to && marked(marks, to - 1) {
        trailing(marks, from, to - 1)
    } else {
        to
    }
}

/// `s` without the marked characters at its start and at its end.
pub open spec fn trim_by(s: Seq<char>, marks: Seq<bool>) -> Seq<char> {
    let from = leading(marks, 0, s.len() as int);
    let to = trailing(marks, from, s.len() as int);
    if 0 <= from <= to <= s.len() {
        s.subrange(from, to)
    } else {
        s
    }
}

/// `v` without the marked characters at its start and at its end.
pub fn trim_marked(v: &Vec<char>, marks: &Vec<bool>) -> (out: Vec<char>)
    ensures
        out@ == trim_by(v@, marks@),
{
    let n = v.len();
    let mut a: usize = 0;
    while a < n && is_marked(marks, a)
        invariant
            a <= n == v.len(),
            leading(marks@, 0, n as int) == leading(marks@, a as int, n as int),
        decreases n - a,
    {
        a += 1;
    }
    let mut b: usize = n;
    while b > a && is_marked(marks, b - 1)
        invariant
            a <= b <= n == v.len(),
            trailing(marks@, a as int, n as int) == trailing(marks@, a as int, b as int),
        decreases b - a,
    {
        b -= 1;
    }
    copy_range(v, a, b)
}

/// `s` without the white space at its start and at its end.
pub open spec fn trim(s: Seq<char>) -> Seq<char> {
    trim_by(s, space_marks(s))
}

/// `v` without the white space at its start and at its end.
pub fn trim_chars(v: &Vec<char>) -> (out: Vec<char>)
    ensures
        out@ == trim(v@),
{
    let marks = mark_spaces(v);
    trim_marked(v, &marks)
}

/// The longest runs of characters of `s` that are not marked, in order.
pub open spec fn words_by(s: Seq<char>, marks: Seq<bool>) -> Seq<Seq<char>>
    decreases s.len(),
{
    if s.len() == 0 {
        Seq::<Seq<char>>::empty()
    } else {
        let before = words_by(s.drop_last(), marks);
        let c = s.last();
        if marked(marks, s.len() - 1) {
            before
        } else if s.len() >= 2 && !marked(marks, s.len() - 2) {
            before.update(before.len() - 1, before.last().push(c))
        } else {
            before.push(seq![c])
        }
    }
}

/// The longest runs of characters of `v` that are not marked.
pub fn words_marked(v: &Vec<char>, marks: &Vec<bool>) -> (out: Vec<Vec<char>>)
    ensures
        views(out@) == words_by(v@, marks@),
{
    let mut done: Vec<Vec<char>> = Vec::new();
    let mut cur: Vec<char> = Vec::new();
    let mut i: usize = 0;
    assert(views(done@) =~= words_by(v@.take(0), marks@));
    while i < v.len()
        invariant
            i <= v.len(),
            cur.len() > 0 <==> (i > 0 && !marked(marks@, i - 1)),
            cur.len() > 0 ==> views(done@).push(cur@) == words_by(v@.take(i as int), marks@),
            cur.len() == 0 ==> views(done@) == words_by(v@.take(i as int), marks@),
        decreases v.len() - i,
    {
        let c = v[i];
        let ghost before = words_by(v@.take(i as int), marks@);
        proof {
            assert(v@.take(i + 1).drop_last() =~= v@.take(i as int));
            assert(v@.take(i + 1).last() == c);
        }
        if is_marked(marks, i) {
            if cur.len() > 0 {
                done.push(cur);
                cur = Vec::new();
                assert(views(done@) =~= before);
            }
        } else {
            if cur.len() > 0 {
                cur.push(c);
                assert(views(done@).push(cur@) =~= before.update(
                    before.len() - 1,
                    before.last().push(c),
                ));
            } else {
                cur.push(c);
                assert(cur@ =~= seq![c]);
                assert(views(done@).push(cur@) =~= before.push(seq![c]));
            }
        }
        i += 1;
    }
    proof {
        assert(v@.take(v.len() as int) =~= v@);
    }
    if cur.len() > 0 {
        let ghost shown = views(done@);
        done.push(cur);
        assert(views(done@) =~= shown.push(done@.last()@));
    }
    done
}

/// The words of `s`: its longest runs of characters that are no white
/// space, in order.
pub open spec fn words(s: Seq<char>) -> Seq<Seq<char>> {
    words_by(s, space_marks(s))
}

/// The words of `v`.
pub fn words_of(v: &Vec<char>) -> (out: Vec<Vec<char>>)
    ensures
        views(out@) == words(v@),
{
    let marks = mark_spaces(v);
    words_marked(v, &marks)
}

/// The decimal digit `d`, for `d` below ten.
pub open spec fn digit_char(d: int) -> char {
    (('0' as u8) + d) as char
}

/// The decimal digits of `n`, without leading zeros.
pub open spec fn decimal_nat(n: nat) -> Seq<char>
    decreases n,
{
    if n < 10 {
        seq![digit_char(n as int)]
    } else {
        decimal_nat(n / 10).push(digit_char((n % 10) as int))
    }
}

/// The decimal form of `n`, with a minus sign where `n` is negative.
pub open spec fn decimal(n: int) -> Seq<char> {
    if n < 0 {
        seq!['-'] + decimal_nat((-n) as nat)
    } else {
        decimal_nat(n as nat)
    }
}

/// Appends the decimal digits of `n` to `out`.
pub fn push_decimal(out: &mut String, n: u64)
    ensures
        final(out)@ == old(out)@ + decimal_nat(n as nat),
    decreases n,
{
    if n >= 10 {
        push_decimal(out, n / 10);
    }
    let d: u8 = (n % 10) as u8;
    let c: char = (48u8 + d) as char;
    assert(c == digit_char((n % 10) as int));
    push_char(out, c);
    proof {
        if n >= 10 {
            assert(old(out)@ + decimal_nat((n / 10) as nat).push(c) =~= (old(out)@ + decimal_nat(
                (n / 10) as nat,
            )).push(c));
        } else {
            assert(old(out)@ + seq![c] =~= old(out)@.push(c));
        }
    }
}

/// The decimal form of `n`.
pub fn decimal_string(n: i64) -> (out: String)
    ensures
        out@ == decimal(n as int),
{
    let mut out = String::new();
    if n < 0 {
        push_char(&mut out, '-');
        let magnitude: u64 = if n == i64::MIN {
            9223372036854775808u64
        } else {
            (-n) as u64
        };
        push_decimal(&mut out, magnitude);
        assert(out@ =~= seq!['-'] + decimal_nat((-n) as nat));
    } else {
        push_decimal(&mut out, n as u64);
        assert(out@ =~= decimal_nat(n as nat));
    }
    out
}

/// Whether `c` is a decimal digit.
pub open spec fn is_digit(c: char) -> bool {
    '0' <= c <= '9'
}

/// Whether every character of `s` is a decimal digit.
pub open spec fn all_digits(s: Seq<char>) -> bool {
    forall|i: int| 0 <= i < s.len() ==> is_digit(#[trigger] s[i])
}

/// The number that the decimal digits `s` spell.
pub open spec fn digits_value(s: Seq<char>) -> nat
    decreases s.len(),
{
    if s.len() == 0 {
        0
    } else {
        (digits_value(s.drop_last()) * 10 + (s.last() as nat - '0' as nat)) as nat
    }
}

/// `s` without a plus sign at its start.
pub open spec fn unsigned_part(s: Seq<char>) -> Seq<char> {
    if s.len() > 0 && s[0] == '+' {
        s.skip(1)
    } else {
        s
    }
}

/// The number below 65536 that `s` spells in decimal digits, with or without
/// a plus sign before them; `None` where `s` holds anything else, no digit at
/// all, or a larger number.
pub open spec fn parse_u16(s: Seq<char>) -> Option<u16> {
    let digits = unsigned_part(s);
    if digits.len() > 0 && all_digits(digits) && digits_value(digits) <= 65535 {
        Some(digits_value(digits) as u16)
    } else {
        None
    }
}

/// Reads a number below 65536 from `v`.
pub fn parse_u16_chars(v: &Vec<char>) -> (out: Option<u16>)
    ensures
        out == parse_u16(v@),
{
    let start: usize = if v.len() > 0 && v[0] == '+' {
        1
    } else {
        0
    };
    let ghost digits = v@.skip(start as int);
    proof {
        assert(v@.skip(0) =~= v@);
        assert(digits == unsigned_part(v@));
    }
    if v.len() == start {
        return None;
    }
    let mut acc: u32 = 0;
    let mut over = false;
    let mut i: usize = start;
    assert(digits.take(0) =~= Seq::<char>::empty());
    while i < v.len()
        invariant
            start <= i <= v.len(),
            digits == v@.skip(start as int),
            digits == unsigned_part(v@),
            forall|k: int| 0 <= k < i - start ==> is_digit(#[trigger] digits[k]),
            !over ==> acc == digits_value(digits.take(i - start)) && acc <= 65535,
            over ==> digits_value(digits.take(i - start)) > 65535,
        decreases v.len() - i,
    {
        let c = v[i];
        assert(digits[i - start] == c);
        if !(c >= '0' && c <= '9') {
            proof {
                let at = i - start;
                assert(0 <= at < digits.len());
                assert(!is_digit(digits[at]));
                assert(!all_digits(digits));
            }
            return None;
        }
        proof {
            assert(digits.take(i + 1 - start).drop_last() =~= digits.take(i - start));
            assert(digits.take(i + 1 - start).last() == c);
        }
        if !over {
            let d: u32 = c as u32 - '0' as u32;
            let next: u32 = acc * 10 + d;
            if next > 65535 {
                over = true;
            } else {
                acc = next;
            }
        }
        i += 1;
    }
    assert(digits.take(v.len() - start) =~= digits);
    if over {
        None
    } else {
        Some(acc as u16)
    }
}

} // verus!
