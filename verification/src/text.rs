//! Building blocks shared by the emitters: joining rendered pieces with a
//! separator, and the decimal form of an integer.

use vstd::prelude::*;

verus! {

/// The pieces of `parts`, in order, with `sep` between each two neighbours.
pub open spec fn join(parts: Seq<Seq<char>>, sep: Seq<char>) -> Seq<char>
    decreases parts.len(),
{
    if parts.len() == 0 {
        Seq::empty()
    } else if parts.len() == 1 {
        parts[0]
    } else {
        join(parts.drop_last(), sep) + sep + parts.last()
    }
}

/// The pieces of `parts`, in order, with nothing between them.
pub open spec fn concat(parts: Seq<Seq<char>>) -> Seq<char> {
    join(parts, Seq::empty())
}

/// The characters of each string of `parts`.
pub open spec fn texts_of(parts: Seq<String>) -> Seq<Seq<char>> {
    Seq::new(parts.len(), |i: int| parts[i]@)
}

/// Where piece `i` starts in `join(parts, sep)`.
pub open spec fn piece_start(parts: Seq<Seq<char>>, sep: Seq<char>, i: int) -> int
    decreases i,
{
    if i <= 0 {
        0
    } else {
        piece_start(parts, sep, i - 1) + parts[i - 1].len() + sep.len()
    }
}

/// A construct that spans lines: the head line, the lines of the body, and
/// the closing line.
pub open spec fn block_text(head: Seq<char>, body: Seq<Seq<char>>, close: Seq<char>) -> Seq<char> {
    join(seq![head] + body + seq![close], "\n"@)
}

/// The decimal digit that stands for `d`, for `0 <= d <= 9`.
pub open spec fn digit_char(d: int) -> char {
    if d == 0 {
        '0'
    } else if d == 1 {
        '1'
    } else if d == 2 {
        '2'
    } else if d == 3 {
        '3'
    } else if d == 4 {
        '4'
    } else if d == 5 {
        '5'
    } else if d == 6 {
        '6'
    } else if d == 7 {
        '7'
    } else if d == 8 {
        '8'
    } else {
        '9'
    }
}

/// The digits of `n` in base ten, most significant first, without leading
/// zeros (`0` itself is the one digit `0`).
pub open spec fn decimal_digits(n: nat) -> Seq<char>
    decreases n,
{
    if n < 10 {
        seq![digit_char(n as int)]
    } else {
        decimal_digits(n / 10).push(digit_char((n % 10) as int))
    }
}

/// The decimal form of `i`: a minus sign for a negative number, then the
/// digits of its magnitude.
pub open spec fn decimal(i: int) -> Seq<char> {
    if i < 0 {
        seq!['-'] + decimal_digits((-i) as nat)
    } else {
        decimal_digits(i as nat)
    }
}

/// Whether `c` is one of the ten decimal digits.
pub open spec fn is_digit(c: char) -> bool {
    '0' <= c <= '9'
}

/// Whether `s` holds at least one character from `from` up to `to`, and
/// digits only.
pub open spec fn digits_between(s: Seq<char>, from: int, to: int) -> bool {
    &&& 0 <= from < to <= s.len()
    &&& forall|i: int| from <= i < to ==> is_digit(#[trigger] s[i])
}

/// Where the digits of `s` begin: after the minus sign, if it has one.
pub open spec fn digits_start(s: Seq<char>) -> int {
    if s.len() > 0 && s[0] == '-' {
        1
    } else {
        0
    }
}

/// Whether `s` is the decimal form of a number: a minus sign or none, one or
/// more digits, and then nothing more, or a point and one or more digits.
pub open spec fn is_decimal_text(s: Seq<char>) -> bool {
    ||| digits_between(s, digits_start(s), s.len() as int)
    ||| exists|point: int|
        {
            &&& s[point] == '.'
            &&& #[trigger] digits_between(s, digits_start(s), point)
            &&& digits_between(s, point + 1, s.len() as int)
        }
}

/// The digits of a number are never none.
pub proof fn lemma_decimal_not_empty(i: int)
    ensures
        decimal(i).len() > 0,
{
    if i < 0 {
        lemma_decimal_digits_not_empty((-i) as nat);
    } else {
        lemma_decimal_digits_not_empty(i as nat);
    }
}

proof fn lemma_decimal_digits_not_empty(n: nat)
    ensures
        decimal_digits(n).len() > 0,
    decreases n,
{
    if n >= 10 {
        lemma_decimal_digits_not_empty(n / 10);
    }
}

/// `join` of one more piece: the separator comes before it unless it is the first.
pub proof fn lemma_join_push(parts: Seq<Seq<char>>, sep: Seq<char>, piece: Seq<char>)
    ensures
        join(parts.push(piece), sep) == if parts.len() == 0 {
            piece
        } else {
            join(parts, sep) + sep + piece
        },
{
    assert(parts.push(piece).drop_last() =~= parts);
}

/// Every piece stands unchanged in the joined text, at the place that the
/// lengths of the pieces and separators before it give. So the joined text
/// keeps the order of the pieces, and reordering the pieces reorders their
/// occurrences in the same way.
pub proof fn lemma_join_keeps_pieces(parts: Seq<Seq<char>>, sep: Seq<char>, i: int)
    requires
        0 <= i < parts.len(),
    ensures
        0 <= piece_start(parts, sep, i),
        piece_start(parts, sep, i) + parts[i].len() <= join(parts, sep).len(),
        join(parts, sep).subrange(
            piece_start(parts, sep, i),
            piece_start(parts, sep, i) + parts[i].len(),
        ) == parts[i],
    decreases parts.len(),
{
    lemma_piece_start_prefix(parts, sep, i);
    if parts.len() == 1 {
        assert(join(parts, sep).subrange(0, parts[0].len() as int) =~= parts[0]);
    } else {
        let front = parts.drop_last();
        lemma_join_length(front, sep);
        lemma_join_length(parts, sep);
        if i < front.len() {
            lemma_join_keeps_pieces(front, sep, i);
            lemma_piece_start_same(parts, front, sep, i);
            let start = piece_start(parts, sep, i);
            assert(join(parts, sep).subrange(start, start + parts[i].len()) =~= join(
                front,
                sep,
            ).subrange(start, start + front[i].len()));
        } else {
            let start = piece_start(parts, sep, i);
            assert(start == join(front, sep).len() + sep.len());
            assert(join(parts, sep).subrange(start, start + parts[i].len()) =~= parts[i]);
        }
    }
}

/// Reordering the pieces reorders the joined text in the same way: when
/// `after` holds the pieces of `before` in another order, piece `i` of
/// `before` going to place `to(i)`, the joined text of `after` holds that
/// piece, unchanged, at place `to(i)`.
pub proof fn lemma_join_permuted(
    before: Seq<Seq<char>>,
    after: Seq<Seq<char>>,
    to: spec_fn(int) -> int,
    sep: Seq<char>,
    i: int,
)
    requires
        0 <= i < before.len(),
        0 <= to(i) < after.len(),
        after[to(i)] == before[i],
    ensures
        join(after, sep).subrange(
            piece_start(after, sep, to(i)),
            piece_start(after, sep, to(i)) + before[i].len(),
        ) == before[i],
{
    lemma_join_keeps_pieces(after, sep, to(i));
}

/// The length of a joined text: the pieces and the separators between them.
pub proof fn lemma_join_length(parts: Seq<Seq<char>>, sep: Seq<char>)
    ensures
        join(parts, sep).len() == if parts.len() == 0 {
            0
        } else {
            piece_start(parts, sep, parts.len() - 1) + parts.last().len()
        },
    decreases parts.len(),
{
    if parts.len() > 1 {
        let front = parts.drop_last();
        lemma_join_length(front, sep);
        lemma_piece_start_same(parts, front, sep, front.len() - 1);
    }
}

proof fn lemma_piece_start_prefix(parts: Seq<Seq<char>>, sep: Seq<char>, i: int)
    ensures
        0 <= piece_start(parts, sep, i),
    decreases i,
{
    if i > 0 {
        lemma_piece_start_prefix(parts, sep, i - 1);
    }
}

proof fn lemma_piece_start_same(a: Seq<Seq<char>>, b: Seq<Seq<char>>, sep: Seq<char>, i: int)
    requires
        0 <= i < a.len(),
        i < b.len(),
        forall|j: int| 0 <= j < i ==> a[j] == b[j],
    ensures
        piece_start(a, sep, i) == piece_start(b, sep, i),
    decreases i,
{
    if i > 0 {
        lemma_piece_start_same(a, b, sep, i - 1);
    }
}

/// Joins `parts` with `sep` between each two neighbours.
pub fn join_strings(parts: &Vec<String>, sep: &str) -> (r: String)
    ensures
        r@ == join(texts_of(parts@), sep@),
{
    let mut out = String::new();
    let ghost texts = texts_of(parts@);
    let mut i: usize = 0;
    while i < parts.len()
        invariant
            i <= parts.len(),
            texts == texts_of(parts@),
            out@ == join(texts.take(i as int), sep@),
        decreases parts.len() - i,
    {
        proof {
            lemma_join_push(texts.take(i as int), sep@, texts[i as int]);
            assert(texts.take(i as int).push(texts[i as int]) =~= texts.take(i + 1));
        }
        if i > 0 {
            out.append(sep);
        }
        out.append(parts[i].as_str());
        proof {
            assert(Seq::<char>::empty() + texts[i as int] =~= texts[i as int]);
        }
        i = i + 1;
    }
    proof {
        assert(texts.take(parts.len() as int) =~= texts);
    }
    out
}

/// Joins `parts` with nothing between them.
pub fn concat_strings(parts: &Vec<String>) -> (r: String)
    ensures
        r@ == concat(texts_of(parts@)),
{
    proof {
        reveal_strlit("");
        assert(""@ =~= Seq::<char>::empty());
    }
    join_strings(parts, "")
}

/// A list that holds `line` alone.
pub fn one_text(line: String) -> (r: Vec<String>)
    ensures
        r@ == seq![line],
        texts_of(r@) == seq![line@],
{
    let mut out: Vec<String> = Vec::new();
    out.push(line);
    proof {
        assert(texts_of(out@) =~= seq![line@]);
    }
    out
}

/// Adds `line` at the end of `lines`.
pub fn push_text(lines: &mut Vec<String>, line: String)
    ensures
        final(lines)@ == old(lines)@.push(line),
        texts_of(final(lines)@) == texts_of(old(lines)@).push(line@),
{
    lines.push(line);
    proof {
        assert(texts_of(lines@) =~= texts_of(old(lines)@).push(line@));
    }
}

/// Adds the strings of `more`, in order, at the end of `lines`.
pub fn push_texts(lines: &mut Vec<String>, more: Vec<String>)
    ensures
        final(lines)@ == old(lines)@ + more@,
        texts_of(final(lines)@) == texts_of(old(lines)@) + texts_of(more@),
{
    let mut more = more;
    let ghost added = more@;
    lines.append(&mut more);
    proof {
        assert(texts_of(lines@) =~= texts_of(old(lines)@) + texts_of(added));
    }
}

/// Sets `head`, the lines of `body` and `close` on lines of their own.
pub fn block(head: String, body: Vec<String>, close: &str) -> (r: String)
    ensures
        r@ == block_text(head@, texts_of(body@), close@),
{
    let mut lines = one_text(head);
    push_texts(&mut lines, body);
    push_text(&mut lines, String::from_str(close));
    proof {
        assert(texts_of(lines@) =~= seq![head@] + texts_of(body@) + seq![close@]);
    }
    join_strings(&lines, "\n")
}

/// `inner` between `open` and `close`.
pub fn enclose(open: &str, inner: &str, close: &str) -> (r: String)
    ensures
        r@ == open@ + inner@ + close@,
{
    let mut out = String::from_str(open);
    out.append(inner);
    out.append(close);
    out
}

/// `left` followed by `right`.
pub fn concat2(left: &str, right: &str) -> (r: String)
    ensures
        r@ == left@ + right@,
{
    let mut out = String::from_str(left);
    out.append(right);
    out
}

fn digit(c: char) -> (r: bool)
    ensures
        r == is_digit(c),
{
    '0' <= c && c <= '9'
}

/// How far the digits of `s` go from `from` on: the place of the first
/// character at or after `from` that is no digit, or the length of `s`.
fn digits_end(s: &str, from: usize, len: usize) -> (r: usize)
    requires
        from <= len == s@.len(),
    ensures
        from <= r <= len,
        forall|i: int| from <= i < r ==> is_digit(#[trigger] s@[i]),
        r < len ==> !is_digit(s@[r as int]),
{
    let mut i: usize = from;
    while i < len
        invariant
            from <= i <= len == s@.len(),
            forall|k: int| from <= k < i ==> is_digit(#[trigger] s@[k]),
        decreases len - i,
    {
        if !digit(s.get_char(i)) {
            return i;
        }
        i = i + 1;
    }
    i
}

/// Whether `s` is the decimal form of a number.
pub fn decimal_text_ok(s: &str) -> (r: bool)
    ensures
        r == is_decimal_text(s@),
{
    let len = s.unicode_len();
    let start: usize = if len > 0 && s.get_char(0) == '-' {
        1
    } else {
        0
    };
    let whole = digits_end(s, start, len);
    if whole == start {
        // no digit where the number has to begin
        assert(!is_decimal_text(s@)) by {
            if start < len {
                assert(!is_digit(s@[start as int]));
            }
        }
        return false;
    }
    if whole == len {
        return true;
    }
    if s.get_char(whole) != '.' {
        assert(!is_decimal_text(s@)) by {
            assert(!is_digit(s@[whole as int]));
            assert forall|point: int|
                {
                    &&& s@[point] == '.'
                    &&& digits_between(s@, start as int, point)
                } implies false by {
                if point > whole {
                    assert(is_digit(s@[whole as int]));
                }
                if point < whole {
                    assert(is_digit(s@[point]));
                }
            }
        }
        return false;
    }
    let fraction = digits_end(s, whole + 1, len);
    let ok = fraction == len && fraction > whole + 1;
    proof {
        assert(!is_digit(s@[whole as int]));
        if ok {
            assert(digits_between(s@, start as int, whole as int));
            assert(digits_between(s@, whole + 1, len as int));
        } else {
            assert forall|point: int|
                {
                    &&& s@[point] == '.'
                    &&& digits_between(s@, start as int, point)
                    &&& digits_between(s@, point + 1, len as int)
                } implies false by {
                if point > whole {
                    assert(is_digit(s@[whole as int]));
                }
                if point < whole {
                    assert(is_digit(s@[point]));
                }
                if fraction < len {
                    assert(is_digit(s@[fraction as int]));
                }
            }
        }
    }
    ok
}

fn digit_str(d: u64) -> (r: &'static str)
    requires
        d < 10,
    ensures
        r@ == seq![digit_char(d as int)],
{
    proof {
        reveal_strlit("0");
        reveal_strlit("1");
        reveal_strlit("2");
        reveal_strlit("3");
        reveal_strlit("4");
        reveal_strlit("5");
        reveal_strlit("6");
        reveal_strlit("7");
        reveal_strlit("8");
        reveal_strlit("9");
    }
    let r = if d == 0 {
        "0"
    } else if d == 1 {
        "1"
    } else if d == 2 {
        "2"
    } else if d == 3 {
        "3"
    } else if d == 4 {
        "4"
    } else if d == 5 {
        "5"
    } else if d == 6 {
        "6"
    } else if d == 7 {
        "7"
    } else if d == 8 {
        "8"
    } else {
        "9"
    };
    assert(r@ =~= seq![digit_char(d as int)]);
    r
}

fn push_decimal_digits(out: &mut String, n: u64)
    ensures
        final(out)@ == old(out)@ + decimal_digits(n as nat),
    decreases n,
{
    if n >= 10 {
        push_decimal_digits(out, n / 10);
    }
    out.append(digit_str(n % 10));
    proof {
        if n >= 10 {
            assert(final(out)@ =~= old(out)@ + decimal_digits(n as nat));
        }
    }
}

/// The decimal form of `i`, as `i64`'s `to_string` gives it.
pub fn integer_text(i: i64) -> (r: String)
    ensures
        r@ == decimal(i as int),
{
    let mut out = String::new();
    if i < 0 {
        proof {
            reveal_strlit("-");
        }
        out.append("-");
        let magnitude: u64 = (-(i + 1)) as u64 + 1;
        push_decimal_digits(&mut out, magnitude);
        assert(out@ =~= decimal(i as int));
    } else {
        push_decimal_digits(&mut out, i as u64);
        assert(out@ =~= decimal(i as int));
    }
    out
}

} // verus!
