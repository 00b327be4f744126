//! Emitters for the parameters of methods, blocks and procs.

use vstd::prelude::*;
use super::Emitter;
use super::expression::{Expression, expression_text};
use super::operators::left_hand_side_element_text;
use crate::ast;
use crate::text::{
    concat2, enclose, join, join_strings, lemma_join_push, one_text, push_text, push_texts,
    texts_of,
};

verus! {

/// The trailing parameters of a list, by shape: `*` before a splat, `**`
/// before a keyword splat, `&` before a block parameter, and the sign alone
/// for an unnamed splat. Every shape gives the parameters it holds and no
/// other, in the order splat, keyword splat, block.
pub open spec fn splat_texts<V: Emitter>(s: ast::SplatsAndBlockArgumentVariants<V>) -> Seq<
    Seq<char>,
> {
    match s {
        ast::SplatsAndBlockArgumentVariants::Splat(a) => seq!["*"@ + a.text()],
        ast::SplatsAndBlockArgumentVariants::UnnamedSplat => seq!["*"@],
        ast::SplatsAndBlockArgumentVariants::KeyWordSplat(a) => seq!["**"@ + a.text()],
        ast::SplatsAndBlockArgumentVariants::UnnamedKeywordSplat => seq!["**"@],
        ast::SplatsAndBlockArgumentVariants::SplatThenKeywordSplat(a, b) => seq![
            "*"@ + a.text(),
            "**"@ + b.text(),
        ],
        ast::SplatsAndBlockArgumentVariants::Block(a) => seq!["&"@ + a.text()],
        ast::SplatsAndBlockArgumentVariants::SplatThenBlock(a, b) => seq![
            "*"@ + a.text(),
            "&"@ + b.text(),
        ],
        ast::SplatsAndBlockArgumentVariants::SplatThenKeywordSplatThenBlock(a, b, c) => seq![
            "*"@ + a.text(),
            "**"@ + b.text(),
            "&"@ + c.text(),
        ],
    }
}

/// The trailing parameters of a list if it has any.
pub open spec fn trailing_texts<V: Emitter>(
    s: Option<ast::SplatsAndBlockArgumentVariants<V>>,
) -> Seq<Seq<char>> {
    match s {
        Some(shape) => splat_texts(shape),
        None => Seq::empty(),
    }
}

/// The trailing parameters as they stand in a parameter list: separated by
/// a comma and a space.
pub open spec fn splat_text<V: Emitter>(s: ast::SplatsAndBlockArgumentVariants<V>) -> Seq<char> {
    join(splat_texts(s), ", "@)
}

/// The place of a shape among the eight, in the order of their declaration.
pub open spec fn shape_index<V>(s: ast::SplatsAndBlockArgumentVariants<V>) -> int {
    match s {
        ast::SplatsAndBlockArgumentVariants::Splat(_) => 0,
        ast::SplatsAndBlockArgumentVariants::UnnamedSplat => 1,
        ast::SplatsAndBlockArgumentVariants::KeyWordSplat(_) => 2,
        ast::SplatsAndBlockArgumentVariants::UnnamedKeywordSplat => 3,
        ast::SplatsAndBlockArgumentVariants::SplatThenKeywordSplat(_, _) => 4,
        ast::SplatsAndBlockArgumentVariants::Block(_) => 5,
        ast::SplatsAndBlockArgumentVariants::SplatThenBlock(_, _) => 6,
        ast::SplatsAndBlockArgumentVariants::SplatThenKeywordSplatThenBlock(_, _, _) => 7,
    }
}

/// The names that a shape holds, each written out, in order.
pub open spec fn shape_names<V: Emitter>(s: ast::SplatsAndBlockArgumentVariants<V>) -> Seq<
    Seq<char>,
> {
    match s {
        ast::SplatsAndBlockArgumentVariants::Splat(a) => seq![a.text()],
        ast::SplatsAndBlockArgumentVariants::UnnamedSplat => Seq::empty(),
        ast::SplatsAndBlockArgumentVariants::KeyWordSplat(a) => seq![a.text()],
        ast::SplatsAndBlockArgumentVariants::UnnamedKeywordSplat => Seq::empty(),
        ast::SplatsAndBlockArgumentVariants::SplatThenKeywordSplat(a, b) => seq![
            a.text(),
            b.text(),
        ],
        ast::SplatsAndBlockArgumentVariants::Block(a) => seq![a.text()],
        ast::SplatsAndBlockArgumentVariants::SplatThenBlock(a, b) => seq![a.text(), b.text()],
        ast::SplatsAndBlockArgumentVariants::SplatThenKeywordSplatThenBlock(a, b, c) => seq![
            a.text(),
            b.text(),
            c.text(),
        ],
    }
}

/// Whether `name` can be told from the signs around it: it is not empty,
/// does not begin with an asterisk and holds no comma.
pub open spec fn is_parameter_name(name: Seq<char>) -> bool {
    &&& name.len() > 0
    &&& name[0] != '*'
    &&& forall|i: int| 0 <= i < name.len() ==> name[i] != ','
}

/// Whether every name that a shape holds is a parameter name.
pub open spec fn holds_parameter_names<V: Emitter>(
    s: ast::SplatsAndBlockArgumentVariants<V>,
) -> bool {
    forall|i: int| 0 <= i < shape_names(s).len() ==> is_parameter_name(#[trigger] shape_names(s)[i])
}

/// The place of the first comma of `t` at or after `from`, or the length of
/// `t` if there is none.
spec fn next_comma(t: Seq<char>, from: int) -> int
    decreases t.len() - from,
{
    if from < 0 || from >= t.len() {
        t.len() as int
    } else if t[from] == ',' {
        from
    } else {
        next_comma(t, from + 1)
    }
}

proof fn lemma_next_comma(t: Seq<char>, from: int, at: int)
    requires
        0 <= from <= at <= t.len(),
        forall|i: int| from <= i < at ==> t[i] != ',',
        at == t.len() || t[at] == ',',
    ensures
        next_comma(t, from) == at,
    decreases at - from,
{
    if from < at {
        lemma_next_comma(t, from + 1, at);
    }
}

/// What the text of a shape shows of it, `a`, `b` and `c` being the names it
/// holds: the signs, the names and the commas stand where the shape sets
/// them.
#[verifier::opaque]
spec fn shape_shows(index: int, names: Seq<Seq<char>>, t: Seq<char>) -> bool {
    let a = names[0];
    let b = names[1];
    let c = names[2];
    let la = a.len() as int;
    let lb = b.len() as int;
    let lc = c.len() as int;
    let end = t.len() as int;
    if index == 0 {
        &&& end == 1 + la
        &&& t[0] == '*'
        &&& t[1] != '*'
        &&& next_comma(t, 0) == end
        &&& t.subrange(1, end) == a
    } else if index == 1 {
        &&& end == 1
        &&& t[0] == '*'
    } else if index == 2 {
        &&& end == 2 + la
        &&& t[0] == '*'
        &&& t[1] == '*'
        &&& next_comma(t, 0) == end
        &&& t.subrange(2, end) == a
    } else if index == 3 {
        &&& end == 2
        &&& t[0] == '*'
        &&& t[1] == '*'
    } else if index == 4 {
        &&& end == 5 + la + lb
        &&& t[0] == '*'
        &&& t[1] != '*'
        &&& next_comma(t, 0) == 1 + la
        &&& t[3 + la] == '*'
        &&& next_comma(t, 2 + la) == end
        &&& t.subrange(1, 1 + la) == a
        &&& t.subrange(5 + la, end) == b
    } else if index == 5 {
        &&& end == 1 + la
        &&& t[0] == '&'
        &&& t.subrange(1, end) == a
    } else if index == 6 {
        &&& end == 4 + la + lb
        &&& t[0] == '*'
        &&& t[1] != '*'
        &&& next_comma(t, 0) == 1 + la
        &&& t[3 + la] == '&'
        &&& t.subrange(1, 1 + la) == a
        &&& t.subrange(4 + la, end) == b
    } else {
        &&& end == 8 + la + lb + lc
        &&& t[0] == '*'
        &&& t[1] != '*'
        &&& next_comma(t, 0) == 1 + la
        &&& t[3 + la] == '*'
        &&& next_comma(t, 2 + la) == 5 + la + lb
        &&& t.subrange(1, 1 + la) == a
        &&& t.subrange(5 + la, 5 + la + lb) == b
        &&& t.subrange(8 + la + lb, end) == c
    }
}

proof fn lemma_shows_one(index: int, sign: Seq<char>, a: Seq<char>)
    requires
        is_parameter_name(a),
        index == 0 ==> sign == seq!['*'],
        index == 2 ==> sign == seq!['*', '*'],
        index == 5 ==> sign == seq!['&'],
        index == 0 || index == 2 || index == 5,
    ensures
        shape_shows(index, seq![a], sign + a),
{
    reveal(shape_shows);
    let t = sign + a;
    assert(t.subrange(sign.len() as int, t.len() as int) =~= a);
    assert(t[sign.len() as int] == a[0]);
    assert forall|i: int| 0 <= i < t.len() implies t[i] != ',' by {
        if i >= sign.len() {
            assert(t[i] == a[i - sign.len()]);
        }
    }
    lemma_next_comma(t, 0, t.len() as int);
}

proof fn lemma_shows_two(index: int, sign: Seq<char>, a: Seq<char>, b: Seq<char>)
    requires
        is_parameter_name(a),
        is_parameter_name(b),
        index == 4 ==> sign == seq!['*', '*'],
        index == 6 ==> sign == seq!['&'],
        index == 4 || index == 6,
    ensures
        shape_shows(index, seq![a, b], seq!['*'] + a + seq![',', ' '] + (sign + b)),
{
    reveal(shape_shows);
    let t = seq!['*'] + a + seq![',', ' '] + (sign + b);
    let la = a.len() as int;
    assert(t[1] == a[0]);
    assert(t.subrange(1, 1 + la) =~= a);
    assert(t.subrange(3 + la + sign.len(), t.len() as int) =~= b);
    assert forall|i: int| 0 <= i < 1 + la implies t[i] != ',' by {
        if i >= 1 {
            assert(t[i] == a[i - 1]);
        }
    }
    lemma_next_comma(t, 0, 1 + la);
    assert forall|i: int| 2 + la <= i < t.len() implies t[i] != ',' by {
        if i >= 3 + la + sign.len() {
            assert(t[i] == b[i - 3 - la - sign.len()]);
        }
    }
    lemma_next_comma(t, 2 + la, t.len() as int);
}

proof fn lemma_shows_three(a: Seq<char>, b: Seq<char>, c: Seq<char>)
    requires
        is_parameter_name(a),
        is_parameter_name(b),
        is_parameter_name(c),
    ensures
        shape_shows(
            7,
            seq![a, b, c],
            seq!['*'] + a + seq![',', ' '] + (seq!['*', '*'] + b) + seq![',', ' '] + (seq!['&']
                + c),
        ),
{
    reveal(shape_shows);
    let t = seq!['*'] + a + seq![',', ' '] + (seq!['*', '*'] + b) + seq![',', ' '] + (seq!['&']
        + c);
    let la = a.len() as int;
    let lb = b.len() as int;
    assert(t[1] == a[0]);
    assert(t.subrange(1, 1 + la) =~= a);
    assert(t.subrange(5 + la, 5 + la + lb) =~= b);
    assert(t.subrange(8 + la + lb, t.len() as int) =~= c);
    assert forall|i: int| 0 <= i < 1 + la implies t[i] != ',' by {
        if i >= 1 {
            assert(t[i] == a[i - 1]);
        }
    }
    lemma_next_comma(t, 0, 1 + la);
    assert forall|i: int| 2 + la <= i < 5 + la + lb implies t[i] != ',' by {
        if i >= 5 + la {
            assert(t[i] == b[i - 5 - la]);
        }
    }
    lemma_next_comma(t, 2 + la, 5 + la + lb);
}

proof fn lemma_signs()
    ensures
        "*"@ == seq!['*'],
        "**"@ == seq!['*', '*'],
        "&"@ == seq!['&'],
        ", "@ == seq![',', ' '],
{
    reveal_strlit("*");
    reveal_strlit("**");
    reveal_strlit("&");
    reveal_strlit(", ");
    assert("*"@ =~= seq!['*']);
    assert("**"@ =~= seq!['*', '*']);
    assert("&"@ =~= seq!['&']);
    assert(", "@ =~= seq![',', ' ']);
}

proof fn lemma_shape_shows<V: Emitter>(s: ast::SplatsAndBlockArgumentVariants<V>)
    requires
        holds_parameter_names(s),
    ensures
        shape_shows(shape_index(s), shape_names(s), splat_text(s)),
{
    lemma_signs();
    let names = shape_names(s);
    let parts = splat_texts(s);
    let sep = ", "@;
    match s {
        ast::SplatsAndBlockArgumentVariants::Splat(a) => {
            assert(is_parameter_name(names[0]));
            lemma_shows_one(0, "*"@, a.text());
        },
        ast::SplatsAndBlockArgumentVariants::UnnamedSplat => {
            reveal(shape_shows);
        },
        ast::SplatsAndBlockArgumentVariants::KeyWordSplat(a) => {
            assert(is_parameter_name(names[0]));
            lemma_shows_one(2, "**"@, a.text());
        },
        ast::SplatsAndBlockArgumentVariants::UnnamedKeywordSplat => {
            reveal(shape_shows);
        },
        ast::SplatsAndBlockArgumentVariants::SplatThenKeywordSplat(a, b) => {
            assert(is_parameter_name(names[0]));
            assert(is_parameter_name(names[1]));
            lemma_join_push(seq![parts[0]], sep, parts[1]);
            assert(seq![parts[0]].push(parts[1]) =~= parts);
            lemma_shows_two(4, "**"@, a.text(), b.text());
        },
        ast::SplatsAndBlockArgumentVariants::Block(a) => {
            assert(is_parameter_name(names[0]));
            lemma_shows_one(5, "&"@, a.text());
        },
        ast::SplatsAndBlockArgumentVariants::SplatThenBlock(a, b) => {
            assert(is_parameter_name(names[0]));
            assert(is_parameter_name(names[1]));
            lemma_join_push(seq![parts[0]], sep, parts[1]);
            assert(seq![parts[0]].push(parts[1]) =~= parts);
            lemma_shows_two(6, "&"@, a.text(), b.text());
        },
        ast::SplatsAndBlockArgumentVariants::SplatThenKeywordSplatThenBlock(a, b, c) => {
            assert(is_parameter_name(names[0]));
            assert(is_parameter_name(names[1]));
            assert(is_parameter_name(names[2]));
            lemma_join_push(seq![parts[0]], sep, parts[1]);
            lemma_join_push(seq![parts[0], parts[1]], sep, parts[2]);
            assert(seq![parts[0]].push(parts[1]) =~= seq![parts[0], parts[1]]);
            assert(seq![parts[0], parts[1]].push(parts[2]) =~= parts);
            lemma_shows_three(a.text(), b.text(), c.text());
        },
    }
}

/// No two of the eight shapes are written alike: two groups of trailing
/// parameters with the same text have the same shape and hold the same
/// names, provided that every name is a parameter name. (A name that is
/// empty, begins with an asterisk or holds a comma could pass for another
/// shape: a splat with the empty name is written as the unnamed splat is.)
pub proof fn lemma_splat_shapes_distinct<V: Emitter>(
    first: ast::SplatsAndBlockArgumentVariants<V>,
    second: ast::SplatsAndBlockArgumentVariants<V>,
)
    requires
        holds_parameter_names(first),
        holds_parameter_names(second),
        splat_text(first) == splat_text(second),
    ensures
        shape_index(first) == shape_index(second),
        shape_names(first) == shape_names(second),
{
    lemma_shape_shows(first);
    lemma_shape_shows(second);
    lemma_same_text_same_shape(
        shape_index(first),
        shape_names(first),
        shape_index(second),
        shape_names(second),
        splat_text(first),
    );
}

proof fn lemma_same_text_same_shape(
    i: int,
    m: Seq<Seq<char>>,
    j: int,
    n: Seq<Seq<char>>,
    t: Seq<char>,
)
    requires
        0 <= i < 8,
        0 <= j < 8,
        shape_shows(i, m, t),
        shape_shows(j, n, t),
        m.len() == name_count(i),
        n.len() == name_count(j),
        forall|k: int| 0 <= k < m.len() ==> (#[trigger] m[k]).len() > 0,
        forall|k: int| 0 <= k < n.len() ==> (#[trigger] n[k]).len() > 0,
    ensures
        i == j,
        m == n,
{
    reveal(shape_shows);
    if m.len() > 0 {
        assert(m[0].len() > 0);
    }
    if n.len() > 0 {
        assert(n[0].len() > 0);
    }
    assert(i == j);
    assert(m =~= n);
}

/// How many names the shape at place `index` holds.
spec fn name_count(index: int) -> nat {
    if index == 1 || index == 3 {
        0
    } else if index == 0 || index == 2 || index == 5 {
        1
    } else if index == 4 || index == 6 {
        2
    } else {
        3
    }
}

fn prefixed<V: Emitter>(sign: &str, name: &V) -> (r: String)
    ensures
        r@ == sign@ + name.text(),
{
    let written = name.emit();
    concat2(sign, written.as_str())
}

/// Writes out the trailing parameters of a list, one string for each.
pub fn splats_and_block<V: Emitter>(s: &ast::SplatsAndBlockArgumentVariants<V>) -> (r: Vec<String>)
    ensures
        texts_of(r@) == splat_texts(*s),
{
    match s {
        ast::SplatsAndBlockArgumentVariants::Splat(a) => one_text(prefixed("*", a)),
        ast::SplatsAndBlockArgumentVariants::UnnamedSplat => one_text(String::from_str("*")),
        ast::SplatsAndBlockArgumentVariants::KeyWordSplat(a) => one_text(prefixed("**", a)),
        ast::SplatsAndBlockArgumentVariants::UnnamedKeywordSplat => one_text(
            String::from_str("**"),
        ),
        ast::SplatsAndBlockArgumentVariants::SplatThenKeywordSplat(a, b) => {
            let mut out = one_text(prefixed("*", a));
            push_text(&mut out, prefixed("**", b));
            proof {
                assert(texts_of(out@) =~= splat_texts(*s));
            }
            out
        },
        ast::SplatsAndBlockArgumentVariants::Block(a) => one_text(prefixed("&", a)),
        ast::SplatsAndBlockArgumentVariants::SplatThenBlock(a, b) => {
            let mut out = one_text(prefixed("*", a));
            push_text(&mut out, prefixed("&", b));
            proof {
                assert(texts_of(out@) =~= splat_texts(*s));
            }
            out
        },
        ast::SplatsAndBlockArgumentVariants::SplatThenKeywordSplatThenBlock(a, b, c) => {
            let mut out = one_text(prefixed("*", a));
            push_text(&mut out, prefixed("**", b));
            push_text(&mut out, prefixed("&", c));
            proof {
                assert(texts_of(out@) =~= splat_texts(*s));
            }
            out
        },
    }
}

/// Writes out the trailing parameters of a list if it has any.
pub fn trailing<V: Emitter>(s: &Option<ast::SplatsAndBlockArgumentVariants<V>>) -> (r: Vec<
    String,
>)
    ensures
        texts_of(r@) == trailing_texts(*s),
{
    match s {
        Some(shape) => splats_and_block(shape),
        None => {
            let out: Vec<String> = Vec::new();
            proof {
                assert(texts_of(out@) =~= Seq::<Seq<char>>::empty());
            }
            out
        },
    }
}

/// The names bound by a destructuring parameter, with its trailing
/// parameters, separated by a comma and a space.
pub open spec fn decomposed_argument_text(d: ast::DecomposedArgument) -> Seq<char>
    decreases d,
{
    join(decomposed_variant_texts(d.0@) + trailing_texts(d.1), ", "@)
}

/// One name of a destructuring parameter, or a nested destructuring between
/// parentheses.
pub open spec fn decomposed_variant_text(v: ast::DecomposedArgumentVariants) -> Seq<char>
    decreases v,
{
    match v {
        ast::DecomposedArgumentVariants::Plain(name) => name.0@,
        ast::DecomposedArgumentVariants::Nested(d) => "("@ + decomposed_argument_text(d) + ")"@,
    }
}

/// The names of a destructuring parameter, in order.
pub open spec fn decomposed_variant_texts(v: Seq<ast::DecomposedArgumentVariants>) -> Seq<
    Seq<char>,
>
    decreases v,
{
    Seq::new(
        v.len(),
        |i: int|
            if 0 <= i < v.len() {
                decomposed_variant_text(v[i])
            } else {
                Seq::empty()
            },
    )
}

/// Writes out what a destructuring parameter binds, without the
/// parentheses around it.
pub fn decomposed_argument(d: &ast::DecomposedArgument) -> (r: String)
    ensures
        r@ == decomposed_argument_text(*d),
    decreases d,
{
    let mut names: Vec<String> = Vec::new();
    let mut i: usize = 0;
    while i < d.0.len()
        invariant
            i <= d.0.len(),
            names.len() == i,
            forall|j: int| 0 <= j < i ==> names@[j]@ == decomposed_variant_text(d.0@[j]),
        decreases d.0.len() - i,
    {
        let name = match &d.0[i] {
            ast::DecomposedArgumentVariants::Plain(name) => String::from_str(name.0.as_str()),
            ast::DecomposedArgumentVariants::Nested(inner) => {
                let written = decomposed_argument(inner);
                enclose("(", written.as_str(), ")")
            },
        };
        names.push(name);
        i = i + 1;
    }
    proof {
        assert(texts_of(names@) =~= decomposed_variant_texts(d.0@));
    }
    push_texts(&mut names, trailing(&d.1));
    join_strings(&names, ", ")
}

/// One parameter: its name; its name and a colon for a required keyword;
/// its name, a colon and the default for an optional keyword; its name, ` = `
/// and the default for an optional parameter; a destructuring between
/// parentheses.
pub open spec fn plain_argument_text(p: ast::PlainArgumentVariants) -> Seq<char>
    decreases p, 0nat,
{
    match p {
        ast::PlainArgumentVariants::Required(name) => name.0@,
        ast::PlainArgumentVariants::KeywordRequired(name) => name.0@ + ":"@,
        ast::PlainArgumentVariants::KeywordOptional(name, default) => name.0@ + ": "@
            + expression_text(default),
        ast::PlainArgumentVariants::Optional(name, default) => name.0@ + " = "@ + expression_text(
            default,
        ),
        ast::PlainArgumentVariants::Decomposition(d) => "("@ + decomposed_argument_text(d) + ")"@,
    }
}

/// The parameters of a list, in order.
pub open spec fn plain_argument_texts(v: Seq<ast::PlainArgumentVariants>) -> Seq<Seq<char>>
    decreases v, 0nat,
{
    Seq::new(
        v.len(),
        |i: int|
            if 0 <= i < v.len() {
                plain_argument_text(v[i])
            } else {
                Seq::empty()
            },
    )
}

/// Writes out one parameter.
pub fn plain_argument(p: &ast::PlainArgumentVariants) -> (r: String)
    ensures
        r@ == plain_argument_text(*p),
    decreases p, 0nat,
{
    match p {
        ast::PlainArgumentVariants::Required(name) => String::from_str(name.0.as_str()),
        ast::PlainArgumentVariants::KeywordRequired(name) => concat2(name.0.as_str(), ":"),
        ast::PlainArgumentVariants::KeywordOptional(name, default) => {
            let value = Expression(default).emit();
            enclose(name.0.as_str(), ": ", value.as_str())
        },
        ast::PlainArgumentVariants::Optional(name, default) => {
            let value = Expression(default).emit();
            enclose(name.0.as_str(), " = ", value.as_str())
        },
        ast::PlainArgumentVariants::Decomposition(d) => {
            let written = decomposed_argument(d);
            enclose("(", written.as_str(), ")")
        },
    }
}

/// The parameters of a method, each written out: the plain ones in order,
/// then the trailing ones.
pub open spec fn formal_argument_texts(f: ast::FormalArgument) -> Seq<Seq<char>>
    decreases f, 0nat,
{
    plain_argument_texts(f.0@) + trailing_texts(f.1)
}

/// The parameters of a method, separated by a comma and a space.
pub open spec fn formal_argument_text(f: ast::FormalArgument) -> Seq<char>
    decreases f, 1nat,
{
    join(formal_argument_texts(f), ", "@)
}

/// Writes out the parameters of a method, without the parentheses around
/// them.
pub fn formal_argument(f: &ast::FormalArgument) -> (r: String)
    ensures
        r@ == formal_argument_text(*f),
    decreases f, 1nat,
{
    let mut names: Vec<String> = Vec::new();
    let mut i: usize = 0;
    while i < f.0.len()
        invariant
            i <= f.0.len(),
            names.len() == i,
            forall|j: int| 0 <= j < i ==> names@[j]@ == plain_argument_text(f.0@[j]),
        decreases f.0.len() - i,
    {
        names.push(plain_argument(&f.0[i]));
        i = i + 1;
    }
    proof {
        assert(texts_of(names@) =~= plain_argument_texts(f.0@));
    }
    push_texts(&mut names, trailing(&f.1));
    join_strings(&names, ", ")
}

/// One parameter of a block or proc: a plain parameter, or a target as in a
/// multiple assignment.
pub open spec fn proc_argument_variant_text(p: ast::ProcArgumentVariants) -> Seq<char>
    decreases p, 0nat,
{
    match p {
        ast::ProcArgumentVariants::PlainArgument(plain) => plain_argument_text(plain),
        ast::ProcArgumentVariants::MultipleLeftHandSide(element) => left_hand_side_element_text(
            element,
        ),
    }
}

/// The parameters of a block or proc, in order.
pub open spec fn proc_argument_variant_texts(v: Seq<ast::ProcArgumentVariants>) -> Seq<Seq<char>>
    decreases v, 0nat,
{
    Seq::new(
        v.len(),
        |i: int|
            if 0 <= i < v.len() {
                proc_argument_variant_text(v[i])
            } else {
                Seq::empty()
            },
    )
}

/// The parameters of a block or proc, each written out: the plain ones in
/// order, then the trailing ones.
pub open spec fn proc_argument_texts(p: ast::ProcArgument) -> Seq<Seq<char>>
    decreases p, 0nat,
{
    proc_argument_variant_texts(p.0@) + trailing_texts(p.1)
}

/// Writes out the parameters of a block or proc, one string for each.
pub fn proc_argument_list(p: &ast::ProcArgument) -> (r: Vec<String>)
    ensures
        texts_of(r@) == proc_argument_texts(*p),
    decreases p, 0nat,
{
    let mut names: Vec<String> = Vec::new();
    let mut i: usize = 0;
    while i < p.0.len()
        invariant
            i <= p.0.len(),
            names.len() == i,
            forall|j: int| 0 <= j < i ==> names@[j]@ == proc_argument_variant_text(p.0@[j]),
        decreases p.0.len() - i,
    {
        let name = match &p.0[i] {
            ast::ProcArgumentVariants::PlainArgument(plain) => plain_argument(plain),
            ast::ProcArgumentVariants::MultipleLeftHandSide(element) => element.emit(),
        };
        names.push(name);
        i = i + 1;
    }
    proof {
        assert(texts_of(names@) =~= proc_argument_variant_texts(p.0@));
    }
    push_texts(&mut names, trailing(&p.1));
    names
}

} // verus!
