//! Emitters for literals: singletons, numbers, strings and symbols with
//! their interpolation, here documents, regular expressions, arrays, hashes
//! and ranges.

use vstd::prelude::*;
use super::Emitter;
use super::access::{Access, access_text};
use super::expression::{Expression, expression_text, expression_texts, expression_list};
use crate::ast;
use crate::text::{
    concat, concat2, concat_strings, decimal, enclose, integer_text, join, join_strings,
    lemma_decimal_not_empty, texts_of,
};

verus! {

/// Emitter of a literal.
pub struct Literals<'l>(pub &'l ast::ValueVariants);

/// A literal, by kind. Numbers are written in decimal; a string stands
/// between double quotes, a symbol after a colon, a command between
/// backticks.
pub open spec fn literal_text(l: ast::ValueVariants) -> Seq<char>
    decreases l, 0nat,
{
    match l {
        ast::ValueVariants::Singleton(s) => singleton_text(s),
        ast::ValueVariants::Integer(i) => decimal(i.0 as int),
        ast::ValueVariants::Float(f) => f.0@,
        ast::ValueVariants::Complex(c) => c.0@ + "i"@,
        ast::ValueVariants::Rational(r) => r.0@,
        ast::ValueVariants::String(s) => "\""@ + string_text(s) + "\""@,
        ast::ValueVariants::Symbol(s) => ":"@ + symbol_text(s),
        ast::ValueVariants::HereDocument(hd) => here_document_text(hd),
        ast::ValueVariants::ExecuteString(s) => "`"@ + string_text(s) + "`"@,
        ast::ValueVariants::RegularExpression(rgx) => regular_expression_text(rgx),
        ast::ValueVariants::Array(arr) => array_text(arr),
        ast::ValueVariants::Hash(h) => hash_text(h),
        ast::ValueVariants::Range(r) => range_text(r),
    }
}

/// Whether a numeric literal holds the decimal form of a number. A literal
/// of another kind holds nothing that could fail to.
pub open spec fn literal_is_valid(l: ast::ValueVariants) -> bool {
    match l {
        ast::ValueVariants::Float(f) => f.is_valid(),
        ast::ValueVariants::Complex(c) => c.is_valid(),
        ast::ValueVariants::Rational(r) => r.is_valid(),
        _ => true,
    }
}

/// Whether a numeric literal holds the decimal form of a number.
pub fn literal_ok(l: &ast::ValueVariants) -> (r: bool)
    ensures
        r == literal_is_valid(*l),
{
    match l {
        ast::ValueVariants::Float(f) => f.is_ok(),
        ast::ValueVariants::Complex(c) => c.is_ok(),
        ast::ValueVariants::Rational(r) => r.is_ok(),
        _ => true,
    }
}

/// Every kind of literal has a text of its own, and none is written as
/// nothing: the text of a literal that is valid is never empty.
pub proof fn lemma_literal_text_not_empty(l: ast::ValueVariants)
    requires
        literal_is_valid(l),
    ensures
        literal_text(l).len() > 0,
{
    reveal_strlit("true");
    reveal_strlit("false");
    reveal_strlit("nil");
    reveal_strlit("i");
    reveal_strlit("\"");
    reveal_strlit(":");
    reveal_strlit("`");
    reveal_strlit("/");
    reveal_strlit("[");
    reveal_strlit("*");
    reveal_strlit("{\n");
    reveal_strlit("**");
    reveal_strlit("..");
    reveal_strlit("...");
    reveal_strlit("<<");
    reveal_strlit("<<-");
    reveal_strlit("<<~");
    match l {
        ast::ValueVariants::Integer(i) => {
            lemma_decimal_not_empty(i.0 as int);
        },
        ast::ValueVariants::Range(ast::RangeLiteral::Inclusive(i, _)) => {
            lemma_decimal_not_empty(i.0 as int);
        },
        ast::ValueVariants::Range(ast::RangeLiteral::Exclusive(i, _)) => {
            lemma_decimal_not_empty(i.0 as int);
        },
        _ => {},
    }
}

impl<'l> Emitter for Literals<'l> {
    open spec fn text(&self) -> Seq<char> {
        literal_text(*self.0)
    }

    fn emit(&self) -> (r: String)
        decreases self.0, 0nat,
    {
        match self.0 {
            ast::ValueVariants::Singleton(var) => Singleton(var).emit(),
            ast::ValueVariants::Integer(i) => integer_text(i.0),
            ast::ValueVariants::Float(f) => String::from_str(f.0.as_str()),
            ast::ValueVariants::Complex(c) => concat2(c.0.as_str(), "i"),
            ast::ValueVariants::Rational(r) => String::from_str(r.0.as_str()),
            ast::ValueVariants::String(s) => {
                let inner = StringVal(s).emit();
                enclose("\"", inner.as_str(), "\"")
            },
            ast::ValueVariants::Symbol(s) => {
                let inner = SymVal(s).emit();
                concat2(":", inner.as_str())
            },
            ast::ValueVariants::HereDocument(hd) => HereDoc(hd).emit(),
            ast::ValueVariants::ExecuteString(s) => {
                let inner = StringVal(s).emit();
                enclose("`", inner.as_str(), "`")
            },
            ast::ValueVariants::RegularExpression(rgx) => RegularExpression(rgx).emit(),
            ast::ValueVariants::Array(arr) => ArrayVal(arr).emit(),
            ast::ValueVariants::Hash(h) => HashVal(h).emit(),
            ast::ValueVariants::Range(r) => RangeVal(r).emit(),
        }
    }
}

/// Emitter of `true`, `false` and `nil`.
pub struct Singleton<'s>(pub &'s ast::SingletonVariants);

/// `true`, `false` or `nil`.
pub open spec fn singleton_text(s: ast::SingletonVariants) -> Seq<char> {
    match s {
        ast::SingletonVariants::True => "true"@,
        ast::SingletonVariants::False => "false"@,
        ast::SingletonVariants::Nil => "nil"@,
    }
}

impl<'s> Emitter for Singleton<'s> {
    open spec fn text(&self) -> Seq<char> {
        singleton_text(*self.0)
    }

    fn emit(&self) -> (r: String) {
        match self.0 {
            ast::SingletonVariants::False => String::from_str("false"),
            ast::SingletonVariants::True => String::from_str("true"),
            ast::SingletonVariants::Nil => String::from_str("nil"),
        }
    }
}

/// Emitter of the content of a string, without its delimiters.
pub struct StringVal<'s>(pub &'s ast::StringLiteral);

/// The content of a string, without its delimiters: a static payload as it
/// stands, an interpolated one as its segments in order.
pub open spec fn string_text(s: ast::StringLiteral) -> Seq<char>
    decreases s, 0nat,
{
    match s {
        ast::StringLiteral::Static(payload) => payload@,
        ast::StringLiteral::WithInterpolation(v) => concat(interpolation_texts(v@)),
    }
}

/// One segment of an interpolated string: a plain string literal stands
/// inline, anything else between `#{` and `}`.
pub open spec fn interpolation_text(exp: ast::Expression) -> Seq<char>
    decreases exp, 1nat,
{
    match exp {
        ast::Expression::Literal(ast::ValueVariants::String(s)) => string_text(s),
        _ => "#{"@ + expression_text(exp) + "}"@,
    }
}

/// The segments of an interpolated string, in order.
pub open spec fn interpolation_texts(v: Seq<ast::Expression>) -> Seq<Seq<char>>
    decreases v, 0nat,
{
    Seq::new(
        v.len(),
        |i: int|
            if 0 <= i < v.len() {
                interpolation_text(v[i])
            } else {
                Seq::empty()
            },
    )
}

impl<'s> Emitter for StringVal<'s> {
    open spec fn text(&self) -> Seq<char> {
        string_text(*self.0)
    }

    fn emit(&self) -> (r: String)
        decreases self.0, 0nat,
    {
        match self.0 {
            ast::StringLiteral::Static(s) => String::from_str(s.as_str()),
            ast::StringLiteral::WithInterpolation(v) => {
                let segments = interpolation_list(v);
                concat_strings(&segments)
            },
        }
    }
}

fn interpolation_list(v: &Vec<ast::Expression>) -> (r: Vec<String>)
    ensures
        texts_of(r@) == interpolation_texts(v@),
    decreases v, 0nat,
{
    let mut out: Vec<String> = Vec::new();
    let mut i: usize = 0;
    while i < v.len()
        invariant
            i <= v.len(),
            out.len() == i,
            forall|j: int| 0 <= j < i ==> out@[j]@ == interpolation_text(v@[j]),
        decreases v.len() - i,
    {
        out.push(string_interpolate(&v[i]));
        i = i + 1;
    }
    proof {
        assert(texts_of(out@) =~= interpolation_texts(v@));
    }
    out
}

/// Writes out one segment of an interpolated string.
pub fn string_interpolate(exp: &ast::Expression) -> (r: String)
    ensures
        r@ == interpolation_text(*exp),
    decreases exp, 1nat,
{
    match exp {
        ast::Expression::Literal(l) => match l {
            ast::ValueVariants::String(s) => StringVal(s).emit(),
            _ => {
                let inner = Literals(l).emit();
                enclose("#{", inner.as_str(), "}")
            },
        },
        _ => {
            let inner = Expression(exp).emit();
            enclose("#{", inner.as_str(), "}")
        },
    }
}

/// Emitter of the part of a symbol after its colon.
pub struct SymVal<'sym>(pub &'sym ast::StringLiteral);

/// The part of a symbol after its colon: a static payload bare or quoted,
/// an interpolated one between double quotes.
pub open spec fn symbol_text(s: ast::StringLiteral) -> Seq<char>
    decreases s, 0nat,
{
    match s {
        ast::StringLiteral::Static(payload) => symbol_quote_text(payload@),
        ast::StringLiteral::WithInterpolation(v) => "\""@ + concat(interpolation_texts(v@)) + "\""@,
    }
}

impl<'sym> Emitter for SymVal<'sym> {
    open spec fn text(&self) -> Seq<char> {
        symbol_text(*self.0)
    }

    fn emit(&self) -> (r: String)
        decreases self.0, 0nat,
    {
        match self.0 {
            ast::StringLiteral::Static(s) => symbol_quote(s.as_str()),
            ast::StringLiteral::WithInterpolation(v) => {
                let segments = interpolation_list(v);
                let inner = concat_strings(&segments);
                enclose("\"", inner.as_str(), "\"")
            },
        }
    }
}

/// Whether `c` may stand in a bare symbol: an ASCII digit, an ASCII letter
/// or the underscore.
pub open spec fn is_identifier_char(c: char) -> bool {
    ||| '0' <= c <= '9'
    ||| 'a' <= c <= 'z'
    ||| 'A' <= c <= 'Z'
    ||| c == '_'
}

/// Whether a symbol payload has to be quoted: some character of it may not
/// stand in a bare symbol.
pub open spec fn needs_quoting(payload: Seq<char>) -> bool {
    exists|i: int| 0 <= i < payload.len() && !is_identifier_char(#[trigger] payload[i])
}

/// A static symbol payload: bare when every character is an identifier
/// character, between double quotes otherwise.
pub open spec fn symbol_quote_text(payload: Seq<char>) -> Seq<char> {
    if needs_quoting(payload) {
        "\""@ + payload + "\""@
    } else {
        payload
    }
}

/// Compiles `pattern` with `regex::Regex::new` and asks `Regex::is_match`
/// whether it matches anywhere in `text`; `None` when the pattern does not
/// compile.
///
/// Trusted, and stated of one pattern only: the single negated class
/// `[^0-9a-zA-Z_]` compiles, and it matches somewhere in `text` exactly when
/// `text` holds a character that is no ASCII digit, no ASCII letter and no
/// underscore.
#[verifier::external_body]
fn regex_is_match(pattern: &str, text: &str) -> (r: Option<bool>)
    ensures
        pattern@ == "[^0-9a-zA-Z_]"@ ==> r == Some(needs_quoting(text@)),
{
    match regex::Regex::new(pattern) {
        Ok(re) => Some(re.is_match(text)),
        Err(_) => None,
    }
}

/// Writes out a static symbol payload, quoted if it has to be.
pub fn symbol_quote(s: &str) -> (r: String)
    ensures
        r@ == symbol_quote_text(s@),
{
    match regex_is_match("[^0-9a-zA-Z_]", s) {
        Some(true) => enclose("\"", s, "\""),
        _ => String::from_str(s),
    }
}

/// Emitter of a here document.
pub struct HereDoc<'h>(pub &'h ast::HereDocumentVariants);

/// A here document: the opening marker and the enclosure word on the first
/// line, the document on the lines after it, and the enclosure word again on
/// a line of its own. The marker is `<<`, `<<-` for the dash form and `<<~`
/// for the squiggly form.
pub open spec fn here_document_text(h: ast::HereDocumentVariants) -> Seq<char>
    decreases h, 0nat,
{
    match h {
        ast::HereDocumentVariants::Plain(hd) => here_document_lines("<<"@, hd),
        ast::HereDocumentVariants::Dash(hd) => here_document_lines("<<-"@, hd),
        ast::HereDocumentVariants::Squiggly(hd) => here_document_lines("<<~"@, hd),
    }
}

/// A here document that opens with `marker`.
pub open spec fn here_document_lines(marker: Seq<char>, hd: ast::HereDocument) -> Seq<char>
    decreases hd, 0nat,
{
    marker + hd.enclosure.0@ + "\n"@ + string_text(hd.document) + "\n"@ + hd.enclosure.0@
}

fn here_document(marker: &str, hd: &ast::HereDocument) -> (r: String)
    ensures
        r@ == here_document_lines(marker@, *hd),
    decreases hd, 0nat,
{
    let document = StringVal(&hd.document).emit();
    let mut out = String::from_str(marker);
    out.append(hd.enclosure.0.as_str());
    out.append("\n");
    out.append(document.as_str());
    out.append("\n");
    out.append(hd.enclosure.0.as_str());
    out
}

impl<'h> Emitter for HereDoc<'h> {
    open spec fn text(&self) -> Seq<char> {
        here_document_text(*self.0)
    }

    fn emit(&self) -> (r: String)
        decreases self.0, 0nat,
    {
        match self.0 {
            ast::HereDocumentVariants::Plain(hd) => here_document("<<", hd),
            ast::HereDocumentVariants::Dash(hd) => here_document("<<-", hd),
            ast::HereDocumentVariants::Squiggly(hd) => here_document("<<~", hd),
        }
    }
}

/// Emitter of a regular expression.
pub struct RegularExpression<'r>(pub &'r ast::RegularExpression);

/// The letter of a flag.
pub open spec fn flag_letter(flag: ast::RegularExpressionFlag) -> Seq<char> {
    match flag {
        ast::RegularExpressionFlag::E => "e"@,
        ast::RegularExpressionFlag::I => "i"@,
        ast::RegularExpressionFlag::M => "m"@,
        ast::RegularExpressionFlag::N => "n"@,
        ast::RegularExpressionFlag::U => "u"@,
        ast::RegularExpressionFlag::X => "x"@,
    }
}

/// The letter of `flag` if `options` holds it, nothing otherwise.
pub open spec fn flag_if_set(
    options: Seq<ast::RegularExpressionFlag>,
    flag: ast::RegularExpressionFlag,
) -> Seq<char> {
    if options.contains(flag) {
        flag_letter(flag)
    } else {
        Seq::empty()
    }
}

/// The flag suffix: the letter of each flag that `options` holds, once, in
/// the order in which the flags are declared, whatever their order in
/// `options`.
pub open spec fn flag_letters(options: Seq<ast::RegularExpressionFlag>) -> Seq<char> {
    flag_if_set(options, ast::RegularExpressionFlag::E) + flag_if_set(
        options,
        ast::RegularExpressionFlag::I,
    ) + flag_if_set(options, ast::RegularExpressionFlag::M) + flag_if_set(
        options,
        ast::RegularExpressionFlag::N,
    ) + flag_if_set(options, ast::RegularExpressionFlag::U) + flag_if_set(
        options,
        ast::RegularExpressionFlag::X,
    )
}

/// The flag suffix depends on which flags are held, not on the order in
/// which they are held nor on how often.
pub proof fn lemma_flags_ignore_order(
    first: Seq<ast::RegularExpressionFlag>,
    second: Seq<ast::RegularExpressionFlag>,
)
    requires
        forall|flag: ast::RegularExpressionFlag| first.contains(flag) == second.contains(flag),
    ensures
        flag_letters(first) == flag_letters(second),
{
}

/// A regular expression: the pattern between slashes, then the flag suffix.
pub open spec fn regular_expression_text(r: ast::RegularExpression) -> Seq<char>
    decreases r, 0nat,
{
    "/"@ + string_text(r.expression) + "/"@ + flag_letters(r.options@)
}

fn same_flag(a: &ast::RegularExpressionFlag, b: &ast::RegularExpressionFlag) -> (r: bool)
    ensures
        r == (*a == *b),
{
    match (a, b) {
        (ast::RegularExpressionFlag::E, ast::RegularExpressionFlag::E) => true,
        (ast::RegularExpressionFlag::I, ast::RegularExpressionFlag::I) => true,
        (ast::RegularExpressionFlag::M, ast::RegularExpressionFlag::M) => true,
        (ast::RegularExpressionFlag::N, ast::RegularExpressionFlag::N) => true,
        (ast::RegularExpressionFlag::U, ast::RegularExpressionFlag::U) => true,
        (ast::RegularExpressionFlag::X, ast::RegularExpressionFlag::X) => true,
        _ => false,
    }
}

fn flag_code(flag: &ast::RegularExpressionFlag) -> (r: &'static str)
    ensures
        r@ == flag_letter(*flag),
{
    match flag {
        ast::RegularExpressionFlag::E => "e",
        ast::RegularExpressionFlag::I => "i",
        ast::RegularExpressionFlag::M => "m",
        ast::RegularExpressionFlag::N => "n",
        ast::RegularExpressionFlag::U => "u",
        ast::RegularExpressionFlag::X => "x",
    }
}

fn push_flag(
    out: &mut String,
    options: &Vec<ast::RegularExpressionFlag>,
    flag: ast::RegularExpressionFlag,
)
    ensures
        final(out)@ == old(out)@ + flag_if_set(options@, flag),
{
    let mut found = false;
    let mut i: usize = 0;
    while i < options.len()
        invariant
            i <= options.len(),
            found == options@.take(i as int).contains(flag),
        decreases options.len() - i,
    {
        if same_flag(&options[i], &flag) {
            found = true;
        }
        proof {
            let before = options@.take(i as int);
            let after = options@.take(i + 1);
            assert(after =~= before.push(options@[i as int]));
            assert(after.contains(flag) == (before.contains(flag) || options@[i as int] == flag))
                by {
                if before.contains(flag) {
                    let k = choose|k: int| 0 <= k < before.len() && before[k] == flag;
                    assert(after[k] == flag);
                }
                if options@[i as int] == flag {
                    assert(after[i as int] == flag);
                }
            }
        }
        i = i + 1;
    }
    proof {
        assert(options@.take(options.len() as int) =~= options@);
    }
    if found {
        out.append(flag_code(&flag));
    } else {
        assert(old(out)@ + Seq::<char>::empty() =~= old(out)@);
    }
}

impl<'r> Emitter for RegularExpression<'r> {
    open spec fn text(&self) -> Seq<char> {
        regular_expression_text(*self.0)
    }

    fn emit(&self) -> (r: String)
        decreases self.0, 0nat,
    {
        let mut flags = String::new();
        push_flag(&mut flags, &self.0.options, ast::RegularExpressionFlag::E);
        push_flag(&mut flags, &self.0.options, ast::RegularExpressionFlag::I);
        push_flag(&mut flags, &self.0.options, ast::RegularExpressionFlag::M);
        push_flag(&mut flags, &self.0.options, ast::RegularExpressionFlag::N);
        push_flag(&mut flags, &self.0.options, ast::RegularExpressionFlag::U);
        push_flag(&mut flags, &self.0.options, ast::RegularExpressionFlag::X);
        proof {
            assert(flags@ =~= flag_letters(self.0.options@));
        }
        let pattern = StringVal(&self.0.expression).emit();
        let mut out = enclose("/", pattern.as_str(), "/");
        out.append(flags.as_str());
        out
    }
}

/// Emitter of an array literal.
pub struct ArrayVal<'a>(pub &'a ast::ArrayLiteral);

/// An array. A plain or interpolated one lists its elements between square
/// brackets, separated by a comma and a space; a splat is the one splatted
/// operand.
pub open spec fn array_text(a: ast::ArrayLiteral) -> Seq<char>
    decreases a, 0nat,
{
    match a {
        ast::ArrayLiteral::Plain(vexp) => "["@ + join(expression_texts(vexp@), ", "@) + "]"@,
        ast::ArrayLiteral::Splat(aexp) => array_expression_text(aexp),
        ast::ArrayLiteral::WithInterpolation(vaip) => "["@ + join(
            array_interpolation_texts(vaip@),
            ", "@,
        ) + "]"@,
    }
}

/// What an array expression stands for, without a splat sign: the access, or
/// the array literal.
pub open spec fn array_operand_text(aexp: ast::ArrayExpression) -> Seq<char>
    decreases aexp, 0nat,
{
    match aexp {
        ast::ArrayExpression::Access(av) => access_text(av),
        ast::ArrayExpression::Literal(al) => array_text(*al),
    }
}

/// A splatted array expression: one `*`, then the operand.
pub open spec fn array_expression_text(aexp: ast::ArrayExpression) -> Seq<char>
    decreases aexp, 1nat,
{
    "*"@ + array_operand_text(aexp)
}

/// An element of an interpolated array: an expression, or a splat.
pub open spec fn array_interpolation_text(element: ast::ArrayInterpolation) -> Seq<char>
    decreases element, 0nat,
{
    match element {
        ast::ArrayInterpolation::Expression(exp) => expression_text(exp),
        ast::ArrayInterpolation::Splat(aexp) => array_expression_text(aexp),
    }
}

/// The elements of an interpolated array, in order.
pub open spec fn array_interpolation_texts(v: Seq<ast::ArrayInterpolation>) -> Seq<Seq<char>>
    decreases v, 0nat,
{
    Seq::new(
        v.len(),
        |i: int|
            if 0 <= i < v.len() {
                array_interpolation_text(v[i])
            } else {
                Seq::empty()
            },
    )
}

impl<'a> Emitter for ArrayVal<'a> {
    open spec fn text(&self) -> Seq<char> {
        array_text(*self.0)
    }

    fn emit(&self) -> (r: String)
        decreases self.0, 0nat,
    {
        match self.0 {
            ast::ArrayLiteral::Plain(vexp) => {
                let elements = expression_list(vexp);
                let inner = join_strings(&elements, ", ");
                enclose("[", inner.as_str(), "]")
            },
            ast::ArrayLiteral::Splat(aexp) => array_expression(aexp),
            ast::ArrayLiteral::WithInterpolation(vaip) => {
                let mut elements: Vec<String> = Vec::new();
                let mut i: usize = 0;
                while i < vaip.len()
                    invariant
                        i <= vaip.len(),
                        elements.len() == i,
                        forall|j: int|
                            0 <= j < i ==> elements@[j]@ == array_interpolation_text(vaip@[j]),
                        decreases_to!(self.0 => vaip),
                    decreases vaip.len() - i,
                {
                    elements.push(array_interpolation(&vaip[i]));
                    i = i + 1;
                }
                proof {
                    assert(texts_of(elements@) =~= array_interpolation_texts(vaip@));
                }
                let inner = join_strings(&elements, ", ");
                enclose("[", inner.as_str(), "]")
            },
        }
    }
}

/// Writes out an element of an interpolated array.
pub fn array_interpolation(element: &ast::ArrayInterpolation) -> (r: String)
    ensures
        r@ == array_interpolation_text(*element),
    decreases element, 0nat,
{
    match element {
        ast::ArrayInterpolation::Expression(exp) => Expression(exp).emit(),
        ast::ArrayInterpolation::Splat(aexp) => array_expression(aexp),
    }
}

/// Writes out what an array expression stands for, without a splat sign.
pub fn array_operand(aexp: &ast::ArrayExpression) -> (r: String)
    ensures
        r@ == array_operand_text(*aexp),
    decreases aexp, 0nat,
{
    match aexp {
        ast::ArrayExpression::Access(av) => Access(av).emit(),
        ast::ArrayExpression::Literal(al) => ArrayVal(al).emit(),
    }
}

/// Writes out a splatted array expression.
pub fn array_expression(aexp: &ast::ArrayExpression) -> (r: String)
    ensures
        r@ == array_expression_text(*aexp),
    decreases aexp, 1nat,
{
    let operand = array_operand(aexp);
    concat2("*", operand.as_str())
}

/// Emitter of a hash literal.
pub struct HashVal<'h>(pub &'h ast::HashLiteral);

/// A hash. A plain or interpolated one lists its elements, separated by a
/// comma and a space, between `{` and `}`, each of the two on a line of its
/// own; a splat is the one splatted operand, with nothing around it.
pub open spec fn hash_text(h: ast::HashLiteral) -> Seq<char>
    decreases h, 0nat,
{
    match h {
        ast::HashLiteral::Plain(vh) => "{\n"@ + join(hash_element_texts(vh@), ", "@) + "\n}"@,
        ast::HashLiteral::Splat(sxp) => hash_expression_text(sxp),
        ast::HashLiteral::WithInterpolation(hwp) => "{\n"@ + join(
            hash_interpolation_texts(hwp@),
            ", "@,
        ) + "\n}"@,
    }
}

/// An element of a hash: `key => value` for a pair, `key: value` for a
/// labelled value.
pub open spec fn hash_element_text(elt: ast::HashElement) -> Seq<char>
    decreases elt, 0nat,
{
    match elt {
        ast::HashElement::Pair(pelt) => expression_text(pelt.key) + " => "@ + expression_text(
            pelt.value,
        ),
        ast::HashElement::WithLabel(lelt) => string_text(lelt.key) + ": "@ + expression_text(
            lelt.value,
        ),
    }
}

/// The elements of a plain hash, in order.
pub open spec fn hash_element_texts(v: Seq<ast::HashElement>) -> Seq<Seq<char>>
    decreases v, 0nat,
{
    Seq::new(
        v.len(),
        |i: int|
            if 0 <= i < v.len() {
                hash_element_text(v[i])
            } else {
                Seq::empty()
            },
    )
}

/// A splatted hash expression: `**`, then the access or the hash literal.
pub open spec fn hash_expression_text(exp: ast::HashExpression) -> Seq<char>
    decreases exp, 0nat,
{
    "**"@ + (match exp {
        ast::HashExpression::Access(acc) => access_text(acc),
        ast::HashExpression::Literal(hl) => hash_text(*hl),
    })
}

/// An element of an interpolated hash: an element, or a splat.
pub open spec fn hash_interpolation_text(element: ast::HashInterpolation) -> Seq<char>
    decreases element, 0nat,
{
    match element {
        ast::HashInterpolation::Element(elt) => hash_element_text(elt),
        ast::HashInterpolation::Splat(exp) => hash_expression_text(exp),
    }
}

/// The elements of an interpolated hash, in order.
pub open spec fn hash_interpolation_texts(v: Seq<ast::HashInterpolation>) -> Seq<Seq<char>>
    decreases v, 0nat,
{
    Seq::new(
        v.len(),
        |i: int|
            if 0 <= i < v.len() {
                hash_interpolation_text(v[i])
            } else {
                Seq::empty()
            },
    )
}

impl<'h> Emitter for HashVal<'h> {
    open spec fn text(&self) -> Seq<char> {
        hash_text(*self.0)
    }

    fn emit(&self) -> (r: String)
        decreases self.0, 0nat,
    {
        match self.0 {
            ast::HashLiteral::Plain(vh) => {
                let mut elements: Vec<String> = Vec::new();
                let mut i: usize = 0;
                while i < vh.len()
                    invariant
                        i <= vh.len(),
                        elements.len() == i,
                        forall|j: int| 0 <= j < i ==> elements@[j]@ == hash_element_text(vh@[j]),
                        decreases_to!(self.0 => vh),
                    decreases vh.len() - i,
                {
                    elements.push(hash_element(&vh[i]));
                    i = i + 1;
                }
                proof {
                    assert(texts_of(elements@) =~= hash_element_texts(vh@));
                }
                let inner = join_strings(&elements, ", ");
                enclose("{\n", inner.as_str(), "\n}")
            },
            ast::HashLiteral::Splat(sxp) => hash_expression(sxp),
            ast::HashLiteral::WithInterpolation(hwp) => {
                let mut elements: Vec<String> = Vec::new();
                let mut i: usize = 0;
                while i < hwp.len()
                    invariant
                        i <= hwp.len(),
                        elements.len() == i,
                        forall|j: int|
                            0 <= j < i ==> elements@[j]@ == hash_interpolation_text(hwp@[j]),
                        decreases_to!(self.0 => hwp),
                    decreases hwp.len() - i,
                {
                    let element = match &hwp[i] {
                        ast::HashInterpolation::Element(elt) => hash_element(elt),
                        ast::HashInterpolation::Splat(exp) => hash_expression(exp),
                    };
                    elements.push(element);
                    i = i + 1;
                }
                proof {
                    assert(texts_of(elements@) =~= hash_interpolation_texts(hwp@));
                }
                let inner = join_strings(&elements, ", ");
                enclose("{\n", inner.as_str(), "\n}")
            },
        }
    }
}

/// Writes out an element of a hash.
pub fn hash_element(elt: &ast::HashElement) -> (r: String)
    ensures
        r@ == hash_element_text(*elt),
    decreases elt, 0nat,
{
    match elt {
        ast::HashElement::Pair(pelt) => {
            let key = Expression(&pelt.key).emit();
            let value = Expression(&pelt.value).emit();
            enclose(key.as_str(), " => ", value.as_str())
        },
        ast::HashElement::WithLabel(lelt) => {
            let key = StringVal(&lelt.key).emit();
            let value = Expression(&lelt.value).emit();
            enclose(key.as_str(), ": ", value.as_str())
        },
    }
}

/// Writes out a splatted hash expression.
pub fn hash_expression(exp: &ast::HashExpression) -> (r: String)
    ensures
        r@ == hash_expression_text(*exp),
    decreases exp, 0nat,
{
    let operand = match exp {
        ast::HashExpression::Access(acc) => Access(acc).emit(),
        ast::HashExpression::Literal(hl) => HashVal(hl).emit(),
    };
    concat2("**", operand.as_str())
}

/// Emitter of a range.
pub struct RangeVal<'r>(pub &'r ast::RangeLiteral);

/// The upper bound of a range: its decimal form, or nothing for an endless
/// range.
pub open spec fn upper_bound_text(bound: Option<ast::IntegerLiteral>) -> Seq<char> {
    match bound {
        Some(upper) => decimal(upper.0 as int),
        None => Seq::empty(),
    }
}

/// A range: the lower bound, two dots (inclusive) or three (exclusive), and
/// the upper bound if there is one.
pub open spec fn range_text(r: ast::RangeLiteral) -> Seq<char> {
    match r {
        ast::RangeLiteral::Exclusive(i, si) => decimal(i.0 as int) + "..."@ + upper_bound_text(si),
        ast::RangeLiteral::Inclusive(i, si) => decimal(i.0 as int) + ".."@ + upper_bound_text(si),
    }
}

fn upper_bound(bound: &Option<ast::IntegerLiteral>) -> (r: String)
    ensures
        r@ == upper_bound_text(*bound),
{
    match bound {
        Some(upper) => integer_text(upper.0),
        None => String::new(),
    }
}

impl<'r> Emitter for RangeVal<'r> {
    open spec fn text(&self) -> Seq<char> {
        range_text(*self.0)
    }

    fn emit(&self) -> (r: String) {
        match self.0 {
            ast::RangeLiteral::Exclusive(i, si) => {
                let lower = integer_text(i.0);
                let upper = upper_bound(si);
                enclose(lower.as_str(), "...", upper.as_str())
            },
            ast::RangeLiteral::Inclusive(i, si) => {
                let lower = integer_text(i.0);
                let upper = upper_bound(si);
                enclose(lower.as_str(), "..", upper.as_str())
            },
        }
    }
}

} // verus!
