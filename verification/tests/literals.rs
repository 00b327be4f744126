use ruby_emitter::ast;
use ruby_emitter::emitters::expression;
use ruby_emitter::emitters::literals::{
    array_expression, array_interpolation, array_operand, hash_element, hash_expression,
    string_interpolate, symbol_quote, ArrayVal, HashVal, HereDoc, Literals, RangeVal,
    RegularExpression, Singleton, StringVal, SymVal,
};
use ruby_emitter::emitters::Emitter;

fn variable(name: &str) -> ast::Variable {
    ast::Variable(name.to_string())
}

fn local(name: &str) -> ast::Expression {
    ast::Expression::Access(ast::AccessVariants::LocalVariable(variable(name)))
}

fn integer(value: i64) -> ast::Expression {
    ast::Expression::Literal(ast::ValueVariants::Integer(ast::IntegerLiteral(value)))
}

fn static_string(text: &str) -> ast::StringLiteral {
    ast::StringLiteral::Static(text.to_string())
}

fn string(text: &str) -> ast::Expression {
    ast::Expression::Literal(ast::ValueVariants::String(static_string(text)))
}

fn literal(l: ast::ValueVariants) -> String {
    Literals(&l).emit()
}

fn here_document(enclosure: &str, document: &str) -> ast::HereDocument {
    ast::HereDocument {
        enclosure: ast::Constant(enclosure.to_string()),
        document: static_string(document),
    }
}

fn regex(pattern: &str, options: Vec<ast::RegularExpressionFlag>) -> ast::RegularExpression {
    ast::RegularExpression { expression: static_string(pattern), options }
}

fn pair(key: ast::Expression, value: ast::Expression) -> ast::HashElement {
    ast::HashElement::Pair(ast::PairElement { key, value })
}

fn labeled(key: &str, value: ast::Expression) -> ast::HashElement {
    ast::HashElement::WithLabel(ast::LabeledElement { key: static_string(key), value })
}

#[test]
fn singleton_true() {
    assert_eq!(Singleton(&ast::SingletonVariants::True).emit(), "true");
}

#[test]
fn singleton_false() {
    assert_eq!(Singleton(&ast::SingletonVariants::False).emit(), "false");
}

#[test]
fn singleton_nil() {
    assert_eq!(Singleton(&ast::SingletonVariants::Nil).emit(), "nil");
}

#[test]
fn literal_singleton() {
    assert_eq!(literal(ast::ValueVariants::Singleton(ast::SingletonVariants::Nil)), "nil");
}

#[test]
fn literal_integer() {
    assert_eq!(literal(ast::ValueVariants::Integer(ast::IntegerLiteral(42))), "42");
    assert_eq!(literal(ast::ValueVariants::Integer(ast::IntegerLiteral(-7))), "-7");
    assert_eq!(literal(ast::ValueVariants::Integer(ast::IntegerLiteral(0))), "0");
}

#[test]
fn literal_integer_does_not_keep_source_digits() {
    // 1_000 and 0x10 are held as their values
    assert_eq!(literal(ast::ValueVariants::Integer(ast::IntegerLiteral(1_000))), "1000");
    assert_eq!(literal(ast::ValueVariants::Integer(ast::IntegerLiteral(0x10))), "16");
}

#[test]
fn literal_float() {
    let value: f64 = 1.5;
    assert_eq!(literal(ast::ValueVariants::Float(ast::FloatLiteral(value.to_string()))), "1.5");
    let negative: f64 = -0.25;
    assert_eq!(
        literal(ast::ValueVariants::Float(ast::FloatLiteral(negative.to_string()))),
        "-0.25"
    );
}

#[test]
fn literal_complex_has_imaginary_suffix() {
    let value: f64 = 2.0;
    assert_eq!(literal(ast::ValueVariants::Complex(ast::ComplexLiteral(value.to_string()))), "2i");
    let fraction: f64 = 0.5;
    assert_eq!(
        literal(ast::ValueVariants::Complex(ast::ComplexLiteral(fraction.to_string()))),
        "0.5i"
    );
}

#[test]
fn literal_rational_is_plain_decimal() {
    let value: f64 = 0.75;
    assert_eq!(
        literal(ast::ValueVariants::Rational(ast::RationalLiteral(value.to_string()))),
        "0.75"
    );
}

#[test]
fn literal_string_is_double_quoted() {
    assert_eq!(literal(ast::ValueVariants::String(static_string("hello"))), "\"hello\"");
    assert_eq!(literal(ast::ValueVariants::String(static_string(""))), "\"\"");
}

#[test]
fn literal_string_payload_is_not_escaped_again() {
    assert_eq!(literal(ast::ValueVariants::String(static_string("a\\nb"))), "\"a\\nb\"");
}

#[test]
fn literal_symbol() {
    assert_eq!(literal(ast::ValueVariants::Symbol(static_string("name"))), ":name");
}

#[test]
fn literal_execute_string() {
    assert_eq!(literal(ast::ValueVariants::ExecuteString(static_string("ls -l"))), "`ls -l`");
}

#[test]
fn string_val_static() {
    assert_eq!(StringVal(&static_string("plain")).emit(), "plain");
}

#[test]
fn string_val_with_interpolation() {
    let s = ast::StringLiteral::WithInterpolation(vec![string("a "), local("x"), string(" b")]);
    assert_eq!(StringVal(&s).emit(), "a #{x} b");
}

#[test]
fn string_val_without_segments() {
    let s = ast::StringLiteral::WithInterpolation(vec![]);
    assert_eq!(StringVal(&s).emit(), "");
}

#[test]
fn interpolated_string_literal() {
    let s = ast::StringLiteral::WithInterpolation(vec![string("total: "), integer(3)]);
    assert_eq!(literal(ast::ValueVariants::String(s)), "\"total: #{3}\"");
}

#[test]
fn interpolation_keeps_segment_order() {
    let forward = ast::StringLiteral::WithInterpolation(vec![local("a"), string("-"), local("b")]);
    let backward = ast::StringLiteral::WithInterpolation(vec![local("b"), string("-"), local("a")]);
    assert_eq!(StringVal(&forward).emit(), "#{a}-#{b}");
    assert_eq!(StringVal(&backward).emit(), "#{b}-#{a}");
}

#[test]
fn string_interpolate_plain_string_is_inline() {
    assert_eq!(string_interpolate(&string("inline")), "inline");
}

#[test]
fn string_interpolate_other_literal_is_wrapped() {
    assert_eq!(string_interpolate(&integer(5)), "#{5}");
    let symbol = ast::Expression::Literal(ast::ValueVariants::Symbol(static_string("s")));
    assert_eq!(string_interpolate(&symbol), "#{:s}");
}

#[test]
fn string_interpolate_expression_is_wrapped() {
    assert_eq!(string_interpolate(&local("name")), "#{name}");
}

#[test]
fn string_interpolate_nested_interpolation_is_inline() {
    let inner = ast::Expression::Literal(ast::ValueVariants::String(
        ast::StringLiteral::WithInterpolation(vec![string("<"), local("x"), string(">")]),
    ));
    assert_eq!(string_interpolate(&inner), "<#{x}>");
}

#[test]
fn symbol_with_underscore_is_bare() {
    assert_eq!(literal(ast::ValueVariants::Symbol(static_string("foo_bar"))), ":foo_bar");
}

#[test]
fn symbol_with_space_is_quoted() {
    assert_eq!(literal(ast::ValueVariants::Symbol(static_string("foo bar"))), ":\"foo bar\"");
}

#[test]
fn symbol_quote_bare_payloads() {
    assert_eq!(symbol_quote("abc"), "abc");
    assert_eq!(symbol_quote("ABC123"), "ABC123");
    assert_eq!(symbol_quote("_private"), "_private");
    assert_eq!(symbol_quote("a_b_9"), "a_b_9");
    assert_eq!(symbol_quote(""), "");
}

#[test]
fn symbol_quote_quoted_payloads() {
    assert_eq!(symbol_quote("a b"), "\"a b\"");
    assert_eq!(symbol_quote("a-b"), "\"a-b\"");
    assert_eq!(symbol_quote("a?"), "\"a?\"");
    assert_eq!(symbol_quote("a\nb"), "\"a\nb\"");
    assert_eq!(symbol_quote(" "), "\" \"");
    assert_eq!(symbol_quote("caf\u{e9}"), "\"caf\u{e9}\"");
    assert_eq!(symbol_quote("{"), "\"{\"");
}

#[test]
fn symbol_quote_boundary_characters() {
    // the neighbours of the three ranges in the character table
    assert_eq!(symbol_quote("/"), "\"/\"");
    assert_eq!(symbol_quote(":"), "\":\"");
    assert_eq!(symbol_quote("@"), "\"@\"");
    assert_eq!(symbol_quote("["), "\"[\"");
    assert_eq!(symbol_quote("`"), "\"`\"");
    assert_eq!(symbol_quote("0"), "0");
    assert_eq!(symbol_quote("9"), "9");
    assert_eq!(symbol_quote("A"), "A");
    assert_eq!(symbol_quote("Z"), "Z");
    assert_eq!(symbol_quote("a"), "a");
    assert_eq!(symbol_quote("z"), "z");
}

#[test]
fn sym_val_static() {
    assert_eq!(SymVal(&static_string("ok")).emit(), "ok");
    assert_eq!(SymVal(&static_string("not ok")).emit(), "\"not ok\"");
}

#[test]
fn sym_val_with_interpolation_is_double_quoted() {
    let s = ast::StringLiteral::WithInterpolation(vec![string("key_"), local("n")]);
    assert_eq!(SymVal(&s).emit(), "\"key_#{n}\"");
    assert_eq!(
        literal(ast::ValueVariants::Symbol(ast::StringLiteral::WithInterpolation(vec![
            string("key_"),
            local("n"),
        ]))),
        ":\"key_#{n}\""
    );
}

#[test]
fn here_document_plain() {
    let h = ast::HereDocumentVariants::Plain(here_document("EOS", "text"));
    assert_eq!(HereDoc(&h).emit(), "<<EOS\ntext\nEOS");
}

#[test]
fn here_document_dash() {
    let h = ast::HereDocumentVariants::Dash(here_document("EOS", "line one\nline two"));
    assert_eq!(HereDoc(&h).emit(), "<<-EOS\nline one\nline two\nEOS");
}

#[test]
fn here_document_squiggly() {
    let h = ast::HereDocumentVariants::Squiggly(here_document("DOC", "  indented"));
    assert_eq!(HereDoc(&h).emit(), "<<~DOC\n  indented\nDOC");
}

#[test]
fn here_document_with_interpolation() {
    let h = ast::HereDocumentVariants::Dash(ast::HereDocument {
        enclosure: ast::Constant("EOS".to_string()),
        document: ast::StringLiteral::WithInterpolation(vec![string("Hi "), local("name")]),
    });
    assert_eq!(literal(ast::ValueVariants::HereDocument(h)), "<<-EOS\nHi #{name}\nEOS");
}

#[test]
fn regular_expression_without_flags() {
    assert_eq!(RegularExpression(&regex("a.b", vec![])).emit(), "/a.b/");
}

#[test]
fn regular_expression_each_flag() {
    assert_eq!(RegularExpression(&regex("a", vec![ast::RegularExpressionFlag::E])).emit(), "/a/e");
    assert_eq!(RegularExpression(&regex("a", vec![ast::RegularExpressionFlag::I])).emit(), "/a/i");
    assert_eq!(RegularExpression(&regex("a", vec![ast::RegularExpressionFlag::M])).emit(), "/a/m");
    assert_eq!(RegularExpression(&regex("a", vec![ast::RegularExpressionFlag::N])).emit(), "/a/n");
    assert_eq!(RegularExpression(&regex("a", vec![ast::RegularExpressionFlag::U])).emit(), "/a/u");
    assert_eq!(RegularExpression(&regex("a", vec![ast::RegularExpressionFlag::X])).emit(), "/a/x");
}

#[test]
fn regular_expression_flags_in_declaration_order() {
    let r = regex(
        "a",
        vec![
            ast::RegularExpressionFlag::X,
            ast::RegularExpressionFlag::U,
            ast::RegularExpressionFlag::N,
            ast::RegularExpressionFlag::M,
            ast::RegularExpressionFlag::I,
            ast::RegularExpressionFlag::E,
        ],
    );
    assert_eq!(RegularExpression(&r).emit(), "/a/eimnux");
    let two = regex("a", vec![ast::RegularExpressionFlag::X, ast::RegularExpressionFlag::I]);
    assert_eq!(RegularExpression(&two).emit(), "/a/ix");
}

#[test]
fn regular_expression_repeated_flag_is_written_once() {
    let r = regex(
        "a",
        vec![
            ast::RegularExpressionFlag::M,
            ast::RegularExpressionFlag::I,
            ast::RegularExpressionFlag::M,
        ],
    );
    assert_eq!(RegularExpression(&r).emit(), "/a/im");
}

#[test]
fn regular_expression_with_interpolation() {
    let r = ast::RegularExpression {
        expression: ast::StringLiteral::WithInterpolation(vec![string("^"), local("prefix")]),
        options: vec![ast::RegularExpressionFlag::I],
    };
    assert_eq!(literal(ast::ValueVariants::RegularExpression(r)), "/^#{prefix}/i");
}

#[test]
fn array_plain() {
    let a = ast::ArrayLiteral::Plain(vec![integer(1), integer(2), integer(3)]);
    assert_eq!(ArrayVal(&a).emit(), "[1, 2, 3]");
}

#[test]
fn array_plain_empty_and_single() {
    assert_eq!(ArrayVal(&ast::ArrayLiteral::Plain(vec![])).emit(), "[]");
    assert_eq!(ArrayVal(&ast::ArrayLiteral::Plain(vec![integer(1)])).emit(), "[1]");
}

#[test]
fn array_plain_keeps_order() {
    let a = ast::ArrayLiteral::Plain(vec![integer(3), integer(1), integer(2), integer(1)]);
    assert_eq!(ArrayVal(&a).emit(), "[3, 1, 2, 1]");
}

#[test]
fn array_splat_of_access() {
    let a = ast::ArrayLiteral::Splat(ast::ArrayExpression::Access(
        ast::AccessVariants::LocalVariable(variable("rest")),
    ));
    assert_eq!(ArrayVal(&a).emit(), "*rest");
}

#[test]
fn array_splat_of_literal() {
    let inner = ast::ArrayLiteral::Plain(vec![integer(1), integer(2)]);
    let a = ast::ArrayLiteral::Splat(ast::ArrayExpression::Literal(Box::new(inner)));
    assert_eq!(literal(ast::ValueVariants::Array(a)), "*[1, 2]");
}

#[test]
fn array_with_interpolation() {
    let a = ast::ArrayLiteral::WithInterpolation(vec![
        ast::ArrayInterpolation::Expression(integer(1)),
        ast::ArrayInterpolation::Splat(ast::ArrayExpression::Access(
            ast::AccessVariants::LocalVariable(variable("middle")),
        )),
        ast::ArrayInterpolation::Expression(integer(9)),
    ]);
    assert_eq!(ArrayVal(&a).emit(), "[1, *middle, 9]");
}

#[test]
fn array_expression_has_one_splat_sign() {
    let access =
        ast::ArrayExpression::Access(ast::AccessVariants::InstanceVariable(variable("items")));
    assert_eq!(array_expression(&access), "*@items");
    assert_eq!(array_operand(&access), "@items");
    let nested = ast::ArrayExpression::Literal(Box::new(ast::ArrayLiteral::Splat(
        ast::ArrayExpression::Access(ast::AccessVariants::LocalVariable(variable("x"))),
    )));
    assert_eq!(array_expression(&nested), "**x");
}

#[test]
fn array_interpolation_elements() {
    assert_eq!(array_interpolation(&ast::ArrayInterpolation::Expression(local("x"))), "x");
    assert_eq!(
        array_interpolation(&ast::ArrayInterpolation::Splat(ast::ArrayExpression::Access(
            ast::AccessVariants::LocalVariable(variable("x")),
        ))),
        "*x"
    );
}

#[test]
fn hash_plain() {
    let h = ast::HashLiteral::Plain(vec![pair(string("k"), integer(1)), labeled("a", integer(2))]);
    assert_eq!(HashVal(&h).emit(), "{\n\"k\" => 1, a: 2\n}");
}

#[test]
fn hash_plain_empty() {
    assert_eq!(HashVal(&ast::HashLiteral::Plain(vec![])).emit(), "{\n\n}");
}

#[test]
fn hash_splat_of_access() {
    let h = ast::HashLiteral::Splat(ast::HashExpression::Access(
        ast::AccessVariants::LocalVariable(variable("options")),
    ));
    assert_eq!(HashVal(&h).emit(), "**options");
}

#[test]
fn hash_splat_of_literal() {
    let inner = ast::HashLiteral::Plain(vec![labeled("a", integer(1))]);
    let h = ast::HashLiteral::Splat(ast::HashExpression::Literal(Box::new(inner)));
    assert_eq!(literal(ast::ValueVariants::Hash(h)), "**{\na: 1\n}");
}

#[test]
fn hash_splat_differs_from_a_hash_that_holds_one_splat() {
    let operand = || ast::HashExpression::Access(ast::AccessVariants::LocalVariable(variable("h")));
    let splat = ast::HashLiteral::Splat(operand());
    let holding = ast::HashLiteral::WithInterpolation(vec![ast::HashInterpolation::Splat(
        operand(),
    )]);
    assert_eq!(HashVal(&splat).emit(), "**h");
    assert_eq!(HashVal(&holding).emit(), "{\n**h\n}");
}

#[test]
fn array_splat_differs_from_an_array_that_holds_one_splat() {
    let operand =
        || ast::ArrayExpression::Access(ast::AccessVariants::LocalVariable(variable("a")));
    let splat = ast::ArrayLiteral::Splat(operand());
    let holding = ast::ArrayLiteral::WithInterpolation(vec![ast::ArrayInterpolation::Splat(
        operand(),
    )]);
    assert_eq!(ArrayVal(&splat).emit(), "*a");
    assert_eq!(ArrayVal(&holding).emit(), "[*a]");
}

#[test]
fn hash_with_interpolation() {
    let h = ast::HashLiteral::WithInterpolation(vec![
        ast::HashInterpolation::Element(labeled("a", integer(1))),
        ast::HashInterpolation::Splat(ast::HashExpression::Access(
            ast::AccessVariants::LocalVariable(variable("more")),
        )),
    ]);
    assert_eq!(literal(ast::ValueVariants::Hash(h)), "{\na: 1, **more\n}");
}

#[test]
fn hash_element_pair() {
    assert_eq!(hash_element(&pair(integer(1), string("one"))), "1 => \"one\"");
}

#[test]
fn hash_element_with_label() {
    assert_eq!(hash_element(&labeled("name", local("value"))), "name: value");
}

#[test]
fn hash_expression_of_access() {
    let e = ast::HashExpression::Access(ast::AccessVariants::LocalVariable(variable("opts")));
    assert_eq!(hash_expression(&e), "**opts");
}

#[test]
fn hash_expression_of_literal() {
    let e = ast::HashExpression::Literal(Box::new(ast::HashLiteral::Plain(vec![labeled(
        "a",
        integer(1),
    )])));
    assert_eq!(hash_expression(&e), "**{\na: 1\n}");
}

#[test]
fn range_inclusive_endless() {
    let r = ast::RangeLiteral::Inclusive(ast::IntegerLiteral(1), None);
    assert_eq!(RangeVal(&r).emit(), "1..");
}

#[test]
fn range_exclusive_bounded() {
    let r = ast::RangeLiteral::Exclusive(ast::IntegerLiteral(1), Some(ast::IntegerLiteral(5)));
    assert_eq!(RangeVal(&r).emit(), "1...5");
}

#[test]
fn range_inclusive_bounded() {
    let r = ast::RangeLiteral::Inclusive(ast::IntegerLiteral(-3), Some(ast::IntegerLiteral(3)));
    assert_eq!(literal(ast::ValueVariants::Range(r)), "-3..3");
}

#[test]
fn range_exclusive_endless() {
    let r = ast::RangeLiteral::Exclusive(ast::IntegerLiteral(0), None);
    assert_eq!(RangeVal(&r).emit(), "0...");
}

#[test]
fn literal_through_expression() {
    assert_eq!(expression::Expression(&integer(12)).emit(), "12");
    assert_eq!(expression::Expression(&string("s")).emit(), "\"s\"");
}
