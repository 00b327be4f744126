use ruby_emitter::ast;
use ruby_emitter::emitters::arguments::{
    decomposed_argument, formal_argument, plain_argument, splats_and_block, trailing,
};
use ruby_emitter::emitters::definitions::{
    aliasing, begin_block, class_definition, end_block, method_definition, method_undefinition,
    module_definition,
};
use ruby_emitter::emitters::expression;
use ruby_emitter::emitters::Emitter;

fn variable(name: &str) -> ast::Variable {
    ast::Variable(name.to_string())
}

fn local(name: &str) -> ast::Expression {
    ast::Expression::Access(ast::AccessVariants::LocalVariable(variable(name)))
}

fn integer(value: i64) -> ast::Expression {
    ast::Expression::Literal(ast::ValueVariants::Integer(ast::IntegerLiteral(value)))
}

fn constant(name: &str) -> ast::ConstantVariants {
    ast::ConstantVariants::Unscoped(ast::Constant(name.to_string()))
}

fn static_string(text: &str) -> ast::StringLiteral {
    ast::StringLiteral::Static(text.to_string())
}

fn emit(e: ast::Expression) -> String {
    expression::Expression(&e).emit()
}

fn no_arguments() -> ast::FormalArgument {
    ast::FormalArgument(vec![], None)
}

fn shape_text(shape: ast::SplatsAndBlockArgumentVariants<ast::Variable>) -> String {
    formal_argument(&ast::FormalArgument(vec![], Some(shape)))
}

fn all_shapes() -> Vec<ast::SplatsAndBlockArgumentVariants<ast::Variable>> {
    vec![
        ast::SplatsAndBlockArgumentVariants::Splat(variable("a")),
        ast::SplatsAndBlockArgumentVariants::UnnamedSplat,
        ast::SplatsAndBlockArgumentVariants::KeyWordSplat(variable("a")),
        ast::SplatsAndBlockArgumentVariants::UnnamedKeywordSplat,
        ast::SplatsAndBlockArgumentVariants::SplatThenKeywordSplat(variable("a"), variable("b")),
        ast::SplatsAndBlockArgumentVariants::Block(variable("a")),
        ast::SplatsAndBlockArgumentVariants::SplatThenBlock(variable("a"), variable("b")),
        ast::SplatsAndBlockArgumentVariants::SplatThenKeywordSplatThenBlock(
            variable("a"),
            variable("b"),
            variable("c"),
        ),
    ]
}

#[test]
fn class_with_parent() {
    let c = ast::ClassDefinitionVariants::Class(ast::ClassDefinition {
        name: constant("Dog"),
        parent: Some(constant("Animal")),
        expressions: vec![local("bark")],
    });
    assert_eq!(class_definition(&c), "class Dog < Animal\nbark\nend");
}

#[test]
fn class_without_parent() {
    let c = ast::ClassDefinitionVariants::Class(ast::ClassDefinition {
        name: ast::ConstantVariants::Scoped(vec![
            ast::Constant("Zoo".to_string()),
            ast::Constant("Dog".to_string()),
        ]),
        parent: None,
        expressions: vec![],
    });
    assert_eq!(emit(ast::Expression::ClassDefinition(c)), "class Zoo::Dog\nend");
}

#[test]
fn singleton_class() {
    let c = ast::ClassDefinitionVariants::Singleton(ast::SingletonClassDefinition {
        expressions: vec![local("a"), local("b")],
    });
    assert_eq!(class_definition(&c), "class << self\na\nb\nend");
}

#[test]
fn module_with_body() {
    let m = ast::ModuleDefinition { name: constant("Tools"), expressions: vec![local("setup")] };
    assert_eq!(module_definition(&m), "module Tools\nsetup\nend");
}

#[test]
fn module_through_expression() {
    let m = ast::ModuleDefinition { name: constant("Empty"), expressions: vec![] };
    assert_eq!(emit(ast::Expression::ModuleDefinition(m)), "module Empty\nend");
}

#[test]
fn body_keeps_statement_order() {
    let m = ast::ModuleDefinition {
        name: constant("M"),
        expressions: vec![local("c"), local("a"), local("b"), local("a")],
    };
    assert_eq!(module_definition(&m), "module M\nc\na\nb\na\nend");
}

#[test]
fn instance_method() {
    let m = ast::MethodDefinitionVariants::Instance(ast::InstanceMethod {
        name: ast::VariableOrIndex::Variable(variable("area")),
        args: ast::FormalArgument(
            vec![
                ast::PlainArgumentVariants::Required(variable("width")),
                ast::PlainArgumentVariants::Required(variable("height")),
            ],
            None,
        ),
        expressions: vec![local("width")],
    });
    assert_eq!(method_definition(&m), "def area(width, height)\nwidth\nend");
}

#[test]
fn index_method() {
    let m = ast::MethodDefinitionVariants::Instance(ast::InstanceMethod {
        name: ast::VariableOrIndex::Index,
        args: ast::FormalArgument(vec![ast::PlainArgumentVariants::Required(variable("i"))], None),
        expressions: vec![],
    });
    assert_eq!(method_definition(&m), "def [](i)\nend");
}

#[test]
fn singleton_method() {
    let m = ast::MethodDefinitionVariants::Singleton(ast::SingletonMethod {
        name: variable("build"),
        args: no_arguments(),
        expressions: vec![local("new")],
    });
    assert_eq!(emit(ast::Expression::MethodDefinition(m)), "def self.build()\nnew\nend");
}

#[test]
fn plain_argument_required() {
    assert_eq!(plain_argument(&ast::PlainArgumentVariants::Required(variable("a"))), "a");
}

#[test]
fn plain_argument_keyword_required() {
    assert_eq!(plain_argument(&ast::PlainArgumentVariants::KeywordRequired(variable("a"))), "a:");
}

#[test]
fn plain_argument_keyword_optional() {
    assert_eq!(
        plain_argument(&ast::PlainArgumentVariants::KeywordOptional(variable("a"), integer(1))),
        "a: 1"
    );
}

#[test]
fn plain_argument_optional() {
    assert_eq!(
        plain_argument(&ast::PlainArgumentVariants::Optional(variable("a"), integer(1))),
        "a = 1"
    );
}

#[test]
fn plain_argument_decomposition() {
    let d = ast::DecomposedArgument(
        vec![
            ast::DecomposedArgumentVariants::Plain(variable("a")),
            ast::DecomposedArgumentVariants::Nested(ast::DecomposedArgument(
                vec![
                    ast::DecomposedArgumentVariants::Plain(variable("b")),
                    ast::DecomposedArgumentVariants::Plain(variable("c")),
                ],
                None,
            )),
        ],
        Some(ast::SplatsAndBlockArgumentVariants::Splat(variable("rest"))),
    );
    assert_eq!(decomposed_argument(&d), "a, (b, c), *rest");
    assert_eq!(
        plain_argument(&ast::PlainArgumentVariants::Decomposition(d)),
        "(a, (b, c), *rest)"
    );
}

#[test]
fn formal_arguments_of_every_kind() {
    let f = ast::FormalArgument(
        vec![
            ast::PlainArgumentVariants::Required(variable("a")),
            ast::PlainArgumentVariants::Optional(variable("b"), integer(2)),
            ast::PlainArgumentVariants::Decomposition(ast::DecomposedArgument(
                vec![
                    ast::DecomposedArgumentVariants::Plain(variable("c")),
                    ast::DecomposedArgumentVariants::Plain(variable("d")),
                ],
                None,
            )),
            ast::PlainArgumentVariants::KeywordRequired(variable("e")),
            ast::PlainArgumentVariants::KeywordOptional(variable("f"), local("g")),
        ],
        Some(ast::SplatsAndBlockArgumentVariants::SplatThenKeywordSplatThenBlock(
            variable("rest"),
            variable("options"),
            variable("block"),
        )),
    );
    assert_eq!(formal_argument(&f), "a, b = 2, (c, d), e:, f: g, *rest, **options, &block");
}

#[test]
fn formal_arguments_keep_order() {
    let f = ast::FormalArgument(
        vec![
            ast::PlainArgumentVariants::KeywordRequired(variable("z")),
            ast::PlainArgumentVariants::Required(variable("y")),
            ast::PlainArgumentVariants::Required(variable("x")),
        ],
        None,
    );
    assert_eq!(formal_argument(&f), "z:, y, x");
}

#[test]
fn formal_arguments_empty() {
    assert_eq!(formal_argument(&no_arguments()), "");
}

#[test]
fn splat_shape_splat() {
    assert_eq!(shape_text(ast::SplatsAndBlockArgumentVariants::Splat(variable("rest"))), "*rest");
}

#[test]
fn splat_shape_unnamed_splat() {
    assert_eq!(shape_text(ast::SplatsAndBlockArgumentVariants::UnnamedSplat), "*");
}

#[test]
fn splat_shape_keyword_splat() {
    assert_eq!(
        shape_text(ast::SplatsAndBlockArgumentVariants::KeyWordSplat(variable("options"))),
        "**options"
    );
}

#[test]
fn splat_shape_unnamed_keyword_splat() {
    assert_eq!(shape_text(ast::SplatsAndBlockArgumentVariants::UnnamedKeywordSplat), "**");
}

#[test]
fn splat_shape_splat_then_keyword_splat() {
    assert_eq!(
        shape_text(ast::SplatsAndBlockArgumentVariants::SplatThenKeywordSplat(
            variable("rest"),
            variable("options")
        )),
        "*rest, **options"
    );
}

#[test]
fn splat_shape_block() {
    assert_eq!(shape_text(ast::SplatsAndBlockArgumentVariants::Block(variable("block"))), "&block");
}

#[test]
fn splat_shape_splat_then_block() {
    assert_eq!(
        shape_text(ast::SplatsAndBlockArgumentVariants::SplatThenBlock(
            variable("rest"),
            variable("block")
        )),
        "*rest, &block"
    );
}

#[test]
fn splat_shape_splat_then_keyword_splat_then_block() {
    assert_eq!(
        shape_text(ast::SplatsAndBlockArgumentVariants::SplatThenKeywordSplatThenBlock(
            variable("rest"),
            variable("options"),
            variable("block")
        )),
        "*rest, **options, &block"
    );
}

#[test]
fn splat_shapes_are_written_differently() {
    let texts: Vec<String> = all_shapes().into_iter().map(shape_text).collect();
    assert_eq!(texts, vec!["*a", "*", "**a", "**", "*a, **b", "&a", "*a, &b", "*a, **b, &c"]);
    for i in 0..texts.len() {
        for j in 0..texts.len() {
            if i != j {
                assert_ne!(texts[i], texts[j]);
            }
        }
    }
}

#[test]
fn splat_shapes_give_one_string_for_each_parameter() {
    let counts: Vec<usize> = all_shapes().iter().map(|s| splats_and_block(s).len()).collect();
    assert_eq!(counts, vec![1, 1, 1, 1, 2, 1, 2, 3]);
    let none: Option<ast::SplatsAndBlockArgumentVariants<ast::Variable>> = None;
    assert_eq!(trailing(&none).len(), 0);
    assert_eq!(
        trailing(&Some(ast::SplatsAndBlockArgumentVariants::SplatThenBlock(
            variable("a"),
            variable("b")
        ))),
        vec!["*a".to_string(), "&b".to_string()]
    );
}

#[test]
fn splat_shape_follows_plain_arguments() {
    let f = ast::FormalArgument(
        vec![ast::PlainArgumentVariants::Required(variable("first"))],
        Some(ast::SplatsAndBlockArgumentVariants::UnnamedSplat),
    );
    assert_eq!(formal_argument(&f), "first, *");
}

#[test]
fn undefine_methods() {
    let u = ast::MethodUndefinition(vec![static_string("a"), static_string("b c")]);
    assert_eq!(method_undefinition(&u), "undef :a, :\"b c\"");
    let one = ast::MethodUndefinition(vec![static_string("only")]);
    assert_eq!(emit(ast::Expression::MethodUndefinition(one)), "undef :only");
}

#[test]
fn alias_method() {
    let a = ast::AliasingVariants::Method(ast::AliasingMethod {
        oldname: static_string("size"),
        newname: static_string("length"),
    });
    assert_eq!(aliasing(&a), "alias :length :size");
}

#[test]
fn alias_global_variable() {
    let a = ast::AliasingVariants::GlobalVariable(ast::AliasingVariable {
        oldname: ast::GlobalVariable::Bang,
        newname: ast::GlobalVariable::Plain(variable("error")),
    });
    assert_eq!(emit(ast::Expression::Aliasing(a)), "alias $error $!");
}

#[test]
fn begin_block_as_expression() {
    assert_eq!(emit(ast::Expression::BEGINBlock(vec![local("setup")])), "BEGIN {\nsetup\n}");
}

#[test]
fn end_block_as_expression() {
    assert_eq!(
        emit(ast::Expression::ENDBlock(vec![local("report"), local("cleanup")])),
        "END {\nreport\ncleanup\n}"
    );
}

#[test]
fn begin_and_end_blocks_on_their_own() {
    assert_eq!(ast::BEGINBlock(vec![local("setup")]).emit(), "BEGIN {\nsetup\n}");
    assert_eq!(ast::ENDBlock(vec![]).emit(), "END {\n}");
    assert_eq!(begin_block(&vec![local("a"), local("b")]), "BEGIN {\na\nb\n}");
    assert_eq!(end_block(&vec![local("a")]), "END {\na\n}");
}

#[test]
fn class_holding_methods() {
    let method = ast::Expression::MethodDefinition(ast::MethodDefinitionVariants::Instance(
        ast::InstanceMethod {
            name: ast::VariableOrIndex::Variable(variable("name")),
            args: no_arguments(),
            expressions: vec![ast::Expression::Access(ast::AccessVariants::InstanceVariable(
                variable("name"),
            ))],
        },
    ));
    let c = ast::ClassDefinitionVariants::Class(ast::ClassDefinition {
        name: constant("User"),
        parent: None,
        expressions: vec![method],
    });
    assert_eq!(class_definition(&c), "class User\ndef name()\n@name\nend\nend");
}
