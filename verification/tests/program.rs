use ruby_emitter::ast;
use ruby_emitter::emitters::expression::{expression_list, render, Expression};
use ruby_emitter::emitters::Emitter;

fn variable(name: &str) -> ast::Variable {
    ast::Variable(name.to_string())
}

fn local(name: &str) -> ast::Expression {
    ast::Expression::Access(ast::AccessVariants::LocalVariable(variable(name)))
}

fn integer(value: i64) -> ast::Expression {
    ast::Expression::Literal(ast::ValueVariants::Integer(ast::IntegerLiteral(value)))
}

fn assign(name: &str, value: i64) -> ast::Expression {
    ast::Expression::Assignment(ast::AssignmentVariants::ToLocalVariable(
        variable(name),
        Box::new(integer(value)),
    ))
}

#[test]
fn empty_program_is_empty_text() {
    assert_eq!(render(&ast::Root { expressions: vec![] }), "");
}

#[test]
fn program_of_one_expression_has_no_newline() {
    assert_eq!(render(&ast::Root { expressions: vec![assign("x", 1)] }), "x = 1");
}

#[test]
fn program_sets_one_expression_per_line() {
    let root = ast::Root { expressions: vec![assign("x", 1), assign("y", 2), local("x")] };
    assert_eq!(render(&root), "x = 1\ny = 2\nx");
}

#[test]
fn program_keeps_expression_order() {
    let forward = ast::Root { expressions: vec![local("a"), local("b"), local("c")] };
    let permuted = ast::Root { expressions: vec![local("b"), local("c"), local("a")] };
    assert_eq!(render(&forward), "a\nb\nc");
    assert_eq!(render(&permuted), "b\nc\na");
}

#[test]
fn program_keeps_repeated_expressions() {
    let root = ast::Root { expressions: vec![local("a"), local("a"), local("a")] };
    assert_eq!(render(&root), "a\na\na");
}

#[test]
fn expression_list_writes_each_expression() {
    let list = expression_list(&vec![integer(1), local("x"), assign("y", 2)]);
    assert_eq!(list, vec!["1".to_string(), "x".to_string(), "y = 2".to_string()]);
}

#[test]
fn rendering_twice_gives_the_same_text() {
    let root = ast::Root { expressions: vec![assign("x", 1), local("x")] };
    assert_eq!(render(&root), render(&root));
}

#[test]
fn expression_emits_each_category() {
    assert_eq!(Expression(&integer(1)).emit(), "1");
    assert_eq!(Expression(&local("x")).emit(), "x");
    assert_eq!(Expression(&assign("x", 1)).emit(), "x = 1");
    assert_eq!(Expression(&ast::Expression::Return(None)).emit(), "return");
}

#[test]
fn a_small_program() {
    let method = ast::Expression::MethodDefinition(ast::MethodDefinitionVariants::Instance(
        ast::InstanceMethod {
            name: ast::VariableOrIndex::Variable(variable("double")),
            args: ast::FormalArgument(
                vec![ast::PlainArgumentVariants::Required(variable("n"))],
                None,
            ),
            expressions: vec![ast::Expression::Operation(
                ast::OperationVariants::BinaryExpression(ast::BinaryExpressionOperation {
                    operator: ast::BinaryOperator::Multiply,
                    lefthand: Box::new(local("n")),
                    righthand: Box::new(integer(2)),
                }),
            )],
        },
    ));
    let call = ast::Expression::SendMethod(ast::SendMethodVariants::Singleton(ast::SendMethod {
        name: variable("puts"),
        args: ast::SendMethodArgument(
            vec![ast::ArgumentVariants::Expression(ast::Expression::SendMethod(
                ast::SendMethodVariants::Singleton(ast::SendMethod {
                    name: variable("double"),
                    args: ast::SendMethodArgument(
                        vec![ast::ArgumentVariants::Expression(integer(21))],
                        None,
                    ),
                }),
            ))],
            None,
        ),
    }));
    let root = ast::Root { expressions: vec![method, call] };
    assert_eq!(render(&root), "def double(n)\nn * 2\nend\nputs(double(21))");
}
