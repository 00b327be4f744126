use ruby_emitter::ast;
use ruby_emitter::emitters::depth::{expression_fits, expressions_fit, render_within, RenderError};
use ruby_emitter::emitters::expression::render;

fn variable(name: &str) -> ast::Variable {
    ast::Variable(name.to_string())
}

fn local(name: &str) -> ast::Expression {
    ast::Expression::Access(ast::AccessVariants::LocalVariable(variable(name)))
}

fn integer(value: i64) -> ast::Expression {
    ast::Expression::Literal(ast::ValueVariants::Integer(ast::IntegerLiteral(value)))
}

fn not(e: ast::Expression) -> ast::Expression {
    ast::Expression::Operation(ast::OperationVariants::Not(Box::new(e)))
}

fn array(elements: Vec<ast::Expression>) -> ast::Expression {
    ast::Expression::Literal(ast::ValueVariants::Array(ast::ArrayLiteral::Plain(elements)))
}

/// `x` under `levels` negations: `levels + 1` expressions deep.
fn negations(levels: usize) -> ast::Expression {
    let mut e = local("x");
    for _ in 0..levels {
        e = not(e);
    }
    e
}

fn elsif_chain(links: usize) -> ast::Expression {
    let mut chain = ast::BranchingIfVariants::WithoutElse(ast::BranchingIf {
        condition: Box::new(local("c")),
        iftrue: Box::new(local("b")),
    });
    for _ in 0..links {
        chain = ast::BranchingIfVariants::WithElsif(ast::WithElsifBranching {
            condition: Box::new(local("c")),
            iftrue: Box::new(local("b")),
            elsif: Box::new(chain),
        });
    }
    ast::Expression::Branching(ast::BranchingVariants::If(chain))
}

#[test]
fn nothing_fits_in_no_levels() {
    assert!(!expression_fits(&local("x"), 0));
    assert!(!expression_fits(&integer(1), 0));
}

#[test]
fn a_leaf_takes_one_level() {
    assert!(expression_fits(&local("x"), 1));
    assert!(expression_fits(&integer(1), 1));
    assert!(expression_fits(&ast::Expression::Return(None), 1));
}

#[test]
fn each_nested_expression_takes_one_more_level() {
    for levels in 0..6 {
        let e = negations(levels);
        assert!(!expression_fits(&e, levels));
        assert!(expression_fits(&e, levels + 1));
        assert!(expression_fits(&e, levels + 2));
    }
}

#[test]
fn an_array_literal_takes_a_level_of_its_own() {
    let flat = array(vec![integer(1), integer(2)]);
    assert!(!expression_fits(&flat, 2));
    assert!(expression_fits(&flat, 3));
    let empty = array(vec![]);
    assert!(!expression_fits(&empty, 1));
    assert!(expression_fits(&empty, 2));
    let nested = array(vec![array(vec![integer(1)])]);
    assert!(!expression_fits(&nested, 4));
    assert!(expression_fits(&nested, 5));
}

#[test]
fn a_splatted_array_nests_without_expressions() {
    // *[*[*x]] : three literals inside the one expression
    let inner = ast::ArrayLiteral::Splat(ast::ArrayExpression::Access(
        ast::AccessVariants::LocalVariable(variable("x")),
    ));
    let middle = ast::ArrayLiteral::Splat(ast::ArrayExpression::Literal(Box::new(inner)));
    let outer = ast::ArrayLiteral::Splat(ast::ArrayExpression::Literal(Box::new(middle)));
    let e = ast::Expression::Literal(ast::ValueVariants::Array(outer));
    assert!(!expression_fits(&e, 3));
    assert!(expression_fits(&e, 4));
}

#[test]
fn a_hash_literal_takes_a_level_of_its_own() {
    let h = ast::Expression::Literal(ast::ValueVariants::Hash(ast::HashLiteral::Plain(vec![
        ast::HashElement::Pair(ast::PairElement { key: integer(1), value: not(local("x")) }),
    ])));
    assert!(!expression_fits(&h, 3));
    assert!(expression_fits(&h, 4));
}

#[test]
fn the_deepest_part_decides() {
    let e = array(vec![integer(1), negations(3), integer(2)]);
    assert!(!expression_fits(&e, 5));
    assert!(expression_fits(&e, 6));
}

#[test]
fn nested_targets_take_levels() {
    let target = |name: &str| {
        ast::MultipleLeftHandSideElement::PlainAccess(ast::AccessVariants::LocalVariable(
            variable(name),
        ))
    };
    let lhs = ast::MultipleLeftHandSide(vec![
        target("a"),
        ast::MultipleLeftHandSideElement::Nested(ast::MultipleLeftHandSide(vec![target("b")])),
    ]);
    let e = ast::Expression::Assignment(ast::AssignmentVariants::MultipleAssignment(
        lhs,
        ast::MultipleRightHandSide(Box::new(ast::ArrayInterpolation::Expression(local("v")))),
    ));
    // the assignment, the list of targets, the nested list
    assert!(!expression_fits(&e, 2));
    assert!(expression_fits(&e, 3));
}

#[test]
fn nested_destructuring_takes_levels() {
    let d = ast::DecomposedArgument(
        vec![ast::DecomposedArgumentVariants::Nested(ast::DecomposedArgument(
            vec![ast::DecomposedArgumentVariants::Plain(variable("a"))],
            None,
        ))],
        None,
    );
    let e = ast::Expression::MethodDefinition(ast::MethodDefinitionVariants::Instance(
        ast::InstanceMethod {
            name: ast::VariableOrIndex::Variable(variable("m")),
            args: ast::FormalArgument(vec![ast::PlainArgumentVariants::Decomposition(d)], None),
            expressions: vec![],
        },
    ));
    assert!(!expression_fits(&e, 2));
    assert!(expression_fits(&e, 3));
}

#[test]
fn an_elsif_chain_stays_on_one_level() {
    for links in [0, 1, 10, 1000] {
        let e = elsif_chain(links);
        assert!(!expression_fits(&e, 1));
        assert!(expression_fits(&e, 2));
    }
}

#[test]
fn interpolated_segments_are_counted() {
    let s = ast::Expression::Literal(ast::ValueVariants::String(
        ast::StringLiteral::WithInterpolation(vec![not(local("x"))]),
    ));
    assert!(!expression_fits(&s, 2));
    assert!(expression_fits(&s, 3));
}

#[test]
fn expressions_fit_asks_each_expression() {
    assert!(expressions_fit(&vec![], 0));
    assert!(expressions_fit(&vec![local("a"), negations(2)], 3));
    assert!(!expressions_fit(&vec![local("a"), negations(2)], 2));
    assert!(!expressions_fit(&vec![negations(2), local("a")], 2));
}

#[test]
fn render_within_writes_what_render_writes() {
    let root = ast::Root { expressions: vec![local("a"), negations(2), array(vec![integer(1)])] };
    assert_eq!(render_within(&root, 3), Ok("a\n!!x\n[1]".to_string()));
    assert_eq!(render_within(&root, 100), Ok(render(&root)));
}

#[test]
fn render_within_names_the_first_expression_that_is_too_deep() {
    let root = ast::Root {
        expressions: vec![local("a"), negations(2), negations(5), negations(9)],
    };
    assert_eq!(render_within(&root, 5), Err(RenderError::TooDeep { expression: 2 }));
    assert_eq!(render_within(&root, 2), Err(RenderError::TooDeep { expression: 1 }));
    assert_eq!(render_within(&root, 0), Err(RenderError::TooDeep { expression: 0 }));
    assert!(render_within(&root, 10).is_ok());
}

#[test]
fn render_within_of_an_empty_program() {
    assert_eq!(render_within(&ast::Root { expressions: vec![] }, 0), Ok(String::new()));
}

#[test]
fn a_deep_tree_is_refused_without_descending_into_it() {
    // deeper than the limit by far: the check stops at the limit
    let e = negations(3000);
    assert!(!expression_fits(&e, 50));
    let root = ast::Root { expressions: vec![e] };
    assert_eq!(render_within(&root, 50), Err(RenderError::TooDeep { expression: 0 }));
}
