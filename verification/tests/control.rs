use ruby_emitter::ast;
use ruby_emitter::emitters::control::{
    branching, case_matching, flip_flop, if_chain, loop_variants, return_value, ternary, unless,
};
use ruby_emitter::emitters::expression;
use ruby_emitter::emitters::Emitter;

fn variable(name: &str) -> ast::Variable {
    ast::Variable(name.to_string())
}

fn local_access(name: &str) -> ast::AccessVariants {
    ast::AccessVariants::LocalVariable(variable(name))
}

fn local(name: &str) -> ast::Expression {
    ast::Expression::Access(local_access(name))
}

fn boxed(name: &str) -> Box<ast::Expression> {
    Box::new(local(name))
}

fn integer(value: i64) -> ast::Expression {
    ast::Expression::Literal(ast::ValueVariants::Integer(ast::IntegerLiteral(value)))
}

fn emit(e: ast::Expression) -> String {
    expression::Expression(&e).emit()
}

fn without_else(condition: &str, iftrue: &str) -> ast::BranchingIfVariants {
    ast::BranchingIfVariants::WithoutElse(ast::BranchingIf {
        condition: boxed(condition),
        iftrue: boxed(iftrue),
    })
}

fn with_else(condition: &str, iftrue: &str, iffalse: &str) -> ast::BranchingIfVariants {
    ast::BranchingIfVariants::WithElse(ast::TernaryBranching {
        condition: boxed(condition),
        iftrue: boxed(iftrue),
        iffalse: boxed(iffalse),
    })
}

fn with_elsif(
    condition: &str,
    iftrue: &str,
    elsif: ast::BranchingIfVariants,
) -> ast::BranchingIfVariants {
    ast::BranchingIfVariants::WithElsif(ast::WithElsifBranching {
        condition: boxed(condition),
        iftrue: boxed(iftrue),
        elsif: Box::new(elsif),
    })
}

/// A chain with `depth` links: conditions c0, c1, ..., branches b0, b1, ...
fn chain(depth: usize, last: ast::BranchingIfVariants) -> ast::BranchingIfVariants {
    let mut out = last;
    for k in (0..depth).rev() {
        out = with_elsif(&format!("c{}", k), &format!("b{}", k), out);
    }
    out
}

fn count(text: &str, word: &str) -> usize {
    text.matches(word).count()
}

fn loop_struct(condition: &str, expressions: Vec<ast::InLoopExpression>) -> ast::LoopStruct {
    ast::LoopStruct { condition: boxed(condition), expressions }
}

#[test]
fn if_without_else() {
    let b = ast::BranchingVariants::If(without_else("ready", "go"));
    assert_eq!(branching(&b), "if ready\ngo\nend");
}

#[test]
fn if_with_else() {
    let b = ast::BranchingVariants::If(with_else("ready", "go", "wait"));
    assert_eq!(branching(&b), "if ready\ngo\nelse\nwait\nend");
}

#[test]
fn if_with_elsif() {
    let b = ast::BranchingVariants::If(with_elsif("a", "x", without_else("b", "y")));
    assert_eq!(branching(&b), "if a\nx\nelsif b\ny\nend");
}

#[test]
fn elsif_chain_of_depth_zero() {
    let plain = if_chain(&chain(0, without_else("last", "done")), "if");
    assert_eq!(plain, "if last\ndone\nend");
    assert_eq!(count(&plain, "elsif"), 0);
    assert_eq!(count(&plain, "else"), 0);
    assert_eq!(count(&plain, "end"), 1);
    let other = if_chain(&chain(0, with_else("last", "done", "other")), "if");
    assert_eq!(other, "if last\ndone\nelse\nother\nend");
    assert_eq!(count(&other, "elsif"), 0);
    assert_eq!(count(&other, "else\n"), 1);
}

#[test]
fn elsif_chain_of_depth_one() {
    let plain = if_chain(&chain(1, without_else("last", "done")), "if");
    assert_eq!(plain, "if c0\nb0\nelsif last\ndone\nend");
    assert_eq!(count(&plain, "elsif"), 1);
    assert_eq!(count(&plain, "end"), 1);
    let other = if_chain(&chain(1, with_else("last", "done", "other")), "if");
    assert_eq!(other, "if c0\nb0\nelsif last\ndone\nelse\nother\nend");
    assert_eq!(count(&other, "elsif"), 1);
    assert_eq!(count(&other, "\nelse\n"), 1);
    assert_eq!(count(&other, "end"), 1);
}

#[test]
fn elsif_chain_of_depth_ten() {
    let plain = if_chain(&chain(10, without_else("last", "done")), "if");
    assert_eq!(
        plain,
        "if c0\nb0\nelsif c1\nb1\nelsif c2\nb2\nelsif c3\nb3\nelsif c4\nb4\nelsif c5\nb5\n\
         elsif c6\nb6\nelsif c7\nb7\nelsif c8\nb8\nelsif c9\nb9\nelsif last\ndone\nend"
    );
    assert_eq!(count(&plain, "elsif"), 10);
    assert_eq!(count(&plain, "\nelse\n"), 0);
    assert_eq!(count(&plain, "end"), 1);
    let other = if_chain(&chain(10, with_else("last", "done", "other")), "if");
    assert_eq!(count(&other, "elsif"), 10);
    assert_eq!(count(&other, "\nelse\n"), 1);
    assert_eq!(count(&other, "end"), 1);
    assert!(other.ends_with("elsif last\ndone\nelse\nother\nend"));
    assert!(other.starts_with("if c0\nb0\nelsif c1\n"));
}

#[test]
fn long_elsif_chain_is_walked_without_nesting() {
    let depth = 5000;
    let text = if_chain(&chain(depth, without_else("last", "done")), "if");
    assert_eq!(count(&text, "elsif"), depth);
    assert!(text.ends_with("\nelsif last\ndone\nend"));
}

#[test]
fn unless_without_else() {
    let b = ast::BranchingUnlessVariants::WithoutElse(ast::BranchingUnless {
        condition: boxed("ready"),
        iffalse: boxed("wait"),
    });
    assert_eq!(unless(&b), "unless ready\nwait\nend");
}

#[test]
fn unless_with_else() {
    let b = ast::BranchingVariants::Unless(ast::BranchingUnlessVariants::WithElse(
        ast::TernaryBranching {
            condition: boxed("ready"),
            iftrue: boxed("go"),
            iffalse: boxed("wait"),
        },
    ));
    assert_eq!(emit(ast::Expression::Branching(b)), "unless ready\nwait\nelse\ngo\nend");
}

#[test]
fn ternary_branching() {
    let t = ast::TernaryBranching {
        condition: boxed("ready"),
        iftrue: Box::new(integer(1)),
        iffalse: Box::new(integer(0)),
    };
    assert_eq!(ternary(&t), "ready ? 1 : 0");
}

#[test]
fn ternary_through_expression() {
    let t = ast::TernaryBranching {
        condition: boxed("a"),
        iftrue: boxed("b"),
        iffalse: boxed("c"),
    };
    assert_eq!(emit(ast::Expression::TernaryBranching(t)), "a ? b : c");
}

#[test]
fn case_with_subject_and_default() {
    let c = ast::CaseMatching {
        condition: Some(boxed("value")),
        when: vec![
            ast::WhenDefinitionVariants {
                condition: ast::ArrayInterpolation::Expression(integer(1)),
                iftrue: boxed("one"),
            },
            ast::WhenDefinitionVariants {
                condition: ast::ArrayInterpolation::Splat(ast::ArrayExpression::Access(
                    local_access("others"),
                )),
                iftrue: boxed("many"),
            },
        ],
        default: Some(boxed("none")),
    };
    assert_eq!(case_matching(&c), "case value\nwhen 1\none\nwhen *others\nmany\nelse\nnone\nend");
}

#[test]
fn case_without_subject_and_default() {
    let c = ast::CaseMatching {
        condition: None,
        when: vec![ast::WhenDefinitionVariants {
            condition: ast::ArrayInterpolation::Expression(local("ready")),
            iftrue: boxed("go"),
        }],
        default: None,
    };
    assert_eq!(emit(ast::Expression::CaseMatching(c)), "case\nwhen ready\ngo\nend");
}

#[test]
fn case_keeps_arm_order() {
    let arm = |n: i64, body: &str| ast::WhenDefinitionVariants {
        condition: ast::ArrayInterpolation::Expression(integer(n)),
        iftrue: boxed(body),
    };
    let c = ast::CaseMatching {
        condition: Some(boxed("v")),
        when: vec![arm(3, "c"), arm(1, "a"), arm(2, "b")],
        default: None,
    };
    assert_eq!(case_matching(&c), "case v\nwhen 3\nc\nwhen 1\na\nwhen 2\nb\nend");
}

#[test]
fn case_without_arms() {
    let c = ast::CaseMatching { condition: Some(boxed("v")), when: vec![], default: None };
    assert_eq!(case_matching(&c), "case v\nend");
}

#[test]
fn while_loop() {
    let l = ast::LoopVariants::PreCondition(ast::LoopConditionVariants::While(loop_struct(
        "running",
        vec![ast::InLoopExpression::Plain(local("step"))],
    )));
    assert_eq!(loop_variants(&l), "while running\nstep\nend");
}

#[test]
fn until_loop() {
    let l = ast::LoopVariants::PreCondition(ast::LoopConditionVariants::Until(loop_struct(
        "finished",
        vec![ast::InLoopExpression::Plain(local("step"))],
    )));
    assert_eq!(loop_variants(&l), "until finished\nstep\nend");
}

#[test]
fn loop_with_empty_body() {
    let l = ast::LoopVariants::PreCondition(ast::LoopConditionVariants::While(loop_struct(
        "running",
        vec![],
    )));
    assert_eq!(loop_variants(&l), "while running\nend");
}

#[test]
fn post_condition_while_loop() {
    let l = ast::LoopVariants::PostCondition(ast::LoopConditionVariants::While(loop_struct(
        "running",
        vec![ast::InLoopExpression::Plain(local("step"))],
    )));
    assert_eq!(loop_variants(&l), "begin\nstep\nend while running");
}

#[test]
fn post_condition_until_loop() {
    let l = ast::LoopVariants::PostCondition(ast::LoopConditionVariants::Until(loop_struct(
        "finished",
        vec![ast::InLoopExpression::Plain(local("step"))],
    )));
    assert_eq!(emit(ast::Expression::Loop(l)), "begin\nstep\nend until finished");
}

#[test]
fn for_in_loop() {
    let l = ast::LoopVariants::ForIn(ast::ForLoop {
        assignee: ast::MultipleLeftHandSideElement::PlainAccess(local_access("item")),
        iterator: ast::ArrayExpression::Access(local_access("items")),
        expressions: vec![local("visit"), local("count")],
    });
    assert_eq!(loop_variants(&l), "for item in items\nvisit\ncount\nend");
}

#[test]
fn for_in_loop_over_literal_with_nested_target() {
    let l = ast::LoopVariants::ForIn(ast::ForLoop {
        assignee: ast::MultipleLeftHandSideElement::Nested(ast::MultipleLeftHandSide(vec![
            ast::MultipleLeftHandSideElement::PlainAccess(local_access("k")),
            ast::MultipleLeftHandSideElement::PlainAccess(local_access("v")),
        ])),
        iterator: ast::ArrayExpression::Literal(Box::new(ast::ArrayLiteral::Plain(vec![
            integer(1),
            integer(2),
        ]))),
        expressions: vec![],
    });
    assert_eq!(loop_variants(&l), "for (k, v) in [1, 2]\nend");
}

#[test]
fn in_loop_control_signals() {
    let l = ast::LoopVariants::PreCondition(ast::LoopConditionVariants::While(loop_struct(
        "running",
        vec![
            ast::InLoopExpression::Plain(local("step")),
            ast::InLoopExpression::Next(None),
            ast::InLoopExpression::Next(Some(integer(1))),
            ast::InLoopExpression::Redo,
            ast::InLoopExpression::Break(Some(local("result"))),
            ast::InLoopExpression::Break(None),
        ],
    )));
    assert_eq!(
        loop_variants(&l),
        "while running\nstep\nnext\nnext 1\nredo\nbreak result\nbreak\nend"
    );
}

#[test]
fn return_without_value() {
    assert_eq!(return_value(&None), "return");
    assert_eq!(emit(ast::Expression::Return(None)), "return");
}

#[test]
fn return_with_value() {
    assert_eq!(return_value(&Some(boxed("result"))), "return result");
    assert_eq!(emit(ast::Expression::Return(Some(Box::new(integer(0))))), "return 0");
}

#[test]
fn flip_flop_inclusive() {
    let f = ast::FlipFlopVariants::Inclusive(ast::FlipFlop {
        flip: boxed("start"),
        flop: boxed("stop"),
        expressions: vec![local("record")],
    });
    assert_eq!(flip_flop(&f), "if start..stop\nrecord\nend");
}

#[test]
fn flip_flop_exclusive() {
    let f = ast::FlipFlopVariants::Exclusive(ast::FlipFlop {
        flip: boxed("start"),
        flop: boxed("stop"),
        expressions: vec![local("record"), local("count")],
    });
    assert_eq!(emit(ast::Expression::FlipFlop(f)), "if start...stop\nrecord\ncount\nend");
}

#[test]
fn nested_conditionals() {
    let inner = ast::Expression::Branching(ast::BranchingVariants::If(without_else("b", "x")));
    let outer = ast::BranchingVariants::If(ast::BranchingIfVariants::WithoutElse(
        ast::BranchingIf { condition: boxed("a"), iftrue: Box::new(inner) },
    ));
    assert_eq!(branching(&outer), "if a\nif b\nx\nend\nend");
}
