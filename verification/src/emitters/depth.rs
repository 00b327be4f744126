//! The nesting depth of a tree, and writing a program out within a limit.
//!
//! The emitters call themselves through what a node holds, so writing out a
//! tree takes a depth of calls that grows with the depth of the tree. The
//! depth is counted in levels: an expression, an array or hash literal, a
//! list of targets of a multiple assignment and a destructuring parameter
//! are each one level deeper than what holds them. A chain of `elsif` stays
//! on the level of its `if`, however long it is. Checking a tree against a
//! limit never descends further than the limit.

use vstd::prelude::*;
use super::expression::{render, root_text};
use crate::ast;

verus! {

/// Whether an expression nests no deeper than `limit` levels: the
/// expression itself takes one, and what it holds has to fit in the rest.
pub open spec fn expression_within(e: ast::Expression, limit: nat) -> bool
    decreases e, 0nat,
{
    let rest = (limit - 1) as nat;
    limit > 0 && match e {
        ast::Expression::Literal(l) => literal_within(l, rest),
        ast::Expression::Access(_) => true,
        ast::Expression::Assignment(a) => assignment_within(a, rest),
        ast::Expression::ClassDefinition(ast::ClassDefinitionVariants::Class(c)) => {
            expressions_within(c.expressions@, rest)
        },
        ast::Expression::ClassDefinition(ast::ClassDefinitionVariants::Singleton(c)) => {
            expressions_within(c.expressions@, rest)
        },
        ast::Expression::ModuleDefinition(m) => expressions_within(m.expressions@, rest),
        ast::Expression::MethodDefinition(ast::MethodDefinitionVariants::Instance(m)) => {
            plain_arguments_within(m.args.0@, rest) && expressions_within(m.expressions@, rest)
        },
        ast::Expression::MethodDefinition(ast::MethodDefinitionVariants::Singleton(m)) => {
            plain_arguments_within(m.args.0@, rest) && expressions_within(m.expressions@, rest)
        },
        ast::Expression::MethodUndefinition(u) => strings_within(u.0@, rest),
        ast::Expression::Aliasing(ast::AliasingVariants::Method(m)) => {
            string_within(m.oldname, rest) && string_within(m.newname, rest)
        },
        ast::Expression::Aliasing(ast::AliasingVariants::GlobalVariable(_)) => true,
        ast::Expression::SendMethod(ast::SendMethodVariants::Singleton(m)) => send_within(
            m,
            rest,
        ),
        ast::Expression::SendMethod(ast::SendMethodVariants::WithReceiver(receiver, m)) => {
            expression_within(*receiver, rest) && send_within(m, rest)
        },
        ast::Expression::Operation(o) => operation_within(o, rest),
        ast::Expression::LogicalOperation(l) => logical_operation_within(l, rest),
        ast::Expression::Branching(ast::BranchingVariants::If(b)) => if_chain_within(b, rest),
        ast::Expression::Branching(ast::BranchingVariants::Unless(b)) => unless_within(b, rest),
        ast::Expression::TernaryBranching(t) => ternary_within(t, rest),
        ast::Expression::CaseMatching(c) => {
            &&& optional_within(c.condition, rest)
            &&& whens_within(c.when@, rest)
            &&& optional_within(c.default, rest)
        },
        ast::Expression::Loop(l) => loop_within(l, rest),
        ast::Expression::Return(value) => optional_within(value, rest),
        ast::Expression::ExceptionHandling(x) => exception_handling_within(x, rest),
        ast::Expression::BEGINBlock(body) => expressions_within(body@, rest),
        ast::Expression::ENDBlock(body) => expressions_within(body@, rest),
        ast::Expression::FlipFlop(ast::FlipFlopVariants::Inclusive(f)) => flip_flop_within(
            f,
            rest,
        ),
        ast::Expression::FlipFlop(ast::FlipFlopVariants::Exclusive(f)) => flip_flop_within(
            f,
            rest,
        ),
    }
}

/// Whether each expression of a sequence nests no deeper than `limit`
/// levels.
pub open spec fn expressions_within(v: Seq<ast::Expression>, limit: nat) -> bool
    decreases v, 0nat,
{
    forall|i: int| 0 <= i < v.len() ==> expression_within(#[trigger] v[i], limit)
}

/// Whether an expression that may be absent nests no deeper than `limit`
/// levels.
pub open spec fn optional_within(e: Option<Box<ast::Expression>>, limit: nat) -> bool
    decreases e, 0nat,
{
    match e {
        Some(held) => expression_within(*held, limit),
        None => true,
    }
}

/// Whether what a literal holds nests no deeper than `limit` levels.
pub open spec fn literal_within(l: ast::ValueVariants, limit: nat) -> bool
    decreases l, 0nat,
{
    match l {
        ast::ValueVariants::String(s) => string_within(s, limit),
        ast::ValueVariants::Symbol(s) => string_within(s, limit),
        ast::ValueVariants::ExecuteString(s) => string_within(s, limit),
        ast::ValueVariants::HereDocument(ast::HereDocumentVariants::Plain(h)) => string_within(
            h.document,
            limit,
        ),
        ast::ValueVariants::HereDocument(ast::HereDocumentVariants::Dash(h)) => string_within(
            h.document,
            limit,
        ),
        ast::ValueVariants::HereDocument(ast::HereDocumentVariants::Squiggly(h)) => string_within(
            h.document,
            limit,
        ),
        ast::ValueVariants::RegularExpression(r) => string_within(r.expression, limit),
        ast::ValueVariants::Array(a) => array_within(a, limit),
        ast::ValueVariants::Hash(h) => hash_within(h, limit),
        _ => true,
    }
}

/// Whether the segments of a string nest no deeper than `limit` levels.
pub open spec fn string_within(s: ast::StringLiteral, limit: nat) -> bool
    decreases s, 0nat,
{
    match s {
        ast::StringLiteral::Static(_) => true,
        ast::StringLiteral::WithInterpolation(v) => expressions_within(v@, limit),
    }
}

/// Whether each string of a sequence nests no deeper than `limit` levels.
pub open spec fn strings_within(v: Seq<ast::StringLiteral>, limit: nat) -> bool
    decreases v, 0nat,
{
    forall|i: int| 0 <= i < v.len() ==> string_within(#[trigger] v[i], limit)
}

/// Whether an array literal nests no deeper than `limit` levels: the
/// literal itself takes one.
pub open spec fn array_within(a: ast::ArrayLiteral, limit: nat) -> bool
    decreases a, 0nat,
{
    let rest = (limit - 1) as nat;
    limit > 0 && match a {
        ast::ArrayLiteral::Plain(v) => expressions_within(v@, rest),
        ast::ArrayLiteral::Splat(x) => array_expression_within(x, rest),
        ast::ArrayLiteral::WithInterpolation(v) => array_interpolations_within(v@, rest),
    }
}

/// Whether an array expression nests no deeper than `limit` levels.
pub open spec fn array_expression_within(x: ast::ArrayExpression, limit: nat) -> bool
    decreases x, 0nat,
{
    match x {
        ast::ArrayExpression::Access(_) => true,
        ast::ArrayExpression::Literal(a) => array_within(*a, limit),
    }
}

/// Whether an element of an interpolated array nests no deeper than `limit`
/// levels.
pub open spec fn array_interpolation_within(x: ast::ArrayInterpolation, limit: nat) -> bool
    decreases x, 0nat,
{
    match x {
        ast::ArrayInterpolation::Expression(e) => expression_within(e, limit),
        ast::ArrayInterpolation::Splat(a) => array_expression_within(a, limit),
    }
}

/// Whether each element of an interpolated array nests no deeper than
/// `limit` levels.
pub open spec fn array_interpolations_within(v: Seq<ast::ArrayInterpolation>, limit: nat) -> bool
    decreases v, 0nat,
{
    forall|i: int| 0 <= i < v.len() ==> array_interpolation_within(#[trigger] v[i], limit)
}

/// Whether a hash literal nests no deeper than `limit` levels: the literal
/// itself takes one.
pub open spec fn hash_within(h: ast::HashLiteral, limit: nat) -> bool
    decreases h, 0nat,
{
    let rest = (limit - 1) as nat;
    limit > 0 && match h {
        ast::HashLiteral::Plain(v) => hash_elements_within(v@, rest),
        ast::HashLiteral::Splat(x) => hash_expression_within(x, rest),
        ast::HashLiteral::WithInterpolation(v) => hash_interpolations_within(v@, rest),
    }
}

/// Whether an element of a hash nests no deeper than `limit` levels.
pub open spec fn hash_element_within(e: ast::HashElement, limit: nat) -> bool
    decreases e, 0nat,
{
    match e {
        ast::HashElement::Pair(p) => expression_within(p.key, limit) && expression_within(
            p.value,
            limit,
        ),
        ast::HashElement::WithLabel(l) => string_within(l.key, limit) && expression_within(
            l.value,
            limit,
        ),
    }
}

/// Whether each element of a hash nests no deeper than `limit` levels.
pub open spec fn hash_elements_within(v: Seq<ast::HashElement>, limit: nat) -> bool
    decreases v, 0nat,
{
    forall|i: int| 0 <= i < v.len() ==> hash_element_within(#[trigger] v[i], limit)
}

/// Whether a hash expression nests no deeper than `limit` levels.
pub open spec fn hash_expression_within(x: ast::HashExpression, limit: nat) -> bool
    decreases x, 0nat,
{
    match x {
        ast::HashExpression::Access(_) => true,
        ast::HashExpression::Literal(h) => hash_within(*h, limit),
    }
}

/// Whether an element of an interpolated hash nests no deeper than `limit`
/// levels.
pub open spec fn hash_interpolation_within(x: ast::HashInterpolation, limit: nat) -> bool
    decreases x, 0nat,
{
    match x {
        ast::HashInterpolation::Element(e) => hash_element_within(e, limit),
        ast::HashInterpolation::Splat(h) => hash_expression_within(h, limit),
    }
}

/// Whether each element of an interpolated hash nests no deeper than
/// `limit` levels.
pub open spec fn hash_interpolations_within(v: Seq<ast::HashInterpolation>, limit: nat) -> bool
    decreases v, 0nat,
{
    forall|i: int| 0 <= i < v.len() ==> hash_interpolation_within(#[trigger] v[i], limit)
}

/// Whether a list of targets nests no deeper than `limit` levels: the list
/// itself takes one.
pub open spec fn left_hand_side_within(m: ast::MultipleLeftHandSide, limit: nat) -> bool
    decreases m,
{
    limit > 0 && left_hand_side_elements_within(m.0@, (limit - 1) as nat)
}

/// Whether a target nests no deeper than `limit` levels.
pub open spec fn left_hand_side_element_within(
    e: ast::MultipleLeftHandSideElement,
    limit: nat,
) -> bool
    decreases e,
{
    match e {
        ast::MultipleLeftHandSideElement::Nested(m) => left_hand_side_within(m, limit),
        _ => true,
    }
}

/// Whether each target of a sequence nests no deeper than `limit` levels.
pub open spec fn left_hand_side_elements_within(
    v: Seq<ast::MultipleLeftHandSideElement>,
    limit: nat,
) -> bool
    decreases v,
{
    forall|i: int| 0 <= i < v.len() ==> left_hand_side_element_within(#[trigger] v[i], limit)
}

/// Whether a destructuring parameter nests no deeper than `limit` levels:
/// the parameter itself takes one.
pub open spec fn decomposed_within(d: ast::DecomposedArgument, limit: nat) -> bool
    decreases d,
{
    limit > 0 && decomposed_variants_within(d.0@, (limit - 1) as nat)
}

/// Whether each name of a destructuring parameter nests no deeper than
/// `limit` levels.
pub open spec fn decomposed_variants_within(
    v: Seq<ast::DecomposedArgumentVariants>,
    limit: nat,
) -> bool
    decreases v,
{
    forall|i: int|
        0 <= i < v.len() ==> match #[trigger] v[i] {
            ast::DecomposedArgumentVariants::Plain(_) => true,
            ast::DecomposedArgumentVariants::Nested(d) => decomposed_within(d, limit),
        }
}

/// Whether a parameter nests no deeper than `limit` levels.
pub open spec fn plain_argument_within(p: ast::PlainArgumentVariants, limit: nat) -> bool
    decreases p, 0nat,
{
    match p {
        ast::PlainArgumentVariants::KeywordOptional(_, default) => expression_within(
            default,
            limit,
        ),
        ast::PlainArgumentVariants::Optional(_, default) => expression_within(default, limit),
        ast::PlainArgumentVariants::Decomposition(d) => decomposed_within(d, limit),
        _ => true,
    }
}

/// Whether each parameter of a sequence nests no deeper than `limit`
/// levels.
pub open spec fn plain_arguments_within(v: Seq<ast::PlainArgumentVariants>, limit: nat) -> bool
    decreases v, 0nat,
{
    forall|i: int| 0 <= i < v.len() ==> plain_argument_within(#[trigger] v[i], limit)
}

/// The targets that the trailing parameters of a block hold, in order.
pub open spec fn trailing_targets(
    s: Option<ast::SplatsAndBlockArgumentVariants<ast::MultipleLeftHandSideElement>>,
) -> Seq<ast::MultipleLeftHandSideElement> {
    match s {
        Some(ast::SplatsAndBlockArgumentVariants::Splat(a)) => seq![a],
        Some(ast::SplatsAndBlockArgumentVariants::KeyWordSplat(a)) => seq![a],
        Some(ast::SplatsAndBlockArgumentVariants::Block(a)) => seq![a],
        Some(ast::SplatsAndBlockArgumentVariants::SplatThenKeywordSplat(a, b)) => seq![a, b],
        Some(ast::SplatsAndBlockArgumentVariants::SplatThenBlock(a, b)) => seq![a, b],
        Some(ast::SplatsAndBlockArgumentVariants::SplatThenKeywordSplatThenBlock(a, b, c)) => seq![
            a,
            b,
            c,
        ],
        _ => Seq::empty(),
    }
}

/// Whether the parameters of a block or proc nest no deeper than `limit`
/// levels.
pub open spec fn proc_argument_within(p: ast::ProcArgument, limit: nat) -> bool
    decreases p, 0nat,
{
    &&& forall|i: int|
        0 <= i < p.0@.len() ==> match #[trigger] p.0@[i] {
            ast::ProcArgumentVariants::PlainArgument(plain) => plain_argument_within(plain, limit),
            ast::ProcArgumentVariants::MultipleLeftHandSide(target) => {
                left_hand_side_element_within(target, limit)
            },
        }
    &&& left_hand_side_elements_within(trailing_targets(p.1), limit)
}

/// Whether a proc nests no deeper than `limit` levels.
pub open spec fn proc_expression_within(p: ast::ProcExpressionVariants, limit: nat) -> bool
    decreases p, 0nat,
{
    match p {
        ast::ProcExpressionVariants::Proc(params, body) => proc_argument_within(params, limit)
            && expressions_within(body@, limit),
        ast::ProcExpressionVariants::Lambda(params, body) => proc_argument_within(params, limit)
            && expressions_within(body@, limit),
        ast::ProcExpressionVariants::Stubby(params, body) => proc_argument_within(params, limit)
            && expressions_within(body@, limit),
    }
}

/// Whether the block of a call nests no deeper than `limit` levels.
pub open spec fn block_within(b: Option<ast::BlockArgument>, limit: nat) -> bool
    decreases b, 0nat,
{
    match b {
        Some(ast::BlockArgument::Pass(ast::ProcAsArgumentVariants::Expression(p))) => {
            proc_expression_within(p, limit)
        },
        Some(ast::BlockArgument::BeginBlock(params, body)) => proc_argument_within(params, limit)
            && expressions_within(body@, limit),
        _ => true,
    }
}

/// Whether an argument of a call nests no deeper than `limit` levels.
pub open spec fn argument_within(a: ast::ArgumentVariants, limit: nat) -> bool
    decreases a, 0nat,
{
    match a {
        ast::ArgumentVariants::Expression(e) => expression_within(e, limit),
        ast::ArgumentVariants::Splat(x) => array_expression_within(x, limit),
        ast::ArgumentVariants::Keyword(e) => hash_element_within(e, limit),
        ast::ArgumentVariants::KeywordSplat(x) => hash_expression_within(x, limit),
    }
}

/// Whether a call without its receiver nests no deeper than `limit` levels.
pub open spec fn send_within(m: ast::SendMethod, limit: nat) -> bool
    decreases m, 0nat,
{
    &&& forall|i: int| 0 <= i < m.args.0@.len() ==> argument_within(#[trigger] m.args.0@[i], limit)
    &&& block_within(m.args.1, limit)
}

/// Whether what an assignment holds nests no deeper than `limit` levels.
pub open spec fn assignment_within(a: ast::AssignmentVariants, limit: nat) -> bool
    decreases a, 0nat,
{
    match a {
        ast::AssignmentVariants::ToLocalVariable(_, e) => expression_within(*e, limit),
        ast::AssignmentVariants::ToInstanceVariable(_, e) => expression_within(*e, limit),
        ast::AssignmentVariants::ToClassVariable(_, e) => expression_within(*e, limit),
        ast::AssignmentVariants::ToGlobalVariable(_, e) => expression_within(*e, limit),
        ast::AssignmentVariants::ToConstant(_, e) => expression_within(*e, limit),
        ast::AssignmentVariants::ToAttribute(ast::SendMethodAssignmentVariants::Plain(p)) => {
            expression_within(*p.receiver, limit) && send_within(p.method, limit)
        },
        ast::AssignmentVariants::ToAttribute(ast::SendMethodAssignmentVariants::WithIndex(p)) => {
            &&& expression_within(*p.receiver, limit)
            &&& expression_within(*p.index, limit)
            &&& send_within(p.method, limit)
        },
        ast::AssignmentVariants::MultipleAssignment(lhs, rhs) => left_hand_side_within(lhs, limit)
            && array_interpolation_within(*rhs.0, limit),
        ast::AssignmentVariants::BinaryOperator(_, _, e) => expression_within(*e, limit),
        ast::AssignmentVariants::LogicalOperator(_, _, e) => expression_within(*e, limit),
    }
}

/// Whether what an operation holds nests no deeper than `limit` levels.
pub open spec fn operation_within(o: ast::OperationVariants, limit: nat) -> bool
    decreases o, 0nat,
{
    match o {
        ast::OperationVariants::Paren(v) => expressions_within(v@, limit),
        ast::OperationVariants::BinaryExpression(b) => expression_within(*b.lefthand, limit)
            && expression_within(*b.righthand, limit),
        ast::OperationVariants::Not(e) => expression_within(*e, limit),
    }
}

/// Whether what a logical operation holds nests no deeper than `limit`
/// levels.
pub open spec fn logical_operation_within(l: ast::LogicalOperationVariants, limit: nat) -> bool
    decreases l, 0nat,
{
    match l {
        ast::LogicalOperationVariants::Equal(a, b) => expression_within(*a, limit)
            && expression_within(*b, limit),
        ast::LogicalOperationVariants::And(a, b) => expression_within(*a, limit)
            && expression_within(*b, limit),
        ast::LogicalOperationVariants::LowerPrecedenceAnd(a, b) => expression_within(*a, limit)
            && expression_within(*b, limit),
        ast::LogicalOperationVariants::Or(a, b) => expression_within(*a, limit)
            && expression_within(*b, limit),
        ast::LogicalOperationVariants::LowerPrecedenceOr(a, b) => expression_within(*a, limit)
            && expression_within(*b, limit),
        ast::LogicalOperationVariants::DoubleAmpersands(a, b) => expression_within(*a, limit)
            && expression_within(*b, limit),
        ast::LogicalOperationVariants::DoublePipes(a, b) => expression_within(*a, limit)
            && expression_within(*b, limit),
        ast::LogicalOperationVariants::Not(e) => expression_within(*e, limit),
        ast::LogicalOperationVariants::Match(m) => string_within(m.regex.expression, limit)
            && expression_within(*m.expression, limit),
    }
}

/// Whether the three parts of a conditional with both branches nest no
/// deeper than `limit` levels.
pub open spec fn ternary_within(t: ast::TernaryBranching, limit: nat) -> bool
    decreases t, 0nat,
{
    &&& expression_within(*t.condition, limit)
    &&& expression_within(*t.iftrue, limit)
    &&& expression_within(*t.iffalse, limit)
}

/// Whether the conditions and branches of a chain nest no deeper than
/// `limit` levels. An `elsif` is on the level of the conditional it
/// continues.
pub open spec fn if_chain_within(b: ast::BranchingIfVariants, limit: nat) -> bool
    decreases b, 0nat,
{
    match b {
        ast::BranchingIfVariants::WithoutElse(branch) => expression_within(
            *branch.condition,
            limit,
        ) && expression_within(*branch.iftrue, limit),
        ast::BranchingIfVariants::WithElse(branch) => ternary_within(branch, limit),
        ast::BranchingIfVariants::WithElsif(branch) => {
            &&& expression_within(*branch.condition, limit)
            &&& expression_within(*branch.iftrue, limit)
            &&& if_chain_within(*branch.elsif, limit)
        },
    }
}

/// Whether what an `unless` holds nests no deeper than `limit` levels.
pub open spec fn unless_within(b: ast::BranchingUnlessVariants, limit: nat) -> bool
    decreases b, 0nat,
{
    match b {
        ast::BranchingUnlessVariants::WithoutElse(branch) => expression_within(
            *branch.condition,
            limit,
        ) && expression_within(*branch.iffalse, limit),
        ast::BranchingUnlessVariants::WithElse(branch) => ternary_within(branch, limit),
    }
}

/// Whether each arm of a `case` nests no deeper than `limit` levels.
pub open spec fn whens_within(v: Seq<ast::WhenDefinitionVariants>, limit: nat) -> bool
    decreases v, 0nat,
{
    forall|i: int|
        0 <= i < v.len() ==> array_interpolation_within((#[trigger] v[i]).condition, limit)
            && expression_within(*v[i].iftrue, limit)
}

/// Whether a statement of a loop nests no deeper than `limit` levels.
pub open spec fn in_loop_within(e: ast::InLoopExpression, limit: nat) -> bool
    decreases e, 0nat,
{
    match e {
        ast::InLoopExpression::Plain(plain) => expression_within(plain, limit),
        ast::InLoopExpression::Break(Some(value)) => expression_within(value, limit),
        ast::InLoopExpression::Next(Some(value)) => expression_within(value, limit),
        _ => true,
    }
}

/// Whether the condition and the body of a conditional loop nest no deeper
/// than `limit` levels.
pub open spec fn loop_struct_within(s: ast::LoopStruct, limit: nat) -> bool
    decreases s, 0nat,
{
    &&& expression_within(*s.condition, limit)
    &&& forall|i: int|
        0 <= i < s.expressions@.len() ==> in_loop_within(#[trigger] s.expressions@[i], limit)
}

/// Whether what a loop holds nests no deeper than `limit` levels.
pub open spec fn loop_within(l: ast::LoopVariants, limit: nat) -> bool
    decreases l, 0nat,
{
    match l {
        ast::LoopVariants::PreCondition(ast::LoopConditionVariants::While(s)) => {
            loop_struct_within(s, limit)
        },
        ast::LoopVariants::PreCondition(ast::LoopConditionVariants::Until(s)) => {
            loop_struct_within(s, limit)
        },
        ast::LoopVariants::PostCondition(ast::LoopConditionVariants::While(s)) => {
            loop_struct_within(s, limit)
        },
        ast::LoopVariants::PostCondition(ast::LoopConditionVariants::Until(s)) => {
            loop_struct_within(s, limit)
        },
        ast::LoopVariants::ForIn(f) => {
            &&& left_hand_side_element_within(f.assignee, limit)
            &&& array_expression_within(f.iterator, limit)
            &&& expressions_within(f.expressions@, limit)
        },
    }
}

/// Whether what a flip-flop holds nests no deeper than `limit` levels.
pub open spec fn flip_flop_within(f: ast::FlipFlop, limit: nat) -> bool
    decreases f, 0nat,
{
    &&& expression_within(*f.flip, limit)
    &&& expression_within(*f.flop, limit)
    &&& expressions_within(f.expressions@, limit)
}

/// Whether what handles the exceptions of a body nests no deeper than
/// `limit` levels.
pub open spec fn rescue_body_within(b: ast::RescueBodyVariants, limit: nat) -> bool
    decreases b, 0nat,
{
    match b {
        ast::RescueBodyVariants::Rescue(clauses, tail) => {
            &&& forall|i: int|
                0 <= i < clauses@.len() ==> expressions_within(
                    (#[trigger] clauses@[i]).expressions.0@,
                    limit,
                )
            &&& match tail {
                Some(ast::RescueEnsureOrElse::Ensure(body)) => expressions_within(body@, limit),
                Some(ast::RescueEnsureOrElse::Else(body)) => expressions_within(body@, limit),
                None => true,
            }
        },
        ast::RescueBodyVariants::Ensure(body) => expressions_within(body@, limit),
    }
}

/// Whether what an exception handling holds nests no deeper than `limit`
/// levels.
pub open spec fn exception_handling_within(x: ast::ExceptionHandlingVariants, limit: nat) -> bool
    decreases x, 0nat,
{
    match x {
        ast::ExceptionHandlingVariants::InlineRescue(body, handler) => expression_within(
            *body,
            limit,
        ) && expression_within(*handler, limit),
        ast::ExceptionHandlingVariants::DefRescue(body, handlers) => expressions_within(
            body@,
            limit,
        ) && rescue_body_within(handlers, limit),
        ast::ExceptionHandlingVariants::BeginRescue(body, handlers) => expressions_within(
            body@,
            limit,
        ) && rescue_body_within(handlers, limit),
    }
}

/// Whether `e` nests no deeper than `limit` levels.
pub fn expression_fits(e: &ast::Expression, limit: usize) -> (r: bool)
    ensures
        r == expression_within(*e, limit as nat),
    decreases e, 0nat,
{
    if limit == 0 {
        return false;
    }
    let rest = limit - 1;
    match e {
        ast::Expression::Literal(l) => literal_fits(l, rest),
        ast::Expression::Access(_) => true,
        ast::Expression::Assignment(a) => assignment_fits(a, rest),
        ast::Expression::ClassDefinition(ast::ClassDefinitionVariants::Class(c)) => {
            expressions_fit(&c.expressions, rest)
        },
        ast::Expression::ClassDefinition(ast::ClassDefinitionVariants::Singleton(c)) => {
            expressions_fit(&c.expressions, rest)
        },
        ast::Expression::ModuleDefinition(m) => expressions_fit(&m.expressions, rest),
        ast::Expression::MethodDefinition(ast::MethodDefinitionVariants::Instance(m)) => {
            plain_arguments_fit(&m.args.0, rest) && expressions_fit(&m.expressions, rest)
        },
        ast::Expression::MethodDefinition(ast::MethodDefinitionVariants::Singleton(m)) => {
            plain_arguments_fit(&m.args.0, rest) && expressions_fit(&m.expressions, rest)
        },
        ast::Expression::MethodUndefinition(u) => strings_fit(&u.0, rest),
        ast::Expression::Aliasing(ast::AliasingVariants::Method(m)) => {
            string_fits(&m.oldname, rest) && string_fits(&m.newname, rest)
        },
        ast::Expression::Aliasing(ast::AliasingVariants::GlobalVariable(_)) => true,
        ast::Expression::SendMethod(ast::SendMethodVariants::Singleton(m)) => send_fits(m, rest),
        ast::Expression::SendMethod(ast::SendMethodVariants::WithReceiver(receiver, m)) => {
            expression_fits(receiver, rest) && send_fits(m, rest)
        },
        ast::Expression::Operation(o) => operation_fits(o, rest),
        ast::Expression::LogicalOperation(l) => logical_operation_fits(l, rest),
        ast::Expression::Branching(ast::BranchingVariants::If(b)) => if_chain_fits(b, rest),
        ast::Expression::Branching(ast::BranchingVariants::Unless(b)) => unless_fits(b, rest),
        ast::Expression::TernaryBranching(t) => ternary_fits(t, rest),
        ast::Expression::CaseMatching(c) => {
            optional_fits(&c.condition, rest) && whens_fit(&c.when, rest) && optional_fits(
                &c.default,
                rest,
            )
        },
        ast::Expression::Loop(l) => loop_fits(l, rest),
        ast::Expression::Return(value) => optional_fits(value, rest),
        ast::Expression::ExceptionHandling(x) => exception_handling_fits(x, rest),
        ast::Expression::BEGINBlock(body) => expressions_fit(body, rest),
        ast::Expression::ENDBlock(body) => expressions_fit(body, rest),
        ast::Expression::FlipFlop(ast::FlipFlopVariants::Inclusive(f)) => flip_flop_fits(f, rest),
        ast::Expression::FlipFlop(ast::FlipFlopVariants::Exclusive(f)) => flip_flop_fits(f, rest),
    }
}

/// Whether each expression of `v` nests no deeper than `limit` levels.
pub fn expressions_fit(v: &Vec<ast::Expression>, limit: usize) -> (r: bool)
    ensures
        r == expressions_within(v@, limit as nat),
    decreases v, 0nat,
{
    let mut i: usize = 0;
    while i < v.len()
        invariant
            i <= v.len(),
            forall|j: int| 0 <= j < i ==> expression_within(#[trigger] v@[j], limit as nat),
        decreases v.len() - i,
    {
        if !expression_fits(&v[i], limit) {
            return false;
        }
        i = i + 1;
    }
    true
}

fn optional_fits(e: &Option<Box<ast::Expression>>, limit: usize) -> (r: bool)
    ensures
        r == optional_within(*e, limit as nat),
    decreases e, 0nat,
{
    match e {
        Some(held) => expression_fits(held, limit),
        None => true,
    }
}

fn literal_fits(l: &ast::ValueVariants, limit: usize) -> (r: bool)
    ensures
        r == literal_within(*l, limit as nat),
    decreases l, 0nat,
{
    match l {
        ast::ValueVariants::String(s) => string_fits(s, limit),
        ast::ValueVariants::Symbol(s) => string_fits(s, limit),
        ast::ValueVariants::ExecuteString(s) => string_fits(s, limit),
        ast::ValueVariants::HereDocument(ast::HereDocumentVariants::Plain(h)) => string_fits(
            &h.document,
            limit,
        ),
        ast::ValueVariants::HereDocument(ast::HereDocumentVariants::Dash(h)) => string_fits(
            &h.document,
            limit,
        ),
        ast::ValueVariants::HereDocument(ast::HereDocumentVariants::Squiggly(h)) => string_fits(
            &h.document,
            limit,
        ),
        ast::ValueVariants::RegularExpression(r) => string_fits(&r.expression, limit),
        ast::ValueVariants::Array(a) => array_fits(a, limit),
        ast::ValueVariants::Hash(h) => hash_fits(h, limit),
        _ => true,
    }
}

fn string_fits(s: &ast::StringLiteral, limit: usize) -> (r: bool)
    ensures
        r == string_within(*s, limit as nat),
    decreases s, 0nat,
{
    match s {
        ast::StringLiteral::Static(_) => true,
        ast::StringLiteral::WithInterpolation(v) => expressions_fit(v, limit),
    }
}

fn strings_fit(v: &Vec<ast::StringLiteral>, limit: usize) -> (r: bool)
    ensures
        r == strings_within(v@, limit as nat),
    decreases v, 0nat,
{
    let mut i: usize = 0;
    while i < v.len()
        invariant
            i <= v.len(),
            forall|j: int| 0 <= j < i ==> string_within(#[trigger] v@[j], limit as nat),
        decreases v.len() - i,
    {
        if !string_fits(&v[i], limit) {
            return false;
        }
        i = i + 1;
    }
    true
}

#[verifier::loop_isolation(false)]
fn array_fits(a: &ast::ArrayLiteral, limit: usize) -> (r: bool)
    ensures
        r == array_within(*a, limit as nat),
    decreases a, 0nat,
{
    if limit == 0 {
        return false;
    }
    let rest = limit - 1;
    match a {
        ast::ArrayLiteral::Plain(v) => expressions_fit(v, rest),
        ast::ArrayLiteral::Splat(x) => array_expression_fits(x, rest),
        ast::ArrayLiteral::WithInterpolation(v) => {
            let mut i: usize = 0;
            while i < v.len()
                invariant
                    i <= v.len(),
                    forall|j: int|
                        0 <= j < i ==> array_interpolation_within(#[trigger] v@[j], rest as nat),
                    decreases_to!(a => v),
                decreases v.len() - i,
            {
                if !array_interpolation_fits(&v[i], rest) {
                    return false;
                }
                i = i + 1;
            }
            true
        },
    }
}

fn array_expression_fits(x: &ast::ArrayExpression, limit: usize) -> (r: bool)
    ensures
        r == array_expression_within(*x, limit as nat),
    decreases x, 0nat,
{
    match x {
        ast::ArrayExpression::Access(_) => true,
        ast::ArrayExpression::Literal(a) => array_fits(a, limit),
    }
}

fn array_interpolation_fits(x: &ast::ArrayInterpolation, limit: usize) -> (r: bool)
    ensures
        r == array_interpolation_within(*x, limit as nat),
    decreases x, 0nat,
{
    match x {
        ast::ArrayInterpolation::Expression(e) => expression_fits(e, limit),
        ast::ArrayInterpolation::Splat(a) => array_expression_fits(a, limit),
    }
}

#[verifier::loop_isolation(false)]
fn hash_fits(h: &ast::HashLiteral, limit: usize) -> (r: bool)
    ensures
        r == hash_within(*h, limit as nat),
    decreases h, 0nat,
{
    if limit == 0 {
        return false;
    }
    let rest = limit - 1;
    match h {
        ast::HashLiteral::Plain(v) => {
            let mut i: usize = 0;
            while i < v.len()
                invariant
                    i <= v.len(),
                    forall|j: int|
                        0 <= j < i ==> hash_element_within(#[trigger] v@[j], rest as nat),
                    decreases_to!(h => v),
                decreases v.len() - i,
            {
                if !hash_element_fits(&v[i], rest) {
                    return false;
                }
                i = i + 1;
            }
            true
        },
        ast::HashLiteral::Splat(x) => hash_expression_fits(x, rest),
        ast::HashLiteral::WithInterpolation(v) => {
            let mut i: usize = 0;
            while i < v.len()
                invariant
                    i <= v.len(),
                    forall|j: int|
                        0 <= j < i ==> hash_interpolation_within(#[trigger] v@[j], rest as nat),
                    decreases_to!(h => v),
                decreases v.len() - i,
            {
                if !hash_interpolation_fits(&v[i], rest) {
                    return false;
                }
                i = i + 1;
            }
            true
        },
    }
}

fn hash_element_fits(e: &ast::HashElement, limit: usize) -> (r: bool)
    ensures
        r == hash_element_within(*e, limit as nat),
    decreases e, 0nat,
{
    match e {
        ast::HashElement::Pair(p) => expression_fits(&p.key, limit) && expression_fits(
            &p.value,
            limit,
        ),
        ast::HashElement::WithLabel(l) => string_fits(&l.key, limit) && expression_fits(
            &l.value,
            limit,
        ),
    }
}

fn hash_interpolation_fits(x: &ast::HashInterpolation, limit: usize) -> (r: bool)
    ensures
        r == hash_interpolation_within(*x, limit as nat),
    decreases x, 0nat,
{
    match x {
        ast::HashInterpolation::Element(e) => hash_element_fits(e, limit),
        ast::HashInterpolation::Splat(h) => hash_expression_fits(h, limit),
    }
}

fn hash_expression_fits(x: &ast::HashExpression, limit: usize) -> (r: bool)
    ensures
        r == hash_expression_within(*x, limit as nat),
    decreases x, 0nat,
{
    match x {
        ast::HashExpression::Access(_) => true,
        ast::HashExpression::Literal(h) => hash_fits(h, limit),
    }
}

#[verifier::loop_isolation(false)]
fn left_hand_side_fits(m: &ast::MultipleLeftHandSide, limit: usize) -> (r: bool)
    ensures
        r == left_hand_side_within(*m, limit as nat),
    decreases m,
{
    if limit == 0 {
        return false;
    }
    let rest = limit - 1;
    let mut i: usize = 0;
    while i < m.0.len()
        invariant
            i <= m.0.len(),
            forall|j: int|
                0 <= j < i ==> left_hand_side_element_within(#[trigger] m.0@[j], rest as nat),
        decreases m.0.len() - i,
    {
        if !left_hand_side_element_fits(&m.0[i], rest) {
            return false;
        }
        i = i + 1;
    }
    true
}

fn left_hand_side_element_fits(e: &ast::MultipleLeftHandSideElement, limit: usize) -> (r: bool)
    ensures
        r == left_hand_side_element_within(*e, limit as nat),
    decreases e,
{
    match e {
        ast::MultipleLeftHandSideElement::Nested(m) => left_hand_side_fits(m, limit),
        _ => true,
    }
}

#[verifier::loop_isolation(false)]
fn decomposed_fits(d: &ast::DecomposedArgument, limit: usize) -> (r: bool)
    ensures
        r == decomposed_within(*d, limit as nat),
    decreases d,
{
    if limit == 0 {
        return false;
    }
    let rest = limit - 1;
    let mut i: usize = 0;
    while i < d.0.len()
        invariant
            i <= d.0.len(),
            forall|j: int|
                0 <= j < i ==> match #[trigger] d.0@[j] {
                    ast::DecomposedArgumentVariants::Plain(_) => true,
                    ast::DecomposedArgumentVariants::Nested(inner) => decomposed_within(
                        inner,
                        rest as nat,
                    ),
                },
        decreases d.0.len() - i,
    {
        let fits = match &d.0[i] {
            ast::DecomposedArgumentVariants::Plain(_) => true,
            ast::DecomposedArgumentVariants::Nested(inner) => decomposed_fits(inner, rest),
        };
        if !fits {
            return false;
        }
        i = i + 1;
    }
    true
}

fn plain_argument_fits(p: &ast::PlainArgumentVariants, limit: usize) -> (r: bool)
    ensures
        r == plain_argument_within(*p, limit as nat),
    decreases p, 0nat,
{
    match p {
        ast::PlainArgumentVariants::KeywordOptional(_, default) => expression_fits(default, limit),
        ast::PlainArgumentVariants::Optional(_, default) => expression_fits(default, limit),
        ast::PlainArgumentVariants::Decomposition(d) => decomposed_fits(d, limit),
        _ => true,
    }
}

fn plain_arguments_fit(v: &Vec<ast::PlainArgumentVariants>, limit: usize) -> (r: bool)
    ensures
        r == plain_arguments_within(v@, limit as nat),
    decreases v, 0nat,
{
    let mut i: usize = 0;
    while i < v.len()
        invariant
            i <= v.len(),
            forall|j: int| 0 <= j < i ==> plain_argument_within(#[trigger] v@[j], limit as nat),
        decreases v.len() - i,
    {
        if !plain_argument_fits(&v[i], limit) {
            return false;
        }
        i = i + 1;
    }
    true
}

fn trailing_fits(
    s: &Option<ast::SplatsAndBlockArgumentVariants<ast::MultipleLeftHandSideElement>>,
    limit: usize,
) -> (r: bool)
    ensures
        r == left_hand_side_elements_within(trailing_targets(*s), limit as nat),
{
    match s {
        Some(ast::SplatsAndBlockArgumentVariants::Splat(a)) => {
            let fits = left_hand_side_element_fits(a, limit);
            assert(trailing_targets(*s)[0] == *a);
            fits
        },
        Some(ast::SplatsAndBlockArgumentVariants::KeyWordSplat(a)) => {
            let fits = left_hand_side_element_fits(a, limit);
            assert(trailing_targets(*s)[0] == *a);
            fits
        },
        Some(ast::SplatsAndBlockArgumentVariants::Block(a)) => {
            let fits = left_hand_side_element_fits(a, limit);
            assert(trailing_targets(*s)[0] == *a);
            fits
        },
        Some(ast::SplatsAndBlockArgumentVariants::SplatThenKeywordSplat(a, b)) => {
            let fits = left_hand_side_element_fits(a, limit) && left_hand_side_element_fits(
                b,
                limit,
            );
            assert(trailing_targets(*s)[0] == *a);
            assert(trailing_targets(*s)[1] == *b);
            fits
        },
        Some(ast::SplatsAndBlockArgumentVariants::SplatThenBlock(a, b)) => {
            let fits = left_hand_side_element_fits(a, limit) && left_hand_side_element_fits(
                b,
                limit,
            );
            assert(trailing_targets(*s)[0] == *a);
            assert(trailing_targets(*s)[1] == *b);
            fits
        },
        Some(ast::SplatsAndBlockArgumentVariants::SplatThenKeywordSplatThenBlock(a, b, c)) => {
            let fits = left_hand_side_element_fits(a, limit) && left_hand_side_element_fits(
                b,
                limit,
            ) && left_hand_side_element_fits(c, limit);
            assert(trailing_targets(*s)[0] == *a);
            assert(trailing_targets(*s)[1] == *b);
            assert(trailing_targets(*s)[2] == *c);
            fits
        },
        _ => true,
    }
}

fn proc_argument_fits(p: &ast::ProcArgument, limit: usize) -> (r: bool)
    ensures
        r == proc_argument_within(*p, limit as nat),
    decreases p, 0nat,
{
    let mut i: usize = 0;
    while i < p.0.len()
        invariant
            i <= p.0.len(),
            forall|j: int|
                0 <= j < i ==> match #[trigger] p.0@[j] {
                    ast::ProcArgumentVariants::PlainArgument(plain) => plain_argument_within(
                        plain,
                        limit as nat,
                    ),
                    ast::ProcArgumentVariants::MultipleLeftHandSide(target) => {
                        left_hand_side_element_within(target, limit as nat)
                    },
                },
        decreases p.0.len() - i,
    {
        let fits = match &p.0[i] {
            ast::ProcArgumentVariants::PlainArgument(plain) => plain_argument_fits(plain, limit),
            ast::ProcArgumentVariants::MultipleLeftHandSide(target) => left_hand_side_element_fits(
                target,
                limit,
            ),
        };
        if !fits {
            return false;
        }
        i = i + 1;
    }
    trailing_fits(&p.1, limit)
}

fn proc_expression_fits(p: &ast::ProcExpressionVariants, limit: usize) -> (r: bool)
    ensures
        r == proc_expression_within(*p, limit as nat),
    decreases p, 0nat,
{
    match p {
        ast::ProcExpressionVariants::Proc(params, body) => proc_argument_fits(params, limit)
            && expressions_fit(body, limit),
        ast::ProcExpressionVariants::Lambda(params, body) => proc_argument_fits(params, limit)
            && expressions_fit(body, limit),
        ast::ProcExpressionVariants::Stubby(params, body) => proc_argument_fits(params, limit)
            && expressions_fit(body, limit),
    }
}

fn block_fits(b: &Option<ast::BlockArgument>, limit: usize) -> (r: bool)
    ensures
        r == block_within(*b, limit as nat),
    decreases b, 0nat,
{
    match b {
        Some(ast::BlockArgument::Pass(ast::ProcAsArgumentVariants::Expression(p))) => {
            proc_expression_fits(p, limit)
        },
        Some(ast::BlockArgument::BeginBlock(params, body)) => proc_argument_fits(params, limit)
            && expressions_fit(body, limit),
        _ => true,
    }
}

fn argument_fits(a: &ast::ArgumentVariants, limit: usize) -> (r: bool)
    ensures
        r == argument_within(*a, limit as nat),
    decreases a, 0nat,
{
    match a {
        ast::ArgumentVariants::Expression(e) => expression_fits(e, limit),
        ast::ArgumentVariants::Splat(x) => array_expression_fits(x, limit),
        ast::ArgumentVariants::Keyword(e) => hash_element_fits(e, limit),
        ast::ArgumentVariants::KeywordSplat(x) => hash_expression_fits(x, limit),
    }
}

fn send_fits(m: &ast::SendMethod, limit: usize) -> (r: bool)
    ensures
        r == send_within(*m, limit as nat),
    decreases m, 0nat,
{
    let mut i: usize = 0;
    while i < m.args.0.len()
        invariant
            i <= m.args.0.len(),
            forall|j: int| 0 <= j < i ==> argument_within(#[trigger] m.args.0@[j], limit as nat),
        decreases m.args.0.len() - i,
    {
        if !argument_fits(&m.args.0[i], limit) {
            return false;
        }
        i = i + 1;
    }
    block_fits(&m.args.1, limit)
}

fn assignment_fits(a: &ast::AssignmentVariants, limit: usize) -> (r: bool)
    ensures
        r == assignment_within(*a, limit as nat),
    decreases a, 0nat,
{
    match a {
        ast::AssignmentVariants::ToLocalVariable(_, e) => expression_fits(e, limit),
        ast::AssignmentVariants::ToInstanceVariable(_, e) => expression_fits(e, limit),
        ast::AssignmentVariants::ToClassVariable(_, e) => expression_fits(e, limit),
        ast::AssignmentVariants::ToGlobalVariable(_, e) => expression_fits(e, limit),
        ast::AssignmentVariants::ToConstant(_, e) => expression_fits(e, limit),
        ast::AssignmentVariants::ToAttribute(ast::SendMethodAssignmentVariants::Plain(p)) => {
            expression_fits(&p.receiver, limit) && send_fits(&p.method, limit)
        },
        ast::AssignmentVariants::ToAttribute(ast::SendMethodAssignmentVariants::WithIndex(p)) => {
            expression_fits(&p.receiver, limit) && expression_fits(&p.index, limit) && send_fits(
                &p.method,
                limit,
            )
        },
        ast::AssignmentVariants::MultipleAssignment(lhs, rhs) => left_hand_side_fits(lhs, limit)
            && array_interpolation_fits(&rhs.0, limit),
        ast::AssignmentVariants::BinaryOperator(_, _, e) => expression_fits(e, limit),
        ast::AssignmentVariants::LogicalOperator(_, _, e) => expression_fits(e, limit),
    }
}

fn operation_fits(o: &ast::OperationVariants, limit: usize) -> (r: bool)
    ensures
        r == operation_within(*o, limit as nat),
    decreases o, 0nat,
{
    match o {
        ast::OperationVariants::Paren(v) => expressions_fit(v, limit),
        ast::OperationVariants::BinaryExpression(b) => expression_fits(&b.lefthand, limit)
            && expression_fits(&b.righthand, limit),
        ast::OperationVariants::Not(e) => expression_fits(e, limit),
    }
}

fn logical_operation_fits(l: &ast::LogicalOperationVariants, limit: usize) -> (r: bool)
    ensures
        r == logical_operation_within(*l, limit as nat),
    decreases l, 0nat,
{
    match l {
        ast::LogicalOperationVariants::Equal(a, b) => expression_fits(a, limit) && expression_fits(
            b,
            limit,
        ),
        ast::LogicalOperationVariants::And(a, b) => expression_fits(a, limit) && expression_fits(
            b,
            limit,
        ),
        ast::LogicalOperationVariants::LowerPrecedenceAnd(a, b) => expression_fits(a, limit)
            && expression_fits(b, limit),
        ast::LogicalOperationVariants::Or(a, b) => expression_fits(a, limit) && expression_fits(
            b,
            limit,
        ),
        ast::LogicalOperationVariants::LowerPrecedenceOr(a, b) => expression_fits(a, limit)
            && expression_fits(b, limit),
        ast::LogicalOperationVariants::DoubleAmpersands(a, b) => expression_fits(a, limit)
            && expression_fits(b, limit),
        ast::LogicalOperationVariants::DoublePipes(a, b) => expression_fits(a, limit)
            && expression_fits(b, limit),
        ast::LogicalOperationVariants::Not(e) => expression_fits(e, limit),
        ast::LogicalOperationVariants::Match(m) => string_fits(&m.regex.expression, limit)
            && expression_fits(&m.expression, limit),
    }
}

fn ternary_fits(t: &ast::TernaryBranching, limit: usize) -> (r: bool)
    ensures
        r == ternary_within(*t, limit as nat),
    decreases t, 0nat,
{
    expression_fits(&t.condition, limit) && expression_fits(&t.iftrue, limit) && expression_fits(
        &t.iffalse,
        limit,
    )
}

fn if_chain_fits(b: &ast::BranchingIfVariants, limit: usize) -> (r: bool)
    ensures
        r == if_chain_within(*b, limit as nat),
    decreases b, 1nat,
{
    let mut link = b;
    let mut fits = true;
    loop
        invariant_except_break
            *link == *b || decreases_to!(*b => *link),
            fits,
            if_chain_within(*link, limit as nat) == if_chain_within(*b, limit as nat),
        ensures
            fits == if_chain_within(*b, limit as nat),
        decreases link,
    {
        match link {
            ast::BranchingIfVariants::WithElsif(branch) => {
                if !(expression_fits(&branch.condition, limit) && expression_fits(
                    &branch.iftrue,
                    limit,
                )) {
                    fits = false;
                    break ;
                }
                link = &branch.elsif;
            },
            ast::BranchingIfVariants::WithoutElse(branch) => {
                fits = expression_fits(&branch.condition, limit) && expression_fits(
                    &branch.iftrue,
                    limit,
                );
                break ;
            },
            ast::BranchingIfVariants::WithElse(branch) => {
                fits = ternary_fits(branch, limit);
                break ;
            },
        }
    }
    fits
}

fn unless_fits(b: &ast::BranchingUnlessVariants, limit: usize) -> (r: bool)
    ensures
        r == unless_within(*b, limit as nat),
    decreases b, 0nat,
{
    match b {
        ast::BranchingUnlessVariants::WithoutElse(branch) => expression_fits(
            &branch.condition,
            limit,
        ) && expression_fits(&branch.iffalse, limit),
        ast::BranchingUnlessVariants::WithElse(branch) => ternary_fits(branch, limit),
    }
}

fn whens_fit(v: &Vec<ast::WhenDefinitionVariants>, limit: usize) -> (r: bool)
    ensures
        r == whens_within(v@, limit as nat),
    decreases v, 0nat,
{
    let mut i: usize = 0;
    while i < v.len()
        invariant
            i <= v.len(),
            forall|j: int|
                0 <= j < i ==> array_interpolation_within(
                    (#[trigger] v@[j]).condition,
                    limit as nat,
                ) && expression_within(*v@[j].iftrue, limit as nat),
        decreases v.len() - i,
    {
        if !(array_interpolation_fits(&v[i].condition, limit) && expression_fits(
            &v[i].iftrue,
            limit,
        )) {
            return false;
        }
        i = i + 1;
    }
    true
}

fn in_loop_fits(e: &ast::InLoopExpression, limit: usize) -> (r: bool)
    ensures
        r == in_loop_within(*e, limit as nat),
    decreases e, 0nat,
{
    match e {
        ast::InLoopExpression::Plain(plain) => expression_fits(plain, limit),
        ast::InLoopExpression::Break(Some(value)) => expression_fits(value, limit),
        ast::InLoopExpression::Next(Some(value)) => expression_fits(value, limit),
        _ => true,
    }
}

fn loop_struct_fits(s: &ast::LoopStruct, limit: usize) -> (r: bool)
    ensures
        r == loop_struct_within(*s, limit as nat),
    decreases s, 0nat,
{
    if !expression_fits(&s.condition, limit) {
        return false;
    }
    let mut i: usize = 0;
    while i < s.expressions.len()
        invariant
            i <= s.expressions.len(),
            forall|j: int|
                0 <= j < i ==> in_loop_within(#[trigger] s.expressions@[j], limit as nat),
        decreases s.expressions.len() - i,
    {
        if !in_loop_fits(&s.expressions[i], limit) {
            return false;
        }
        i = i + 1;
    }
    true
}

fn loop_fits(l: &ast::LoopVariants, limit: usize) -> (r: bool)
    ensures
        r == loop_within(*l, limit as nat),
    decreases l, 0nat,
{
    match l {
        ast::LoopVariants::PreCondition(ast::LoopConditionVariants::While(s)) => loop_struct_fits(
            s,
            limit,
        ),
        ast::LoopVariants::PreCondition(ast::LoopConditionVariants::Until(s)) => loop_struct_fits(
            s,
            limit,
        ),
        ast::LoopVariants::PostCondition(ast::LoopConditionVariants::While(s)) => loop_struct_fits(
            s,
            limit,
        ),
        ast::LoopVariants::PostCondition(ast::LoopConditionVariants::Until(s)) => loop_struct_fits(
            s,
            limit,
        ),
        ast::LoopVariants::ForIn(f) => left_hand_side_element_fits(&f.assignee, limit)
            && array_expression_fits(&f.iterator, limit) && expressions_fit(&f.expressions, limit),
    }
}

fn flip_flop_fits(f: &ast::FlipFlop, limit: usize) -> (r: bool)
    ensures
        r == flip_flop_within(*f, limit as nat),
    decreases f, 0nat,
{
    expression_fits(&f.flip, limit) && expression_fits(&f.flop, limit) && expressions_fit(
        &f.expressions,
        limit,
    )
}

#[verifier::loop_isolation(false)]
fn rescue_body_fits(b: &ast::RescueBodyVariants, limit: usize) -> (r: bool)
    ensures
        r == rescue_body_within(*b, limit as nat),
    decreases b, 0nat,
{
    match b {
        ast::RescueBodyVariants::Rescue(clauses, tail) => {
            let mut i: usize = 0;
            while i < clauses.len()
                invariant
                    i <= clauses.len(),
                    forall|j: int|
                        0 <= j < i ==> expressions_within(
                            (#[trigger] clauses@[j]).expressions.0@,
                            limit as nat,
                        ),
                    decreases_to!(b => clauses),
                decreases clauses.len() - i,
            {
                if !expressions_fit(&clauses[i].expressions.0, limit) {
                    return false;
                }
                i = i + 1;
            }
            match tail {
                Some(ast::RescueEnsureOrElse::Ensure(body)) => expressions_fit(body, limit),
                Some(ast::RescueEnsureOrElse::Else(body)) => expressions_fit(body, limit),
                None => true,
            }
        },
        ast::RescueBodyVariants::Ensure(body) => expressions_fit(body, limit),
    }
}

fn exception_handling_fits(x: &ast::ExceptionHandlingVariants, limit: usize) -> (r: bool)
    ensures
        r == exception_handling_within(*x, limit as nat),
    decreases x, 0nat,
{
    match x {
        ast::ExceptionHandlingVariants::InlineRescue(body, handler) => expression_fits(body, limit)
            && expression_fits(handler, limit),
        ast::ExceptionHandlingVariants::DefRescue(body, handlers) => expressions_fit(body, limit)
            && rescue_body_fits(handlers, limit),
        ast::ExceptionHandlingVariants::BeginRescue(body, handlers) => expressions_fit(body, limit)
            && rescue_body_fits(handlers, limit),
    }
}

/// Why a program was not written out.
#[derive(Debug, PartialEq, Eq)]
pub enum RenderError {
    /// The top-level expression at place `expression` nests deeper than the
    /// limit allows; the expressions before it do not.
    TooDeep { expression: usize },
}

/// Writes out a whole program, if no expression of it nests deeper than
/// `limit` levels. Otherwise nothing is written, and the error names the
/// first top-level expression that does.
pub fn render_within(root: &ast::Root, limit: usize) -> (r: Result<String, RenderError>)
    ensures
        match r {
            Ok(text) => expressions_within(root.expressions@, limit as nat) && text@ == root_text(
                *root,
            ),
            Err(RenderError::TooDeep { expression }) => {
                &&& expression < root.expressions@.len()
                &&& !expression_within(root.expressions@[expression as int], limit as nat)
                &&& forall|j: int|
                    0 <= j < expression ==> expression_within(
                        #[trigger] root.expressions@[j],
                        limit as nat,
                    )
            },
        },
{
    let mut i: usize = 0;
    while i < root.expressions.len()
        invariant
            i <= root.expressions.len(),
            forall|j: int|
                0 <= j < i ==> expression_within(#[trigger] root.expressions@[j], limit as nat),
        decreases root.expressions.len() - i,
    {
        if !expression_fits(&root.expressions[i], limit) {
            return Err(RenderError::TooDeep { expression: i });
        }
        i = i + 1;
    }
    Ok(render(root))
}

} // verus!
