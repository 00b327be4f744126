//! Emitter for expressions: the dispatch into every category.

use vstd::prelude::*;
use super::Emitter;
use super::access::{Access, access_text};
use super::control::{
    branching, branching_text, case_matching, case_text, flip_flop, flip_flop_text, loop_text,
    loop_variants, return_text, return_value, ternary, ternary_text,
};
use super::definitions::{
    aliasing, aliasing_text, begin_block, begin_block_text, class_definition,
    class_definition_text, end_block, end_block_text, method_definition, method_definition_text,
    method_undefinition, method_undefinition_text, module_definition, module_definition_text,
};
use super::invocation::{send_method_variants, send_method_variants_text};
use super::rescue::{exception_handling, exception_handling_text};
use super::literals::{Literals, literal_text};
use super::operators::{
    assignment, assignment_text, logical_operation, logical_operation_text, operation,
    operation_text,
};
use crate::ast;
use crate::text::{join, join_strings, lemma_join_keeps_pieces, piece_start, texts_of};

verus! {

/// Emitter of an expression.
pub struct Expression<'e>(pub &'e ast::Expression);

/// An expression, by category.
pub open spec fn expression_text(e: ast::Expression) -> Seq<char>
    decreases e, 0nat,
{
    match e {
        ast::Expression::Literal(l) => literal_text(l),
        ast::Expression::Access(a) => access_text(a),
        ast::Expression::Assignment(a) => assignment_text(a),
        ast::Expression::ClassDefinition(c) => class_definition_text(c),
        ast::Expression::ModuleDefinition(m) => module_definition_text(m),
        ast::Expression::MethodDefinition(m) => method_definition_text(m),
        ast::Expression::MethodUndefinition(u) => method_undefinition_text(u),
        ast::Expression::Aliasing(a) => aliasing_text(a),
        ast::Expression::SendMethod(s) => send_method_variants_text(s),
        ast::Expression::Operation(o) => operation_text(o),
        ast::Expression::LogicalOperation(l) => logical_operation_text(l),
        ast::Expression::Branching(b) => branching_text(b),
        ast::Expression::TernaryBranching(t) => ternary_text(t),
        ast::Expression::CaseMatching(c) => case_text(c),
        ast::Expression::Loop(l) => loop_text(l),
        ast::Expression::Return(value) => return_text(value),
        ast::Expression::ExceptionHandling(x) => exception_handling_text(x),
        ast::Expression::BEGINBlock(body) => begin_block_text(body@),
        ast::Expression::ENDBlock(body) => end_block_text(body@),
        ast::Expression::FlipFlop(f) => flip_flop_text(f),
    }
}

/// The expressions of a sequence, each written out, in order.
pub open spec fn expression_texts(v: Seq<ast::Expression>) -> Seq<Seq<char>>
    decreases v, 0nat,
{
    Seq::new(
        v.len(),
        |i: int|
            if 0 <= i < v.len() {
                expression_text(v[i])
            } else {
                Seq::empty()
            },
    )
}

/// A program: its expressions in order, one per line.
pub open spec fn root_text(root: ast::Root) -> Seq<char> {
    join(expression_texts(root.expressions@), "\n"@)
}

/// A body keeps the order of its expressions: the text at place `i` is the
/// text of the expression at place `i`, so a body whose expressions are
/// reordered has its texts reordered in the same way.
pub proof fn lemma_body_keeps_order(
    before: Seq<ast::Expression>,
    after: Seq<ast::Expression>,
    to: spec_fn(int) -> int,
)
    requires
        before.len() == after.len(),
        forall|i: int| 0 <= i < before.len() ==> 0 <= #[trigger] to(i) < after.len(),
        forall|i: int| 0 <= i < before.len() ==> after[#[trigger] to(i)] == before[i],
    ensures
        expression_texts(after).len() == expression_texts(before).len(),
        forall|i: int|
            0 <= i < before.len() ==> expression_texts(after)[#[trigger] to(i)] == expression_text(
                before[i],
            ),
        forall|i: int|
            0 <= i < before.len() ==> expression_texts(before)[i] == expression_text(before[i]),
{
}

/// The text after `rounds` round trips of `s`: each round reads the text
/// with `parse` and writes out the tree that was read.
pub open spec fn round_trips(
    parse: spec_fn(Seq<char>) -> ast::Expression,
    s: Seq<char>,
    rounds: nat,
) -> Seq<char>
    decreases rounds,
{
    if rounds == 0 {
        s
    } else {
        expression_text(parse(round_trips(parse, s, (rounds - 1) as nat)))
    }
}

/// What is written depends on the tree alone. So with a parser that reads
/// the text of `t` back as `t`, or as any tree that is written alike,
/// reading and writing again gives the same text, after one round and after
/// any number of rounds. Whether a parser does read a text back so is for
/// the parser to show.
pub proof fn lemma_round_trip_is_stable(
    t: ast::Expression,
    parse: spec_fn(Seq<char>) -> ast::Expression,
    rounds: nat,
)
    requires
        expression_text(parse(expression_text(t))) == expression_text(t),
    ensures
        round_trips(parse, expression_text(t), rounds) == expression_text(t),
    decreases rounds,
{
    if rounds > 0 {
        lemma_round_trip_is_stable(t, parse, (rounds - 1) as nat);
    }
}

/// A program keeps the order of its expressions: expression `i` stands
/// unchanged in the text, after the expressions before it and a line break
/// for each of them.
pub proof fn lemma_program_keeps_order(root: ast::Root, i: int)
    requires
        0 <= i < root.expressions@.len(),
    ensures
        root_text(root).subrange(
            piece_start(expression_texts(root.expressions@), "\n"@, i),
            piece_start(expression_texts(root.expressions@), "\n"@, i) + expression_text(
                root.expressions@[i],
            ).len(),
        ) == expression_text(root.expressions@[i]),
{
    lemma_join_keeps_pieces(expression_texts(root.expressions@), "\n"@, i);
}

impl<'e> Emitter for Expression<'e> {
    open spec fn text(&self) -> Seq<char> {
        expression_text(*self.0)
    }

    fn emit(&self) -> (r: String)
        decreases self.0, 0nat,
    {
        match self.0 {
            ast::Expression::Literal(l) => Literals(l).emit(),
            ast::Expression::Access(a) => Access(a).emit(),
            ast::Expression::Assignment(a) => assignment(a),
            ast::Expression::ClassDefinition(c) => class_definition(c),
            ast::Expression::ModuleDefinition(m) => module_definition(m),
            ast::Expression::MethodDefinition(m) => method_definition(m),
            ast::Expression::MethodUndefinition(u) => method_undefinition(u),
            ast::Expression::Aliasing(a) => aliasing(a),
            ast::Expression::SendMethod(s) => send_method_variants(s),
            ast::Expression::Operation(o) => operation(o),
            ast::Expression::LogicalOperation(l) => logical_operation(l),
            ast::Expression::Branching(b) => branching(b),
            ast::Expression::TernaryBranching(t) => ternary(t),
            ast::Expression::CaseMatching(c) => case_matching(c),
            ast::Expression::Loop(l) => loop_variants(l),
            ast::Expression::Return(value) => return_value(value),
            ast::Expression::ExceptionHandling(x) => exception_handling(x),
            ast::Expression::BEGINBlock(body) => begin_block(body),
            ast::Expression::ENDBlock(body) => end_block(body),
            ast::Expression::FlipFlop(f) => flip_flop(f),
        }
    }
}

/// Writes out each expression of `v`, in order.
pub fn expression_list(v: &Vec<ast::Expression>) -> (r: Vec<String>)
    ensures
        texts_of(r@) == expression_texts(v@),
    decreases v, 0nat,
{
    let mut out: Vec<String> = Vec::new();
    let mut i: usize = 0;
    while i < v.len()
        invariant
            i <= v.len(),
            out.len() == i,
            forall|j: int| 0 <= j < i ==> out@[j]@ == expression_text(v@[j]),
        decreases v.len() - i,
    {
        out.push(Expression(&v[i]).emit());
        i = i + 1;
    }
    proof {
        assert(texts_of(out@) =~= expression_texts(v@));
    }
    out
}

/// Writes out a whole program: its expressions in order, one per line.
pub fn render(root: &ast::Root) -> (r: String)
    ensures
        r@ == root_text(*root),
{
    let lines = expression_list(&root.expressions);
    join_strings(&lines, "\n")
}

} // verus!
