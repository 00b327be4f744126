//! Emitters for method calls, their arguments and their blocks.

use vstd::prelude::*;
use super::Emitter;
use super::arguments::{proc_argument_texts, proc_argument_list};
use super::expression::{Expression, expression_text, expression_texts, expression_list};
use super::literals::{
    array_expression, array_expression_text, hash_element, hash_element_text, hash_expression,
    hash_expression_text,
};
use crate::ast;
use crate::text::{
    block, block_text, concat2, enclose, join, join_strings, lemma_join_keeps_pieces, one_text,
    piece_start, push_texts, texts_of,
};

verus! {

/// One argument of a call: an expression, a splatted array, a keyword, or a
/// splatted hash.
pub open spec fn argument_text(a: ast::ArgumentVariants) -> Seq<char>
    decreases a, 0nat,
{
    match a {
        ast::ArgumentVariants::Expression(e) => expression_text(e),
        ast::ArgumentVariants::Splat(aexp) => array_expression_text(aexp),
        ast::ArgumentVariants::Keyword(elt) => hash_element_text(elt),
        ast::ArgumentVariants::KeywordSplat(hexp) => hash_expression_text(hexp),
    }
}

/// The arguments of a call, in order, whatever their kind.
pub open spec fn argument_texts(v: Seq<ast::ArgumentVariants>) -> Seq<Seq<char>>
    decreases v, 0nat,
{
    Seq::new(
        v.len(),
        |i: int|
            if 0 <= i < v.len() {
                argument_text(v[i])
            } else {
                Seq::empty()
            },
    )
}

/// An argument list keeps the order of its arguments: the text at place `i`
/// is the text of the argument at place `i`, whatever the kinds of the
/// arguments, so a list whose arguments are reordered has its texts
/// reordered in the same way.
pub proof fn lemma_arguments_keep_order(
    before: Seq<ast::ArgumentVariants>,
    after: Seq<ast::ArgumentVariants>,
    to: spec_fn(int) -> int,
)
    requires
        before.len() == after.len(),
        forall|i: int| 0 <= i < before.len() ==> 0 <= #[trigger] to(i) < after.len(),
        forall|i: int| 0 <= i < before.len() ==> after[#[trigger] to(i)] == before[i],
    ensures
        argument_texts(after).len() == argument_texts(before).len(),
        forall|i: int|
            0 <= i < before.len() ==> argument_texts(after)[#[trigger] to(i)] == argument_text(
                before[i],
            ),
        forall|i: int|
            0 <= i < before.len() ==> argument_texts(before)[i] == argument_text(before[i]),
{
}

/// The parameters of a block, between pipes after a space; nothing for a
/// block without parameters.
pub open spec fn block_parameters_text(p: ast::ProcArgument) -> Seq<char>
    decreases p, 1nat,
{
    if proc_argument_texts(p).len() == 0 {
        Seq::empty()
    } else {
        " |"@ + join(proc_argument_texts(p), ", "@) + "|"@
    }
}

/// A proc, by the form it was written in: `proc { .. }`, `lambda { .. }`
/// or `->(..) { .. }`. The body stands on lines of its own.
pub open spec fn proc_expression_text(p: ast::ProcExpressionVariants) -> Seq<char>
    decreases p, 0nat,
{
    match p {
        ast::ProcExpressionVariants::Proc(params, body) => block_text(
            "proc {"@ + block_parameters_text(params),
            expression_texts(body@),
            "}"@,
        ),
        ast::ProcExpressionVariants::Lambda(params, body) => block_text(
            "lambda {"@ + block_parameters_text(params),
            expression_texts(body@),
            "}"@,
        ),
        ast::ProcExpressionVariants::Stubby(params, body) => block_text(
            "->("@ + join(proc_argument_texts(params), ", "@) + ") {"@,
            expression_texts(body@),
            "}"@,
        ),
    }
}

/// What is passed as a block: the name of a variable, or a proc.
pub open spec fn proc_as_argument_text(p: ast::ProcAsArgumentVariants) -> Seq<char>
    decreases p, 0nat,
{
    match p {
        ast::ProcAsArgumentVariants::Variable(name) => name.0@,
        ast::ProcAsArgumentVariants::Expression(proc_expression) => proc_expression_text(
            proc_expression,
        ),
    }
}

/// The argument that passes a block: `&` and what is passed, if the call
/// passes one; nothing otherwise.
pub open spec fn block_pass_texts(b: Option<ast::BlockArgument>) -> Seq<Seq<char>>
    decreases b, 0nat,
{
    match b {
        Some(ast::BlockArgument::Pass(p)) => seq!["&"@ + proc_as_argument_text(p)],
        _ => Seq::empty(),
    }
}

/// The block written after a call: a space and `do .. end` with the body on
/// lines of its own, if the call has one; nothing otherwise.
pub open spec fn block_argument_text(b: Option<ast::BlockArgument>) -> Seq<char>
    decreases b, 0nat,
{
    match b {
        Some(ast::BlockArgument::BeginBlock(params, body)) => " "@ + block_text(
            "do"@ + block_parameters_text(params),
            expression_texts(body@),
            "end"@,
        ),
        _ => Seq::empty(),
    }
}

/// The arguments of a call, separated by a comma and a space: each argument
/// in order, then the block that is passed, if one is.
pub open spec fn send_arguments_text(args: ast::SendMethodArgument) -> Seq<char>
    decreases args, 0nat,
{
    join(argument_texts(args.0@) + block_pass_texts(args.1), ", "@)
}

/// A call without its receiver: the name, the arguments between
/// parentheses, and the block.
pub open spec fn send_method_text(m: ast::SendMethod) -> Seq<char>
    decreases m, 0nat,
{
    m.name.0@ + "("@ + send_arguments_text(m.args) + ")"@ + block_argument_text(m.args.1)
}

/// A call: with a receiver, the receiver and a dot come first.
pub open spec fn send_method_variants_text(s: ast::SendMethodVariants) -> Seq<char>
    decreases s, 0nat,
{
    match s {
        ast::SendMethodVariants::Singleton(m) => send_method_text(m),
        ast::SendMethodVariants::WithReceiver(receiver, m) => expression_text(*receiver) + "."@
            + send_method_text(m),
    }
}

/// A call keeps the order of its arguments: argument `i` stands unchanged
/// among the arguments, after the arguments before it and a comma and a
/// space for each of them.
pub proof fn lemma_call_keeps_order(args: ast::SendMethodArgument, i: int)
    requires
        0 <= i < args.0@.len(),
    ensures
        send_arguments_text(args).subrange(
            piece_start(argument_texts(args.0@) + block_pass_texts(args.1), ", "@, i),
            piece_start(argument_texts(args.0@) + block_pass_texts(args.1), ", "@, i)
                + argument_text(args.0@[i]).len(),
        ) == argument_text(args.0@[i]),
{
    lemma_join_keeps_pieces(argument_texts(args.0@) + block_pass_texts(args.1), ", "@, i);
}

/// Writes out one argument of a call.
pub fn argument(a: &ast::ArgumentVariants) -> (r: String)
    ensures
        r@ == argument_text(*a),
    decreases a, 0nat,
{
    match a {
        ast::ArgumentVariants::Expression(e) => Expression(e).emit(),
        ast::ArgumentVariants::Splat(aexp) => array_expression(aexp),
        ast::ArgumentVariants::Keyword(elt) => hash_element(elt),
        ast::ArgumentVariants::KeywordSplat(hexp) => hash_expression(hexp),
    }
}

fn block_parameters(p: &ast::ProcArgument) -> (r: String)
    ensures
        r@ == block_parameters_text(*p),
    decreases p, 1nat,
{
    let names = proc_argument_list(p);
    proof {
        assert(texts_of(names@).len() == names.len());
    }
    if names.len() == 0 {
        String::new()
    } else {
        let inner = join_strings(&names, ", ");
        enclose(" |", inner.as_str(), "|")
    }
}

/// Writes out a proc.
pub fn proc_expression(p: &ast::ProcExpressionVariants) -> (r: String)
    ensures
        r@ == proc_expression_text(*p),
    decreases p, 0nat,
{
    match p {
        ast::ProcExpressionVariants::Proc(params, body) => {
            let parameters = block_parameters(params);
            let head = concat2("proc {", parameters.as_str());
            block(head, expression_list(body), "}")
        },
        ast::ProcExpressionVariants::Lambda(params, body) => {
            let parameters = block_parameters(params);
            let head = concat2("lambda {", parameters.as_str());
            block(head, expression_list(body), "}")
        },
        ast::ProcExpressionVariants::Stubby(params, body) => {
            let names = proc_argument_list(params);
            let parameters = join_strings(&names, ", ");
            let head = enclose("->(", parameters.as_str(), ") {");
            block(head, expression_list(body), "}")
        },
    }
}

fn proc_as_argument(p: &ast::ProcAsArgumentVariants) -> (r: String)
    ensures
        r@ == proc_as_argument_text(*p),
    decreases p, 0nat,
{
    match p {
        ast::ProcAsArgumentVariants::Variable(name) => String::from_str(name.0.as_str()),
        ast::ProcAsArgumentVariants::Expression(proc_expr) => proc_expression(proc_expr),
    }
}

fn block_pass(b: &Option<ast::BlockArgument>) -> (r: Vec<String>)
    ensures
        texts_of(r@) == block_pass_texts(*b),
    decreases b, 0nat,
{
    match b {
        Some(ast::BlockArgument::Pass(p)) => {
            let passed = proc_as_argument(p);
            one_text(concat2("&", passed.as_str()))
        },
        _ => {
            let out: Vec<String> = Vec::new();
            proof {
                assert(texts_of(out@) =~= Seq::<Seq<char>>::empty());
            }
            out
        },
    }
}

/// Writes out the block written after a call, if it has one.
pub fn block_argument(b: &Option<ast::BlockArgument>) -> (r: String)
    ensures
        r@ == block_argument_text(*b),
    decreases b, 0nat,
{
    match b {
        Some(ast::BlockArgument::BeginBlock(params, body)) => {
            let parameters = block_parameters(params);
            let head = concat2("do", parameters.as_str());
            let written = block(head, expression_list(body), "end");
            concat2(" ", written.as_str())
        },
        _ => String::new(),
    }
}

/// Writes out the arguments of a call, without the parentheses around them.
pub fn send_arguments(args: &ast::SendMethodArgument) -> (r: String)
    ensures
        r@ == send_arguments_text(*args),
    decreases args, 0nat,
{
    let mut written: Vec<String> = Vec::new();
    let mut i: usize = 0;
    while i < args.0.len()
        invariant
            i <= args.0.len(),
            written.len() == i,
            forall|j: int| 0 <= j < i ==> written@[j]@ == argument_text(args.0@[j]),
        decreases args.0.len() - i,
    {
        written.push(argument(&args.0[i]));
        i = i + 1;
    }
    proof {
        assert(texts_of(written@) =~= argument_texts(args.0@));
    }
    push_texts(&mut written, block_pass(&args.1));
    join_strings(&written, ", ")
}

/// Writes out a call without its receiver.
pub fn send_method(m: &ast::SendMethod) -> (r: String)
    ensures
        r@ == send_method_text(*m),
    decreases m, 0nat,
{
    let arguments = send_arguments(&m.args);
    let trailing = block_argument(&m.args.1);
    let mut out = String::from_str(m.name.0.as_str());
    out.append("(");
    out.append(arguments.as_str());
    out.append(")");
    out.append(trailing.as_str());
    out
}

/// Writes out a call.
pub fn send_method_variants(s: &ast::SendMethodVariants) -> (r: String)
    ensures
        r@ == send_method_variants_text(*s),
    decreases s, 0nat,
{
    match s {
        ast::SendMethodVariants::Singleton(m) => send_method(m),
        ast::SendMethodVariants::WithReceiver(receiver, m) => {
            let target = Expression(receiver).emit();
            let call = send_method(m);
            enclose(target.as_str(), ".", call.as_str())
        },
    }
}

} // verus!
