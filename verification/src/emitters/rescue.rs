//! Emitters for exception handling: the inline `rescue`, and the clauses of
//! a `begin` block or of a method body.

use vstd::prelude::*;
use super::Emitter;
use super::access::{access_text, constant_text, constant_variants, Access};
use super::expression::{expression_list, expression_text, expression_texts, Expression};
use crate::ast;
use crate::text::{concat2, enclose, join, join_strings, one_text, push_text, push_texts, texts_of};

verus! {

/// The exception types of a clause, each written out, in order.
pub open spec fn exception_texts(v: Seq<ast::ConstantVariants>) -> Seq<Seq<char>> {
    Seq::new(v.len(), |i: int| constant_text(v[i]))
}

/// The exception types that a clause names, after a space, separated by a
/// comma and a space; nothing for a clause that names none.
pub open spec fn exception_list_text(v: Seq<ast::ConstantVariants>) -> Seq<char> {
    if v.len() == 0 {
        Seq::empty()
    } else {
        " "@ + join(exception_texts(v), ", "@)
    }
}

/// ` => ` and the variable that the exception is bound to, if there is one.
pub open spec fn binding_text(a: Option<ast::AccessVariants>) -> Seq<char> {
    match a {
        Some(variable) => " => "@ + access_text(variable),
        None => Seq::empty(),
    }
}

/// `retry` on a line of its own, if the clause ends in one.
pub open spec fn retry_texts(r: Option<ast::Retry>) -> Seq<Seq<char>> {
    match r {
        Some(_) => seq!["retry"@],
        None => Seq::empty(),
    }
}

/// One rescue clause: `rescue`, the exception types and the binding on the
/// first line, then the body and the `retry`, each on a line of its own.
pub open spec fn rescue_clause_text(c: ast::RescueBody) -> Seq<char>
    decreases c, 0nat,
{
    join(
        seq!["rescue"@ + exception_list_text(c.exceptions@) + binding_text(c.assignment)]
            + expression_texts(c.expressions.0@) + retry_texts(c.expressions.1),
        "\n"@,
    )
}

/// The rescue clauses, in order.
pub open spec fn rescue_clause_texts(v: Seq<ast::RescueBody>) -> Seq<Seq<char>>
    decreases v, 0nat,
{
    Seq::new(
        v.len(),
        |i: int|
            if 0 <= i < v.len() {
                rescue_clause_text(v[i])
            } else {
                Seq::empty()
            },
    )
}

/// What follows the rescue clauses: `else` or `ensure` and its body, each on
/// a line of its own, if there is one.
pub open spec fn rescue_tail_texts(t: Option<ast::RescueEnsureOrElse>) -> Seq<Seq<char>>
    decreases t, 0nat,
{
    match t {
        Some(ast::RescueEnsureOrElse::Ensure(body)) => seq!["ensure"@] + expression_texts(body@),
        Some(ast::RescueEnsureOrElse::Else(body)) => seq!["else"@] + expression_texts(body@),
        None => Seq::empty(),
    }
}

/// What handles the exceptions of a body: the rescue clauses in order, then
/// what follows them; or `ensure` and its body.
pub open spec fn rescue_body_texts(b: ast::RescueBodyVariants) -> Seq<Seq<char>>
    decreases b, 0nat,
{
    match b {
        ast::RescueBodyVariants::Rescue(clauses, tail) => rescue_clause_texts(clauses@)
            + rescue_tail_texts(tail),
        ast::RescueBodyVariants::Ensure(body) => seq!["ensure"@] + expression_texts(body@),
    }
}

/// Exception handling. Inline: the body, `rescue` and the handler on one
/// line. In a method: the body, then the handlers, each on a line of its own,
/// for the method's own `end` to close. In a block: the same between `begin`
/// and `end`.
pub open spec fn exception_handling_text(x: ast::ExceptionHandlingVariants) -> Seq<char>
    decreases x, 0nat,
{
    match x {
        ast::ExceptionHandlingVariants::InlineRescue(body, handler) => expression_text(*body)
            + " rescue "@ + expression_text(*handler),
        ast::ExceptionHandlingVariants::DefRescue(body, handlers) => join(
            expression_texts(body@) + rescue_body_texts(handlers),
            "\n"@,
        ),
        ast::ExceptionHandlingVariants::BeginRescue(body, handlers) => join(
            seq!["begin"@] + expression_texts(body@) + rescue_body_texts(handlers) + seq!["end"@],
            "\n"@,
        ),
    }
}

fn exception_list(v: &Vec<ast::ConstantVariants>) -> (r: String)
    ensures
        r@ == exception_list_text(v@),
{
    let mut names: Vec<String> = Vec::new();
    let mut i: usize = 0;
    while i < v.len()
        invariant
            i <= v.len(),
            names.len() == i,
            forall|j: int| 0 <= j < i ==> names@[j]@ == constant_text(v@[j]),
        decreases v.len() - i,
    {
        names.push(constant_variants(&v[i]));
        i = i + 1;
    }
    proof {
        assert(texts_of(names@) =~= exception_texts(v@));
    }
    if names.len() == 0 {
        String::new()
    } else {
        let list = join_strings(&names, ", ");
        concat2(" ", list.as_str())
    }
}

fn binding(a: &Option<ast::AccessVariants>) -> (r: String)
    ensures
        r@ == binding_text(*a),
{
    match a {
        Some(variable) => {
            let name = Access(variable).emit();
            concat2(" => ", name.as_str())
        },
        None => String::new(),
    }
}

/// Writes out one rescue clause.
pub fn rescue_clause(c: &ast::RescueBody) -> (r: String)
    ensures
        r@ == rescue_clause_text(*c),
    decreases c, 0nat,
{
    let exceptions = exception_list(&c.exceptions);
    let bound = binding(&c.assignment);
    let mut lines = one_text(enclose("rescue", exceptions.as_str(), bound.as_str()));
    push_texts(&mut lines, expression_list(&c.expressions.0));
    match &c.expressions.1 {
        Some(_) => {
            push_text(&mut lines, String::from_str("retry"));
        },
        None => {},
    }
    proof {
        assert(texts_of(lines@) =~= seq![
            "rescue"@ + exception_list_text(c.exceptions@) + binding_text(c.assignment),
        ] + expression_texts(c.expressions.0@) + retry_texts(c.expressions.1));
    }
    join_strings(&lines, "\n")
}

fn headed(keyword: &str, body: &Vec<ast::Expression>) -> (r: Vec<String>)
    ensures
        texts_of(r@) == seq![keyword@] + expression_texts(body@),
    decreases body, 1nat,
{
    let mut lines = one_text(String::from_str(keyword));
    push_texts(&mut lines, expression_list(body));
    lines
}

fn rescue_tail(t: &Option<ast::RescueEnsureOrElse>) -> (r: Vec<String>)
    ensures
        texts_of(r@) == rescue_tail_texts(*t),
    decreases t, 0nat,
{
    match t {
        Some(ast::RescueEnsureOrElse::Ensure(body)) => headed("ensure", body),
        Some(ast::RescueEnsureOrElse::Else(body)) => headed("else", body),
        None => {
            let out: Vec<String> = Vec::new();
            proof {
                assert(texts_of(out@) =~= Seq::<Seq<char>>::empty());
            }
            out
        },
    }
}

/// Writes out what handles the exceptions of a body, one string for each
/// clause or line.
pub fn rescue_body(b: &ast::RescueBodyVariants) -> (r: Vec<String>)
    ensures
        texts_of(r@) == rescue_body_texts(*b),
    decreases b, 0nat,
{
    match b {
        ast::RescueBodyVariants::Rescue(clauses, tail) => {
            let mut out: Vec<String> = Vec::new();
            let mut i: usize = 0;
            while i < clauses.len()
                invariant
                    i <= clauses.len(),
                    out.len() == i,
                    forall|j: int| 0 <= j < i ==> out@[j]@ == rescue_clause_text(clauses@[j]),
                    decreases_to!(b => clauses),
                decreases clauses.len() - i,
            {
                out.push(rescue_clause(&clauses[i]));
                i = i + 1;
            }
            proof {
                assert(texts_of(out@) =~= rescue_clause_texts(clauses@));
            }
            push_texts(&mut out, rescue_tail(tail));
            out
        },
        ast::RescueBodyVariants::Ensure(body) => headed("ensure", body),
    }
}

/// Writes out an exception handling.
pub fn exception_handling(x: &ast::ExceptionHandlingVariants) -> (r: String)
    ensures
        r@ == exception_handling_text(*x),
    decreases x, 0nat,
{
    match x {
        ast::ExceptionHandlingVariants::InlineRescue(body, handler) => {
            let guarded = Expression(body).emit();
            let fallback = Expression(handler).emit();
            enclose(guarded.as_str(), " rescue ", fallback.as_str())
        },
        ast::ExceptionHandlingVariants::DefRescue(body, handlers) => {
            let mut lines = expression_list(body);
            push_texts(&mut lines, rescue_body(handlers));
            join_strings(&lines, "\n")
        },
        ast::ExceptionHandlingVariants::BeginRescue(body, handlers) => {
            let mut lines = one_text(String::from_str("begin"));
            push_texts(&mut lines, expression_list(body));
            push_texts(&mut lines, rescue_body(handlers));
            push_text(&mut lines, String::from_str("end"));
            proof {
                assert(texts_of(lines@) =~= seq!["begin"@] + expression_texts(body@)
                    + rescue_body_texts(*handlers) + seq!["end"@]);
            }
            join_strings(&lines, "\n")
        },
    }
}

} // verus!
