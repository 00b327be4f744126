//! Emitters for control flow: conditionals, `case`, loops and flip-flops.
//!
//! A chain of `elsif` is walked in a loop: however long it is, it adds
//! nothing to the depth of the calls that writing out a tree takes.

use vstd::prelude::*;
use super::Emitter;
use super::expression::{expression_list, expression_text, expression_texts, Expression};
use super::literals::{
    array_interpolation, array_interpolation_text, array_operand, array_operand_text,
};
use super::operators::left_hand_side_element_text;
use crate::ast;
use crate::text::{
    block, block_text, concat2, enclose, join, join_strings, one_text, push_text, push_texts,
    texts_of,
};

verus! {

/// The lines of a conditional that opens with `keyword` (`if`, or `elsif`
/// inside a chain): the keyword and the condition, the branch on the next
/// line, and then `end`, or `else` with the other branch and `end`, or the
/// lines of the rest of the chain, which opens with `elsif` and ends in one
/// of these two.
pub open spec fn if_chain_lines(b: ast::BranchingIfVariants, keyword: Seq<char>) -> Seq<Seq<char>>
    decreases b, 0nat,
{
    match b {
        ast::BranchingIfVariants::WithoutElse(branch) => seq![
            keyword + " "@ + expression_text(*branch.condition),
            expression_text(*branch.iftrue),
            "end"@,
        ],
        ast::BranchingIfVariants::WithElse(branch) => seq![
            keyword + " "@ + expression_text(*branch.condition),
            expression_text(*branch.iftrue),
            "else"@,
            expression_text(*branch.iffalse),
            "end"@,
        ],
        ast::BranchingIfVariants::WithElsif(branch) => seq![
            keyword + " "@ + expression_text(*branch.condition),
            expression_text(*branch.iftrue),
        ] + if_chain_lines(*branch.elsif, "elsif"@),
    }
}

/// A conditional that opens with `keyword`, its lines one below the other.
pub open spec fn if_chain_text(b: ast::BranchingIfVariants, keyword: Seq<char>) -> Seq<char>
    decreases b, 1nat,
{
    join(if_chain_lines(b, keyword), "\n"@)
}

/// How many times a conditional goes on with `elsif`.
pub open spec fn chain_depth(b: ast::BranchingIfVariants) -> int
    decreases b,
{
    match b {
        ast::BranchingIfVariants::WithElsif(branch) => 1 + chain_depth(*branch.elsif),
        _ => 0,
    }
}

/// The conditional that a chain holds `k` steps down: the chain itself for
/// `k == 0`, what follows its `k`-th `elsif` otherwise.
pub open spec fn chain_link(b: ast::BranchingIfVariants, k: int) -> ast::BranchingIfVariants
    decreases k,
{
    if k <= 0 {
        b
    } else {
        match b {
            ast::BranchingIfVariants::WithElsif(branch) => chain_link(*branch.elsif, k - 1),
            _ => b,
        }
    }
}

/// The condition that a conditional opens with.
pub open spec fn link_condition(b: ast::BranchingIfVariants) -> ast::Expression {
    match b {
        ast::BranchingIfVariants::WithoutElse(branch) => *branch.condition,
        ast::BranchingIfVariants::WithElse(branch) => *branch.condition,
        ast::BranchingIfVariants::WithElsif(branch) => *branch.condition,
    }
}

/// The branch that a conditional takes when its condition holds.
pub open spec fn link_branch(b: ast::BranchingIfVariants) -> ast::Expression {
    match b {
        ast::BranchingIfVariants::WithoutElse(branch) => *branch.iftrue,
        ast::BranchingIfVariants::WithElse(branch) => *branch.iftrue,
        ast::BranchingIfVariants::WithElsif(branch) => *branch.iftrue,
    }
}

/// The lines that close a chain, after the branch of its last conditional:
/// `end`, or `else`, the other branch and `end`.
pub open spec fn closing_lines(last: ast::BranchingIfVariants) -> Seq<Seq<char>> {
    match last {
        ast::BranchingIfVariants::WithElse(branch) => seq![
            "else"@,
            expression_text(*branch.iffalse),
            "end"@,
        ],
        _ => seq!["end"@],
    }
}

proof fn lemma_chain_depth_bound(b: ast::BranchingIfVariants)
    ensures
        0 <= chain_depth(b),
    decreases b,
{
    match b {
        ast::BranchingIfVariants::WithElsif(branch) => {
            lemma_chain_depth_bound(*branch.elsif);
        },
        _ => {},
    }
}

/// A chain that goes on with `elsif` N times is written as N + 1
/// conditions, each with its branch on the next line, and one closing. The
/// first condition stands after `keyword`, each of the N others after
/// `elsif`; the closing is that of the last conditional of the chain, which
/// is no `elsif` itself.
pub proof fn lemma_chain_lines(b: ast::BranchingIfVariants, keyword: Seq<char>, k: int)
    requires
        0 <= k <= chain_depth(b),
    ensures
        if_chain_lines(b, keyword).len() == 2 * (chain_depth(b) + 1) + closing_lines(
            chain_link(b, chain_depth(b)),
        ).len(),
        if_chain_lines(b, keyword)[2 * k] == (if k == 0 {
            keyword
        } else {
            "elsif"@
        }) + " "@ + expression_text(link_condition(chain_link(b, k))),
        if_chain_lines(b, keyword)[2 * k + 1] == expression_text(link_branch(chain_link(b, k))),
        0 <= chain_depth(b),
        chain_link(b, k) is WithElsif <==> k < chain_depth(b),
        if_chain_lines(b, keyword).subrange(
            2 * (chain_depth(b) + 1),
            if_chain_lines(b, keyword).len() as int,
        ) == closing_lines(chain_link(b, chain_depth(b))),
    decreases b,
{
    let lines = if_chain_lines(b, keyword);
    match b {
        ast::BranchingIfVariants::WithElsif(branch) => {
            let rest = if_chain_lines(*branch.elsif, "elsif"@);
            let depth = chain_depth(*branch.elsif);
            lemma_chain_depth_bound(*branch.elsif);
            if k == 0 {
                lemma_chain_lines(*branch.elsif, "elsif"@, 0);
            } else {
                lemma_chain_lines(*branch.elsif, "elsif"@, k - 1);
                assert(lines[2 * k] == rest[2 * (k - 1)]);
                assert(lines[2 * k + 1] == rest[2 * (k - 1) + 1]);
            }
            assert(chain_link(b, chain_depth(b)) == chain_link(*branch.elsif, depth));
            assert(lines.subrange(2 * (chain_depth(b) + 1), lines.len() as int) =~= rest.subrange(
                2 * (depth + 1),
                rest.len() as int,
            ));
        },
        _ => {
            assert(lines.subrange(2, lines.len() as int) =~= closing_lines(b));
        },
    }
}

/// An `unless`: the condition, the branch taken when it is false, and `end`,
/// or `else` with the branch taken when it is true and `end`.
pub open spec fn unless_text(b: ast::BranchingUnlessVariants) -> Seq<char>
    decreases b, 0nat,
{
    match b {
        ast::BranchingUnlessVariants::WithoutElse(branch) => join(
            seq![
                "unless "@ + expression_text(*branch.condition),
                expression_text(*branch.iffalse),
                "end"@,
            ],
            "\n"@,
        ),
        ast::BranchingUnlessVariants::WithElse(branch) => join(
            seq![
                "unless "@ + expression_text(*branch.condition),
                expression_text(*branch.iffalse),
                "else"@,
                expression_text(*branch.iftrue),
                "end"@,
            ],
            "\n"@,
        ),
    }
}

/// An `if` or an `unless`.
pub open spec fn branching_text(b: ast::BranchingVariants) -> Seq<char>
    decreases b, 0nat,
{
    match b {
        ast::BranchingVariants::If(branch) => if_chain_text(branch, "if"@),
        ast::BranchingVariants::Unless(branch) => unless_text(branch),
    }
}

/// The conditional operator: `condition ? iftrue : iffalse`.
pub open spec fn ternary_text(t: ast::TernaryBranching) -> Seq<char>
    decreases t, 0nat,
{
    expression_text(*t.condition) + " ? "@ + expression_text(*t.iftrue) + " : "@ + expression_text(
        *t.iffalse,
    )
}

/// One arm of a `case`: `when` and the pattern, and the body on the next
/// line.
pub open spec fn when_text(w: ast::WhenDefinitionVariants) -> Seq<char>
    decreases w, 0nat,
{
    "when "@ + array_interpolation_text(w.condition) + "\n"@ + expression_text(*w.iftrue)
}

/// The arms of a `case`, in order.
pub open spec fn when_texts(v: Seq<ast::WhenDefinitionVariants>) -> Seq<Seq<char>>
    decreases v, 0nat,
{
    Seq::new(
        v.len(),
        |i: int|
            if 0 <= i < v.len() {
                when_text(v[i])
            } else {
                Seq::empty()
            },
    )
}

/// A space and the expression, if there is one; nothing otherwise.
pub open spec fn operand_text(e: Option<Box<ast::Expression>>) -> Seq<char>
    decreases e, 0nat,
{
    match e {
        Some(operand) => " "@ + expression_text(*operand),
        None => Seq::empty(),
    }
}

/// The default of a `case`: `else` and the body on the next line, if there
/// is one.
pub open spec fn default_texts(e: Option<Box<ast::Expression>>) -> Seq<Seq<char>>
    decreases e, 0nat,
{
    match e {
        Some(body) => seq!["else"@, expression_text(*body)],
        None => Seq::empty(),
    }
}

/// A `case`: the subject if there is one, the arms in order, the default if
/// there is one, and `end`.
pub open spec fn case_text(c: ast::CaseMatching) -> Seq<char>
    decreases c, 0nat,
{
    join(
        seq!["case"@ + operand_text(c.condition)] + when_texts(c.when@) + default_texts(c.default)
            + seq!["end"@],
        "\n"@,
    )
}

/// A statement inside a loop: an expression, or `break`, `next` (each with
/// its value after a space, if it has one) or `redo`.
pub open spec fn in_loop_text(e: ast::InLoopExpression) -> Seq<char>
    decreases e, 0nat,
{
    match e {
        ast::InLoopExpression::Plain(plain) => expression_text(plain),
        ast::InLoopExpression::Break(Some(value)) => "break "@ + expression_text(value),
        ast::InLoopExpression::Break(None) => "break"@,
        ast::InLoopExpression::Next(Some(value)) => "next "@ + expression_text(value),
        ast::InLoopExpression::Next(None) => "next"@,
        ast::InLoopExpression::Redo => "redo"@,
    }
}

/// The statements of a loop, in order.
pub open spec fn in_loop_texts(v: Seq<ast::InLoopExpression>) -> Seq<Seq<char>>
    decreases v, 0nat,
{
    Seq::new(
        v.len(),
        |i: int|
            if 0 <= i < v.len() {
                in_loop_text(v[i])
            } else {
                Seq::empty()
            },
    )
}

/// A loop. With the condition first: `while` or `until` and the condition,
/// the body, `end`. With the condition last: `begin`, the body, `end while`
/// or `end until` and the condition. A `for` loop: the target, `in`, what is
/// iterated, the body, `end`. The body stands on lines of its own.
pub open spec fn loop_text(l: ast::LoopVariants) -> Seq<char>
    decreases l, 0nat,
{
    match l {
        ast::LoopVariants::PreCondition(ast::LoopConditionVariants::While(s)) => block_text(
            "while "@ + expression_text(*s.condition),
            in_loop_texts(s.expressions@),
            "end"@,
        ),
        ast::LoopVariants::PreCondition(ast::LoopConditionVariants::Until(s)) => block_text(
            "until "@ + expression_text(*s.condition),
            in_loop_texts(s.expressions@),
            "end"@,
        ),
        ast::LoopVariants::PostCondition(ast::LoopConditionVariants::While(s)) => block_text(
            "begin"@,
            in_loop_texts(s.expressions@),
            "end while "@ + expression_text(*s.condition),
        ),
        ast::LoopVariants::PostCondition(ast::LoopConditionVariants::Until(s)) => block_text(
            "begin"@,
            in_loop_texts(s.expressions@),
            "end until "@ + expression_text(*s.condition),
        ),
        ast::LoopVariants::ForIn(f) => block_text(
            "for "@ + left_hand_side_element_text(f.assignee) + " in "@ + array_operand_text(
                f.iterator,
            ),
            expression_texts(f.expressions@),
            "end"@,
        ),
    }
}

/// A flip-flop: `if`, the two boundaries around two dots (inclusive) or
/// three (exclusive), the guarded body on lines of its own, and `end`.
pub open spec fn flip_flop_text(f: ast::FlipFlopVariants) -> Seq<char>
    decreases f, 0nat,
{
    match f {
        ast::FlipFlopVariants::Inclusive(ff) => block_text(
            "if "@ + expression_text(*ff.flip) + ".."@ + expression_text(*ff.flop),
            expression_texts(ff.expressions@),
            "end"@,
        ),
        ast::FlipFlopVariants::Exclusive(ff) => block_text(
            "if "@ + expression_text(*ff.flip) + "..."@ + expression_text(*ff.flop),
            expression_texts(ff.expressions@),
            "end"@,
        ),
    }
}

/// `return`, and the value after a space if there is one.
pub open spec fn return_text(e: Option<Box<ast::Expression>>) -> Seq<char>
    decreases e, 1nat,
{
    "return"@ + operand_text(e)
}

/// Writes out a conditional that opens with `keyword`. The chain is walked
/// in a loop, so its length costs no depth of calls.
pub fn if_chain(b: &ast::BranchingIfVariants, keyword: &str) -> (r: String)
    ensures
        r@ == if_chain_text(*b, keyword@),
    decreases b, 1nat,
{
    let mut lines: Vec<String> = Vec::new();
    let mut link = b;
    let mut word = keyword;
    proof {
        assert(texts_of(lines@) + if_chain_lines(*link, word@) =~= if_chain_lines(*b, keyword@));
    }
    loop
        invariant_except_break
            *link == *b || decreases_to!(*b => *link),
            texts_of(lines@) + if_chain_lines(*link, word@) == if_chain_lines(*b, keyword@),
        ensures
            texts_of(lines@) == if_chain_lines(*b, keyword@),
        decreases link,
    {
        let ghost before = texts_of(lines@);
        match link {
            ast::BranchingIfVariants::WithElsif(branch) => {
                let condition = Expression(&branch.condition).emit();
                push_text(&mut lines, enclose(word, " ", condition.as_str()));
                push_text(&mut lines, Expression(&branch.iftrue).emit());
                proof {
                    assert(texts_of(lines@) + if_chain_lines(*branch.elsif, "elsif"@) =~= before
                        + if_chain_lines(*link, word@));
                }
                link = &branch.elsif;
                word = "elsif";
            },
            ast::BranchingIfVariants::WithoutElse(branch) => {
                let condition = Expression(&branch.condition).emit();
                push_text(&mut lines, enclose(word, " ", condition.as_str()));
                push_text(&mut lines, Expression(&branch.iftrue).emit());
                push_text(&mut lines, String::from_str("end"));
                proof {
                    assert(texts_of(lines@) =~= before + if_chain_lines(*link, word@));
                }
                break ;
            },
            ast::BranchingIfVariants::WithElse(branch) => {
                let condition = Expression(&branch.condition).emit();
                push_text(&mut lines, enclose(word, " ", condition.as_str()));
                push_text(&mut lines, Expression(&branch.iftrue).emit());
                push_text(&mut lines, String::from_str("else"));
                push_text(&mut lines, Expression(&branch.iffalse).emit());
                push_text(&mut lines, String::from_str("end"));
                proof {
                    assert(texts_of(lines@) =~= before + if_chain_lines(*link, word@));
                }
                break ;
            },
        }
    }
    join_strings(&lines, "\n")
}

/// Writes out an `unless`.
pub fn unless(b: &ast::BranchingUnlessVariants) -> (r: String)
    ensures
        r@ == unless_text(*b),
    decreases b, 0nat,
{
    match b {
        ast::BranchingUnlessVariants::WithoutElse(branch) => {
            let condition = Expression(&branch.condition).emit();
            let mut lines = one_text(concat2("unless ", condition.as_str()));
            push_text(&mut lines, Expression(&branch.iffalse).emit());
            push_text(&mut lines, String::from_str("end"));
            proof {
                assert(texts_of(lines@) =~= seq![
                    "unless "@ + expression_text(*branch.condition),
                    expression_text(*branch.iffalse),
                    "end"@,
                ]);
            }
            join_strings(&lines, "\n")
        },
        ast::BranchingUnlessVariants::WithElse(branch) => {
            let condition = Expression(&branch.condition).emit();
            let mut lines = one_text(concat2("unless ", condition.as_str()));
            push_text(&mut lines, Expression(&branch.iffalse).emit());
            push_text(&mut lines, String::from_str("else"));
            push_text(&mut lines, Expression(&branch.iftrue).emit());
            push_text(&mut lines, String::from_str("end"));
            proof {
                assert(texts_of(lines@) =~= seq![
                    "unless "@ + expression_text(*branch.condition),
                    expression_text(*branch.iffalse),
                    "else"@,
                    expression_text(*branch.iftrue),
                    "end"@,
                ]);
            }
            join_strings(&lines, "\n")
        },
    }
}

/// Writes out an `if` or an `unless`.
pub fn branching(b: &ast::BranchingVariants) -> (r: String)
    ensures
        r@ == branching_text(*b),
    decreases b, 0nat,
{
    match b {
        ast::BranchingVariants::If(branch) => if_chain(branch, "if"),
        ast::BranchingVariants::Unless(branch) => unless(branch),
    }
}

/// Writes out a conditional operator.
pub fn ternary(t: &ast::TernaryBranching) -> (r: String)
    ensures
        r@ == ternary_text(*t),
    decreases t, 0nat,
{
    let mut out = Expression(&t.condition).emit();
    let iftrue = Expression(&t.iftrue).emit();
    let iffalse = Expression(&t.iffalse).emit();
    out.append(" ? ");
    out.append(iftrue.as_str());
    out.append(" : ");
    out.append(iffalse.as_str());
    out
}

fn operand(e: &Option<Box<ast::Expression>>) -> (r: String)
    ensures
        r@ == operand_text(*e),
    decreases e, 0nat,
{
    match e {
        Some(value) => {
            let written = Expression(value).emit();
            concat2(" ", written.as_str())
        },
        None => String::new(),
    }
}

/// Writes out a `case`.
pub fn case_matching(c: &ast::CaseMatching) -> (r: String)
    ensures
        r@ == case_text(*c),
    decreases c, 0nat,
{
    let subject = operand(&c.condition);
    let mut lines = one_text(concat2("case", subject.as_str()));
    let mut arms: Vec<String> = Vec::new();
    let mut i: usize = 0;
    while i < c.when.len()
        invariant
            i <= c.when.len(),
            arms.len() == i,
            forall|j: int| 0 <= j < i ==> arms@[j]@ == when_text(c.when@[j]),
        decreases c.when.len() - i,
    {
        let pattern = array_interpolation(&c.when[i].condition);
        let body = Expression(&c.when[i].iftrue).emit();
        let mut arm = concat2("when ", pattern.as_str());
        arm.append("\n");
        arm.append(body.as_str());
        arms.push(arm);
        i = i + 1;
    }
    proof {
        assert(texts_of(arms@) =~= when_texts(c.when@));
    }
    push_texts(&mut lines, arms);
    match &c.default {
        Some(body) => {
            push_text(&mut lines, String::from_str("else"));
            push_text(&mut lines, Expression(body).emit());
        },
        None => {},
    }
    push_text(&mut lines, String::from_str("end"));
    proof {
        assert(texts_of(lines@) =~= seq!["case"@ + operand_text(c.condition)] + when_texts(c.when@)
            + default_texts(c.default) + seq!["end"@]);
    }
    join_strings(&lines, "\n")
}

fn in_loop(e: &ast::InLoopExpression) -> (r: String)
    ensures
        r@ == in_loop_text(*e),
    decreases e, 0nat,
{
    match e {
        ast::InLoopExpression::Plain(plain) => Expression(plain).emit(),
        ast::InLoopExpression::Break(Some(value)) => {
            let written = Expression(value).emit();
            concat2("break ", written.as_str())
        },
        ast::InLoopExpression::Break(None) => String::from_str("break"),
        ast::InLoopExpression::Next(Some(value)) => {
            let written = Expression(value).emit();
            concat2("next ", written.as_str())
        },
        ast::InLoopExpression::Next(None) => String::from_str("next"),
        ast::InLoopExpression::Redo => String::from_str("redo"),
    }
}

fn in_loop_list(v: &Vec<ast::InLoopExpression>) -> (r: Vec<String>)
    ensures
        texts_of(r@) == in_loop_texts(v@),
    decreases v, 0nat,
{
    let mut out: Vec<String> = Vec::new();
    let mut i: usize = 0;
    while i < v.len()
        invariant
            i <= v.len(),
            out.len() == i,
            forall|j: int| 0 <= j < i ==> out@[j]@ == in_loop_text(v@[j]),
        decreases v.len() - i,
    {
        out.push(in_loop(&v[i]));
        i = i + 1;
    }
    proof {
        assert(texts_of(out@) =~= in_loop_texts(v@));
    }
    out
}

/// Writes out a loop.
pub fn loop_variants(l: &ast::LoopVariants) -> (r: String)
    ensures
        r@ == loop_text(*l),
    decreases l, 0nat,
{
    match l {
        ast::LoopVariants::PreCondition(ast::LoopConditionVariants::While(s)) => {
            let condition = Expression(&s.condition).emit();
            let head = concat2("while ", condition.as_str());
            block(head, in_loop_list(&s.expressions), "end")
        },
        ast::LoopVariants::PreCondition(ast::LoopConditionVariants::Until(s)) => {
            let condition = Expression(&s.condition).emit();
            let head = concat2("until ", condition.as_str());
            block(head, in_loop_list(&s.expressions), "end")
        },
        ast::LoopVariants::PostCondition(ast::LoopConditionVariants::While(s)) => {
            let condition = Expression(&s.condition).emit();
            let close = concat2("end while ", condition.as_str());
            block(String::from_str("begin"), in_loop_list(&s.expressions), close.as_str())
        },
        ast::LoopVariants::PostCondition(ast::LoopConditionVariants::Until(s)) => {
            let condition = Expression(&s.condition).emit();
            let close = concat2("end until ", condition.as_str());
            block(String::from_str("begin"), in_loop_list(&s.expressions), close.as_str())
        },
        ast::LoopVariants::ForIn(f) => {
            let target = f.assignee.emit();
            let iterated = array_operand(&f.iterator);
            let mut head = concat2("for ", target.as_str());
            head.append(" in ");
            head.append(iterated.as_str());
            block(head, expression_list(&f.expressions), "end")
        },
    }
}

/// Writes out a flip-flop.
pub fn flip_flop(f: &ast::FlipFlopVariants) -> (r: String)
    ensures
        r@ == flip_flop_text(*f),
    decreases f, 0nat,
{
    match f {
        ast::FlipFlopVariants::Inclusive(ff) => {
            let flip = Expression(&ff.flip).emit();
            let flop = Expression(&ff.flop).emit();
            let mut head = concat2("if ", flip.as_str());
            head.append("..");
            head.append(flop.as_str());
            block(head, expression_list(&ff.expressions), "end")
        },
        ast::FlipFlopVariants::Exclusive(ff) => {
            let flip = Expression(&ff.flip).emit();
            let flop = Expression(&ff.flop).emit();
            let mut head = concat2("if ", flip.as_str());
            head.append("...");
            head.append(flop.as_str());
            block(head, expression_list(&ff.expressions), "end")
        },
    }
}

/// Writes out a `return`.
pub fn return_value(e: &Option<Box<ast::Expression>>) -> (r: String)
    ensures
        r@ == return_text(*e),
    decreases e, 1nat,
{
    let value = operand(e);
    concat2("return", value.as_str())
}

} // verus!
