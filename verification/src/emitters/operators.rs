//! Emitters for assignments and for binary and logical operations.

use vstd::prelude::*;
use super::Emitter;
use super::access::{
    access_text, constant_text, constant_variants, global_variable_text, global_variables, Access,
};
use super::expression::{Expression, expression_text, expression_texts, expression_list};
use super::invocation::{send_arguments_text, block_argument_text, send_arguments, block_argument};
use super::literals::{
    array_interpolation, array_interpolation_text, regular_expression_text, RegularExpression,
};
use crate::ast;
use crate::text::{join, texts_of, join_strings, enclose, concat2};

verus! {

/// The token of a binary operator.
pub open spec fn binary_operator_text(op: ast::BinaryOperator) -> Seq<char> {
    match op {
        ast::BinaryOperator::Add => "+"@,
        ast::BinaryOperator::Sub => "-"@,
        ast::BinaryOperator::Or => "|"@,
        ast::BinaryOperator::Xor => "^"@,
        ast::BinaryOperator::And => "&"@,
        ast::BinaryOperator::Multiply => "*"@,
        ast::BinaryOperator::Divide => "/"@,
        ast::BinaryOperator::Mod => "%"@,
        ast::BinaryOperator::LeftShift => "<<"@,
        ast::BinaryOperator::RightShift => ">>"@,
    }
}

/// The token of a logical assignment operator.
pub open spec fn logical_operator_text(op: ast::LogicalOperator) -> Seq<char> {
    match op {
        ast::LogicalOperator::Or => "||"@,
        ast::LogicalOperator::And => "&&"@,
    }
}

/// No two binary operators share a token, and no two logical assignment
/// operators do.
pub proof fn lemma_operator_tokens_distinct()
    ensures
        forall|a: ast::BinaryOperator, b: ast::BinaryOperator|
            binary_operator_text(a) == binary_operator_text(b) ==> a == b,
        forall|a: ast::LogicalOperator, b: ast::LogicalOperator|
            logical_operator_text(a) == logical_operator_text(b) ==> a == b,
{
    reveal_strlit("+");
    reveal_strlit("-");
    reveal_strlit("|");
    reveal_strlit("^");
    reveal_strlit("&");
    reveal_strlit("*");
    reveal_strlit("/");
    reveal_strlit("%");
    reveal_strlit("<<");
    reveal_strlit(">>");
    reveal_strlit("||");
    reveal_strlit("&&");
    assert forall|a: ast::BinaryOperator, b: ast::BinaryOperator|
        binary_operator_text(a) == binary_operator_text(b) implies a == b by {
        let s = binary_operator_text(a);
        let t = binary_operator_text(b);
        assert(s.len() == t.len());
        assert(s[0] == t[0]);
    }
    assert forall|a: ast::LogicalOperator, b: ast::LogicalOperator|
        logical_operator_text(a) == logical_operator_text(b) implies a == b by {
        let s = logical_operator_text(a);
        let t = logical_operator_text(b);
        assert(s[0] == t[0]);
    }
}

/// The token of a binary operator.
pub fn binary_operator(op: &ast::BinaryOperator) -> (r: &'static str)
    ensures
        r@ == binary_operator_text(*op),
{
    match op {
        ast::BinaryOperator::Add => "+",
        ast::BinaryOperator::Sub => "-",
        ast::BinaryOperator::Or => "|",
        ast::BinaryOperator::Xor => "^",
        ast::BinaryOperator::And => "&",
        ast::BinaryOperator::Multiply => "*",
        ast::BinaryOperator::Divide => "/",
        ast::BinaryOperator::Mod => "%",
        ast::BinaryOperator::LeftShift => "<<",
        ast::BinaryOperator::RightShift => ">>",
    }
}

/// The token of a logical assignment operator.
pub fn logical_operator(op: &ast::LogicalOperator) -> (r: &'static str)
    ensures
        r@ == logical_operator_text(*op),
{
    match op {
        ast::LogicalOperator::Or => "||",
        ast::LogicalOperator::And => "&&",
    }
}

/// The targets of a multiple assignment, separated by a comma and a space.
pub open spec fn left_hand_side_text(m: ast::MultipleLeftHandSide) -> Seq<char>
    decreases m,
{
    join(left_hand_side_element_texts(m.0@), ", "@)
}

/// One target of a multiple assignment: an access, an attribute of an
/// access, or a nested list of targets between parentheses.
pub open spec fn left_hand_side_element_text(element: ast::MultipleLeftHandSideElement) -> Seq<
    char,
>
    decreases element,
{
    match element {
        ast::MultipleLeftHandSideElement::PlainAccess(a) => access_text(a),
        ast::MultipleLeftHandSideElement::AttributeAccess(attr) => access_text(attr.receiver)
            + "."@ + attr.attribute.0@,
        ast::MultipleLeftHandSideElement::Nested(m) => "("@ + left_hand_side_text(m) + ")"@,
    }
}

/// The targets of a multiple assignment, in order.
pub open spec fn left_hand_side_element_texts(
    v: Seq<ast::MultipleLeftHandSideElement>,
) -> Seq<Seq<char>>
    decreases v,
{
    Seq::new(
        v.len(),
        |i: int|
            if 0 <= i < v.len() {
                left_hand_side_element_text(v[i])
            } else {
                Seq::empty()
            },
    )
}

impl Emitter for ast::MultipleLeftHandSideElement {
    open spec fn text(&self) -> Seq<char> {
        left_hand_side_element_text(*self)
    }

    fn emit(&self) -> (r: String)
        decreases self,
    {
        match self {
            ast::MultipleLeftHandSideElement::PlainAccess(a) => Access(a).emit(),
            ast::MultipleLeftHandSideElement::AttributeAccess(attr) => {
                let receiver = Access(&attr.receiver).emit();
                enclose(receiver.as_str(), ".", attr.attribute.0.as_str())
            },
            ast::MultipleLeftHandSideElement::Nested(m) => {
                let inner = left_hand_side(m);
                enclose("(", inner.as_str(), ")")
            },
        }
    }
}

/// Writes out the targets of a multiple assignment.
pub fn left_hand_side(m: &ast::MultipleLeftHandSide) -> (r: String)
    ensures
        r@ == left_hand_side_text(*m),
    decreases m,
{
    let mut targets: Vec<String> = Vec::new();
    let mut i: usize = 0;
    while i < m.0.len()
        invariant
            i <= m.0.len(),
            targets.len() == i,
            forall|j: int| 0 <= j < i ==> targets@[j]@ == left_hand_side_element_text(m.0@[j]),
        decreases m.0.len() - i,
    {
        targets.push(m.0[i].emit());
        i = i + 1;
    }
    proof {
        assert(texts_of(targets@) =~= left_hand_side_element_texts(m.0@));
    }
    join_strings(&targets, ", ")
}

/// The target of an attribute assignment: the receiver, an index between
/// square brackets if there is one, a dot, and the attribute's name.
pub open spec fn attribute_target_text(a: ast::SendMethodAssignmentVariants) -> Seq<char>
    decreases a, 0nat,
{
    match a {
        ast::SendMethodAssignmentVariants::Plain(plain) => expression_text(*plain.receiver) + "."@
            + plain.method.name.0@,
        ast::SendMethodAssignmentVariants::WithIndex(indexed) => expression_text(
            *indexed.receiver,
        ) + "["@ + expression_text(*indexed.index) + "]."@ + indexed.method.name.0@,
    }
}

/// The value of an attribute assignment: the arguments of its method.
pub open spec fn attribute_value_text(a: ast::SendMethodAssignmentVariants) -> Seq<char>
    decreases a, 0nat,
{
    match a {
        ast::SendMethodAssignmentVariants::Plain(plain) => send_arguments_text(plain.method.args)
            + block_argument_text(plain.method.args.1),
        ast::SendMethodAssignmentVariants::WithIndex(indexed) => send_arguments_text(
            indexed.method.args,
        ) + block_argument_text(indexed.method.args.1),
    }
}

/// An assignment: the target, ` = ` and the value. An operator assignment
/// sets the operator's token directly before the `=`.
pub open spec fn assignment_text(a: ast::AssignmentVariants) -> Seq<char>
    decreases a, 0nat,
{
    match a {
        ast::AssignmentVariants::ToLocalVariable(v, e) => v.0@ + " = "@ + expression_text(*e),
        ast::AssignmentVariants::ToInstanceVariable(v, e) => "@"@ + v.0@ + " = "@
            + expression_text(*e),
        ast::AssignmentVariants::ToClassVariable(v, e) => "@@"@ + v.0@ + " = "@ + expression_text(
            *e,
        ),
        ast::AssignmentVariants::ToGlobalVariable(g, e) => global_variable_text(g) + " = "@
            + expression_text(*e),
        ast::AssignmentVariants::ToConstant(c, e) => constant_text(c) + " = "@ + expression_text(
            *e,
        ),
        ast::AssignmentVariants::ToAttribute(attr) => attribute_target_text(attr) + " = "@
            + attribute_value_text(attr),
        ast::AssignmentVariants::MultipleAssignment(lhs, rhs) => left_hand_side_text(lhs) + " = "@
            + array_interpolation_text(*rhs.0),
        ast::AssignmentVariants::BinaryOperator(op, target, e) => access_text(target) + " "@
            + binary_operator_text(op) + "= "@ + expression_text(*e),
        ast::AssignmentVariants::LogicalOperator(op, target, e) => access_text(target) + " "@
            + logical_operator_text(op) + "= "@ + expression_text(*e),
    }
}

fn attribute_target(a: &ast::SendMethodAssignmentVariants) -> (r: String)
    ensures
        r@ == attribute_target_text(*a),
    decreases a, 0nat,
{
    match a {
        ast::SendMethodAssignmentVariants::Plain(plain) => {
            let receiver = Expression(&plain.receiver).emit();
            enclose(receiver.as_str(), ".", plain.method.name.0.as_str())
        },
        ast::SendMethodAssignmentVariants::WithIndex(indexed) => {
            let mut out = Expression(&indexed.receiver).emit();
            let index = Expression(&indexed.index).emit();
            out.append("[");
            out.append(index.as_str());
            out.append("].");
            out.append(indexed.method.name.0.as_str());
            out
        },
    }
}

fn attribute_value(a: &ast::SendMethodAssignmentVariants) -> (r: String)
    ensures
        r@ == attribute_value_text(*a),
    decreases a, 0nat,
{
    match a {
        ast::SendMethodAssignmentVariants::Plain(plain) => {
            let arguments = send_arguments(&plain.method.args);
            let trailing = block_argument(&plain.method.args.1);
            concat2(arguments.as_str(), trailing.as_str())
        },
        ast::SendMethodAssignmentVariants::WithIndex(indexed) => {
            let arguments = send_arguments(&indexed.method.args);
            let trailing = block_argument(&indexed.method.args.1);
            concat2(arguments.as_str(), trailing.as_str())
        },
    }
}

/// Writes out an assignment.
pub fn assignment(a: &ast::AssignmentVariants) -> (r: String)
    ensures
        r@ == assignment_text(*a),
    decreases a, 0nat,
{
    match a {
        ast::AssignmentVariants::ToLocalVariable(v, e) => {
            let value = Expression(e).emit();
            enclose(v.0.as_str(), " = ", value.as_str())
        },
        ast::AssignmentVariants::ToInstanceVariable(v, e) => {
            let value = Expression(e).emit();
            let mut out = concat2("@", v.0.as_str());
            out.append(" = ");
            out.append(value.as_str());
            out
        },
        ast::AssignmentVariants::ToClassVariable(v, e) => {
            let value = Expression(e).emit();
            let mut out = concat2("@@", v.0.as_str());
            out.append(" = ");
            out.append(value.as_str());
            out
        },
        ast::AssignmentVariants::ToGlobalVariable(g, e) => {
            let target = global_variables(g);
            let value = Expression(e).emit();
            enclose(target.as_str(), " = ", value.as_str())
        },
        ast::AssignmentVariants::ToConstant(c, e) => {
            let target = constant_variants(c);
            let value = Expression(e).emit();
            enclose(target.as_str(), " = ", value.as_str())
        },
        ast::AssignmentVariants::ToAttribute(attr) => {
            let target = attribute_target(attr);
            let value = attribute_value(attr);
            enclose(target.as_str(), " = ", value.as_str())
        },
        ast::AssignmentVariants::MultipleAssignment(lhs, rhs) => {
            let targets = left_hand_side(lhs);
            let value = array_interpolation(&rhs.0);
            enclose(targets.as_str(), " = ", value.as_str())
        },
        ast::AssignmentVariants::BinaryOperator(op, target, e) => {
            let mut out = Access(target).emit();
            let value = Expression(e).emit();
            out.append(" ");
            out.append(binary_operator(op));
            out.append("= ");
            out.append(value.as_str());
            out
        },
        ast::AssignmentVariants::LogicalOperator(op, target, e) => {
            let mut out = Access(target).emit();
            let value = Expression(e).emit();
            out.append(" ");
            out.append(logical_operator(op));
            out.append("= ");
            out.append(value.as_str());
            out
        },
    }
}

/// An operation: expressions between parentheses, one per line; two operands
/// around the operator's token, a space on each side; or `!` before the
/// negated operand.
pub open spec fn operation_text(o: ast::OperationVariants) -> Seq<char>
    decreases o, 0nat,
{
    match o {
        ast::OperationVariants::Paren(v) => "("@ + join(expression_texts(v@), "\n"@) + ")"@,
        ast::OperationVariants::BinaryExpression(b) => expression_text(*b.lefthand) + " "@
            + binary_operator_text(b.operator) + " "@ + expression_text(*b.righthand),
        ast::OperationVariants::Not(e) => "!"@ + expression_text(*e),
    }
}

/// Writes out an operation.
pub fn operation(o: &ast::OperationVariants) -> (r: String)
    ensures
        r@ == operation_text(*o),
    decreases o, 0nat,
{
    match o {
        ast::OperationVariants::Paren(v) => {
            let lines = expression_list(v);
            let inner = join_strings(&lines, "\n");
            enclose("(", inner.as_str(), ")")
        },
        ast::OperationVariants::BinaryExpression(b) => {
            let mut out = Expression(&b.lefthand).emit();
            let right = Expression(&b.righthand).emit();
            out.append(" ");
            out.append(binary_operator(&b.operator));
            out.append(" ");
            out.append(right.as_str());
            out
        },
        ast::OperationVariants::Not(e) => {
            let operand = Expression(e).emit();
            concat2("!", operand.as_str())
        },
    }
}

/// A logical operation: two operands around the token of the operation, a
/// space on each side; `not` before a negated operand; the subject of a
/// match, `=~` and the regular expression.
pub open spec fn logical_operation_text(l: ast::LogicalOperationVariants) -> Seq<char>
    decreases l, 0nat,
{
    match l {
        ast::LogicalOperationVariants::Equal(a, b) => expression_text(*a) + " == "@
            + expression_text(*b),
        ast::LogicalOperationVariants::And(a, b) => expression_text(*a) + " & "@ + expression_text(
            *b,
        ),
        ast::LogicalOperationVariants::LowerPrecedenceAnd(a, b) => expression_text(*a) + " and "@
            + expression_text(*b),
        ast::LogicalOperationVariants::Or(a, b) => expression_text(*a) + " | "@ + expression_text(
            *b,
        ),
        ast::LogicalOperationVariants::LowerPrecedenceOr(a, b) => expression_text(*a) + " or "@
            + expression_text(*b),
        ast::LogicalOperationVariants::DoubleAmpersands(a, b) => expression_text(*a) + " && "@
            + expression_text(*b),
        ast::LogicalOperationVariants::DoublePipes(a, b) => expression_text(*a) + " || "@
            + expression_text(*b),
        ast::LogicalOperationVariants::Not(e) => "not "@ + expression_text(*e),
        ast::LogicalOperationVariants::Match(m) => expression_text(*m.expression) + " =~ "@
            + regular_expression_text(m.regex),
    }
}

/// Writes out a logical operation.
pub fn logical_operation(l: &ast::LogicalOperationVariants) -> (r: String)
    ensures
        r@ == logical_operation_text(*l),
    decreases l, 0nat,
{
    match l {
        ast::LogicalOperationVariants::Equal(a, b) => {
            let left = Expression(a).emit();
            let right = Expression(b).emit();
            enclose(left.as_str(), " == ", right.as_str())
        },
        ast::LogicalOperationVariants::And(a, b) => {
            let left = Expression(a).emit();
            let right = Expression(b).emit();
            enclose(left.as_str(), " & ", right.as_str())
        },
        ast::LogicalOperationVariants::LowerPrecedenceAnd(a, b) => {
            let left = Expression(a).emit();
            let right = Expression(b).emit();
            enclose(left.as_str(), " and ", right.as_str())
        },
        ast::LogicalOperationVariants::Or(a, b) => {
            let left = Expression(a).emit();
            let right = Expression(b).emit();
            enclose(left.as_str(), " | ", right.as_str())
        },
        ast::LogicalOperationVariants::LowerPrecedenceOr(a, b) => {
            let left = Expression(a).emit();
            let right = Expression(b).emit();
            enclose(left.as_str(), " or ", right.as_str())
        },
        ast::LogicalOperationVariants::DoubleAmpersands(a, b) => {
            let left = Expression(a).emit();
            let right = Expression(b).emit();
            enclose(left.as_str(), " && ", right.as_str())
        },
        ast::LogicalOperationVariants::DoublePipes(a, b) => {
            let left = Expression(a).emit();
            let right = Expression(b).emit();
            enclose(left.as_str(), " || ", right.as_str())
        },
        ast::LogicalOperationVariants::Not(e) => {
            let operand = Expression(e).emit();
            concat2("not ", operand.as_str())
        },
        ast::LogicalOperationVariants::Match(m) => {
            let subject = Expression(&m.expression).emit();
            let pattern = RegularExpression(&m.regex).emit();
            enclose(subject.as_str(), " =~ ", pattern.as_str())
        },
    }
}

} // verus!
