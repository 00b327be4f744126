//! Emitter for accesses: `self`, variables of every scope, and constants.

use vstd::prelude::*;
use super::Emitter;
use crate::ast::{AccessVariants, Constant, ConstantVariants, GlobalVariable, Variable};
use crate::text::{
    concat2, decimal, integer_text, join, join_strings, lemma_join_keeps_pieces, piece_start,
    texts_of,
};

verus! {

/// Emitter of an access.
pub struct Access<'a>(pub &'a AccessVariants);

/// The name of a variable, as it stands.
pub open spec fn variable_text(v: Variable) -> Seq<char> {
    v.0@
}

impl Emitter for Variable {
    open spec fn text(&self) -> Seq<char> {
        variable_text(*self)
    }

    fn emit(&self) -> (r: String) {
        String::from_str(self.0.as_str())
    }
}

/// A global variable: a dollar sign, then its name, the number of a match
/// group, or the one character of a special global.
pub open spec fn global_variable_text(g: GlobalVariable) -> Seq<char> {
    match g {
        GlobalVariable::Plain(v) => "$"@ + v.0@,
        GlobalVariable::NthReference(i) => "$"@ + decimal(i.0 as int),
        GlobalVariable::Colon => "$:"@,
        GlobalVariable::Splat => "$*"@,
        GlobalVariable::QuestionMark => "$?"@,
        GlobalVariable::Dollar => "$$"@,
        GlobalVariable::Tilde => "$~"@,
        GlobalVariable::Ampersand => "$&"@,
        GlobalVariable::Plus => "$+"@,
        GlobalVariable::Backtick => "$`"@,
        GlobalVariable::Aposthrope => "$'"@,
        GlobalVariable::Bang => "$!"@,
        GlobalVariable::AtSymbol => "$@"@,
    }
}

/// The names of the segments of a scoped constant, in order.
pub open spec fn constant_names(segments: Seq<Constant>) -> Seq<Seq<char>> {
    Seq::new(segments.len(), |i: int| segments[i].0@)
}

/// A constant: its segments joined by `::` when scoped, `::` before the name
/// at top level, the bare name otherwise; the three magic constants are fixed
/// words.
pub open spec fn constant_text(c: ConstantVariants) -> Seq<char> {
    match c {
        ConstantVariants::TopLevel(name) => "::"@ + name.0@,
        ConstantVariants::Scoped(segments) => join(constant_names(segments@), "::"@),
        ConstantVariants::Unscoped(name) => name.0@,
        ConstantVariants::File => "__FILE__"@,
        ConstantVariants::Line => "__LINE__"@,
        ConstantVariants::Encoding => "__ENCODING__"@,
    }
}

/// A scoped constant keeps the order of its segments: segment `i` stands
/// unchanged in the text, after the segments before it and a `::` for each
/// of them.
pub proof fn lemma_segments_keep_order(segments: Vec<Constant>, i: int)
    requires
        0 <= i < segments@.len(),
    ensures
        constant_names(segments@)[i] == segments@[i].0@,
        constant_text(ConstantVariants::Scoped(segments)).subrange(
            piece_start(constant_names(segments@), "::"@, i),
            piece_start(constant_names(segments@), "::"@, i) + segments@[i].0@.len(),
        ) == segments@[i].0@,
{
    lemma_join_keeps_pieces(constant_names(segments@), "::"@, i);
}

/// A valid constant whose names are not empty is not written as nothing.
pub proof fn lemma_constant_text_not_empty(c: ConstantVariants)
    requires
        c.is_valid(),
        match c {
            ConstantVariants::TopLevel(name) => name.0@.len() > 0,
            ConstantVariants::Scoped(segments) => forall|i: int|
                0 <= i < segments@.len() ==> (#[trigger] segments@[i]).0@.len() > 0,
            ConstantVariants::Unscoped(name) => name.0@.len() > 0,
            _ => true,
        },
    ensures
        constant_text(c).len() > 0,
{
    reveal_strlit("__FILE__");
    reveal_strlit("__LINE__");
    reveal_strlit("__ENCODING__");
    match c {
        ConstantVariants::Scoped(segments) => {
            assert(segments@[0].0@.len() > 0);
            lemma_join_keeps_pieces(constant_names(segments@), "::"@, 0);
        },
        _ => {},
    }
}

/// An access: `self`, a local name, `@` before an instance variable, `@@`
/// before a class variable, a global variable, or a constant.
pub open spec fn access_text(a: AccessVariants) -> Seq<char> {
    match a {
        AccessVariants::_Self => "self"@,
        AccessVariants::LocalVariable(v) => v.0@,
        AccessVariants::InstanceVariable(v) => "@"@ + v.0@,
        AccessVariants::ClassVariable(v) => "@@"@ + v.0@,
        AccessVariants::GlobalVariable(g) => global_variable_text(g),
        AccessVariants::Constant(c) => constant_text(c),
    }
}

impl<'a> Emitter for Access<'a> {
    open spec fn text(&self) -> Seq<char> {
        access_text(*self.0)
    }

    fn emit(&self) -> (r: String) {
        match self.0 {
            AccessVariants::ClassVariable(cv) => concat2("@@", cv.0.as_str()),
            AccessVariants::Constant(c) => constant_variants(c),
            AccessVariants::GlobalVariable(g) => global_variables(g),
            AccessVariants::InstanceVariable(iv) => concat2("@", iv.0.as_str()),
            AccessVariants::LocalVariable(v) => String::from_str(v.0.as_str()),
            AccessVariants::_Self => String::from_str("self"),
        }
    }
}

/// Writes out a constant.
pub fn constant_variants(c: &ConstantVariants) -> (r: String)
    ensures
        r@ == constant_text(*c),
{
    match c {
        ConstantVariants::Encoding => String::from_str("__ENCODING__"),
        ConstantVariants::File => String::from_str("__FILE__"),
        ConstantVariants::Line => String::from_str("__LINE__"),
        ConstantVariants::Scoped(vc) => {
            let mut names: Vec<String> = Vec::new();
            let mut i: usize = 0;
            while i < vc.len()
                invariant
                    i <= vc.len(),
                    names.len() == i,
                    forall|j: int| 0 <= j < i ==> names@[j]@ == vc@[j].0@,
                decreases vc.len() - i,
            {
                names.push(String::from_str(vc[i].0.as_str()));
                i = i + 1;
            }
            proof {
                assert(texts_of(names@) =~= constant_names(vc@));
            }
            join_strings(&names, "::")
        },
        ConstantVariants::TopLevel(tlc) => concat2("::", tlc.0.as_str()),
        ConstantVariants::Unscoped(uc) => String::from_str(uc.0.as_str()),
    }
}

/// Writes out a global variable.
pub fn global_variables(g: &GlobalVariable) -> (r: String)
    ensures
        r@ == global_variable_text(*g),
{
    match g {
        GlobalVariable::Ampersand => String::from_str("$&"),
        GlobalVariable::Aposthrope => String::from_str("$'"),
        GlobalVariable::AtSymbol => String::from_str("$@"),
        GlobalVariable::Backtick => String::from_str("$`"),
        GlobalVariable::Bang => String::from_str("$!"),
        GlobalVariable::Colon => String::from_str("$:"),
        GlobalVariable::Dollar => String::from_str("$$"),
        GlobalVariable::NthReference(i) => {
            let digits = integer_text(i.0);
            concat2("$", digits.as_str())
        },
        GlobalVariable::Plain(pv) => concat2("$", pv.0.as_str()),
        GlobalVariable::Plus => String::from_str("$+"),
        GlobalVariable::QuestionMark => String::from_str("$?"),
        GlobalVariable::Splat => String::from_str("$*"),
        GlobalVariable::Tilde => String::from_str("$~"),
    }
}

} // verus!
