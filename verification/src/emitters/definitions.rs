//! Emitters for definitions: classes, modules and methods, and for `undef`
//! and `alias`.

use vstd::prelude::*;
use super::Emitter;
use super::access::{constant_text, constant_variants, global_variable_text, global_variables};
use super::arguments::{formal_argument, formal_argument_text};
use super::expression::{expression_list, expression_texts};
use super::literals::{symbol_text, SymVal};
use crate::ast;
use crate::text::{block, block_text, concat2, enclose, join, join_strings, texts_of};

verus! {

/// The name of an instance method: the name itself, or `[]` for the index
/// method.
pub open spec fn method_name_text(name: ast::VariableOrIndex) -> Seq<char> {
    match name {
        ast::VariableOrIndex::Variable(v) => v.0@,
        ast::VariableOrIndex::Index => "[]"@,
    }
}

/// A method definition: `def`, the name (after `self.` for a singleton
/// method), the parameters between parentheses, the body on lines of its
/// own, and `end`.
pub open spec fn method_definition_text(m: ast::MethodDefinitionVariants) -> Seq<char>
    decreases m, 0nat,
{
    match m {
        ast::MethodDefinitionVariants::Instance(method) => block_text(
            "def "@ + method_name_text(method.name) + "("@ + formal_argument_text(method.args)
                + ")"@,
            expression_texts(method.expressions@),
            "end"@,
        ),
        ast::MethodDefinitionVariants::Singleton(method) => block_text(
            "def self."@ + method.name.0@ + "("@ + formal_argument_text(method.args) + ")"@,
            expression_texts(method.expressions@),
            "end"@,
        ),
    }
}

/// ` < ` and the parent of a class, if it names one.
pub open spec fn parent_text(parent: Option<ast::ConstantVariants>) -> Seq<char> {
    match parent {
        Some(c) => " < "@ + constant_text(c),
        None => Seq::empty(),
    }
}

/// A class definition: `class`, the name and the parent if there is one, or
/// `class << self` for a singleton class; the body on lines of its own, and
/// `end`.
pub open spec fn class_definition_text(c: ast::ClassDefinitionVariants) -> Seq<char>
    decreases c, 0nat,
{
    match c {
        ast::ClassDefinitionVariants::Class(class) => block_text(
            "class "@ + constant_text(class.name) + parent_text(class.parent),
            expression_texts(class.expressions@),
            "end"@,
        ),
        ast::ClassDefinitionVariants::Singleton(class) => block_text(
            "class << self"@,
            expression_texts(class.expressions@),
            "end"@,
        ),
    }
}

/// A module definition: `module` and the name, the body on lines of its
/// own, and `end`.
pub open spec fn module_definition_text(m: ast::ModuleDefinition) -> Seq<char>
    decreases m, 0nat,
{
    block_text("module "@ + constant_text(m.name), expression_texts(m.expressions@), "end"@)
}

/// The names of methods, each written as a symbol, in order.
pub open spec fn method_symbol_texts(v: Seq<ast::StringLiteral>) -> Seq<Seq<char>>
    decreases v, 0nat,
{
    Seq::new(
        v.len(),
        |i: int|
            if 0 <= i < v.len() {
                ":"@ + symbol_text(v[i])
            } else {
                Seq::empty()
            },
    )
}

/// `undef` and the names of the methods, as symbols, separated by a comma
/// and a space.
pub open spec fn method_undefinition_text(u: ast::MethodUndefinition) -> Seq<char>
    decreases u, 0nat,
{
    "undef "@ + join(method_symbol_texts(u.0@), ", "@)
}

/// `alias`, the new name and the old name: methods as symbols, global
/// variables as they are written.
pub open spec fn aliasing_text(a: ast::AliasingVariants) -> Seq<char>
    decreases a, 0nat,
{
    match a {
        ast::AliasingVariants::Method(method) => "alias :"@ + symbol_text(method.newname) + " :"@
            + symbol_text(method.oldname),
        ast::AliasingVariants::GlobalVariable(variable) => "alias "@ + global_variable_text(
            variable.newname,
        ) + " "@ + global_variable_text(variable.oldname),
    }
}

/// `BEGIN {`, the body on lines of its own, and `}`.
pub open spec fn begin_block_text(body: Seq<ast::Expression>) -> Seq<char>
    decreases body, 1nat,
{
    block_text("BEGIN {"@, expression_texts(body), "}"@)
}

/// `END {`, the body on lines of its own, and `}`.
pub open spec fn end_block_text(body: Seq<ast::Expression>) -> Seq<char>
    decreases body, 1nat,
{
    block_text("END {"@, expression_texts(body), "}"@)
}

/// Writes out a `BEGIN` block.
pub fn begin_block(body: &Vec<ast::Expression>) -> (r: String)
    ensures
        r@ == begin_block_text(body@),
    decreases body, 1nat,
{
    block(String::from_str("BEGIN {"), expression_list(body), "}")
}

/// Writes out an `END` block.
pub fn end_block(body: &Vec<ast::Expression>) -> (r: String)
    ensures
        r@ == end_block_text(body@),
    decreases body, 1nat,
{
    block(String::from_str("END {"), expression_list(body), "}")
}

impl Emitter for ast::BEGINBlock {
    open spec fn text(&self) -> Seq<char> {
        begin_block_text(self.0@)
    }

    fn emit(&self) -> (r: String) {
        begin_block(&self.0)
    }
}

impl Emitter for ast::ENDBlock {
    open spec fn text(&self) -> Seq<char> {
        end_block_text(self.0@)
    }

    fn emit(&self) -> (r: String) {
        end_block(&self.0)
    }
}

fn method_name(name: &ast::VariableOrIndex) -> (r: String)
    ensures
        r@ == method_name_text(*name),
{
    match name {
        ast::VariableOrIndex::Variable(v) => String::from_str(v.0.as_str()),
        ast::VariableOrIndex::Index => String::from_str("[]"),
    }
}

/// Writes out a method definition.
pub fn method_definition(m: &ast::MethodDefinitionVariants) -> (r: String)
    ensures
        r@ == method_definition_text(*m),
    decreases m, 0nat,
{
    match m {
        ast::MethodDefinitionVariants::Instance(method) => {
            let name = method_name(&method.name);
            let parameters = formal_argument(&method.args);
            let mut head = concat2("def ", name.as_str());
            head.append("(");
            head.append(parameters.as_str());
            head.append(")");
            block(head, expression_list(&method.expressions), "end")
        },
        ast::MethodDefinitionVariants::Singleton(method) => {
            let parameters = formal_argument(&method.args);
            let mut head = concat2("def self.", method.name.0.as_str());
            head.append("(");
            head.append(parameters.as_str());
            head.append(")");
            block(head, expression_list(&method.expressions), "end")
        },
    }
}

fn parent(name: &Option<ast::ConstantVariants>) -> (r: String)
    ensures
        r@ == parent_text(*name),
{
    match name {
        Some(c) => {
            let name = constant_variants(c);
            concat2(" < ", name.as_str())
        },
        None => String::new(),
    }
}

/// Writes out a class definition.
pub fn class_definition(c: &ast::ClassDefinitionVariants) -> (r: String)
    ensures
        r@ == class_definition_text(*c),
    decreases c, 0nat,
{
    match c {
        ast::ClassDefinitionVariants::Class(class) => {
            let name = constant_variants(&class.name);
            let inherits = parent(&class.parent);
            let head = enclose("class ", name.as_str(), inherits.as_str());
            block(head, expression_list(&class.expressions), "end")
        },
        ast::ClassDefinitionVariants::Singleton(class) => block(
            String::from_str("class << self"),
            expression_list(&class.expressions),
            "end",
        ),
    }
}

/// Writes out a module definition.
pub fn module_definition(m: &ast::ModuleDefinition) -> (r: String)
    ensures
        r@ == module_definition_text(*m),
    decreases m, 0nat,
{
    let name = constant_variants(&m.name);
    let head = concat2("module ", name.as_str());
    block(head, expression_list(&m.expressions), "end")
}

/// Writes out an `undef`.
pub fn method_undefinition(u: &ast::MethodUndefinition) -> (r: String)
    ensures
        r@ == method_undefinition_text(*u),
    decreases u, 0nat,
{
    let mut names: Vec<String> = Vec::new();
    let mut i: usize = 0;
    while i < u.0.len()
        invariant
            i <= u.0.len(),
            names.len() == i,
            forall|j: int| 0 <= j < i ==> names@[j]@ == ":"@ + symbol_text(u.0@[j]),
        decreases u.0.len() - i,
    {
        let name = SymVal(&u.0[i]).emit();
        names.push(concat2(":", name.as_str()));
        i = i + 1;
    }
    proof {
        assert(texts_of(names@) =~= method_symbol_texts(u.0@));
    }
    let list = join_strings(&names, ", ");
    concat2("undef ", list.as_str())
}

/// Writes out an `alias`.
pub fn aliasing(a: &ast::AliasingVariants) -> (r: String)
    ensures
        r@ == aliasing_text(*a),
    decreases a, 0nat,
{
    match a {
        ast::AliasingVariants::Method(method) => {
            let newname = SymVal(&method.newname).emit();
            let oldname = SymVal(&method.oldname).emit();
            let mut out = concat2("alias :", newname.as_str());
            out.append(" :");
            out.append(oldname.as_str());
            out
        },
        ast::AliasingVariants::GlobalVariable(variable) => {
            let newname = global_variables(&variable.newname);
            let oldname = global_variables(&variable.oldname);
            let mut out = concat2("alias ", newname.as_str());
            out.append(" ");
            out.append(oldname.as_str());
            out
        },
    }
}

} // verus!
