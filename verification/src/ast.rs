//! Abstract syntax tree representation for Ruby programming language.

use vstd::prelude::*;
use crate::text::{decimal_text_ok, is_decimal_text};

verus! {

/// Represent ruby source code as a list of expressions, in the order they
/// stand in the source.
pub struct Root {
    pub expressions: Vec<Expression>,
}

/// Expression in ruby can be split into some more specific types.
/// For example class definition is an expression. a single literal value
/// is also an expression. Even an assignment is also an expression.
pub enum Expression {
    Literal(ValueVariants),
    Access(AccessVariants),
    Assignment(AssignmentVariants),
    ClassDefinition(ClassDefinitionVariants),
    ModuleDefinition(ModuleDefinition),
    MethodDefinition(MethodDefinitionVariants),
    MethodUndefinition(MethodUndefinition),
    Aliasing(AliasingVariants),
    SendMethod(SendMethodVariants),
    Operation(OperationVariants),
    LogicalOperation(LogicalOperationVariants),
    Branching(BranchingVariants),
    TernaryBranching(TernaryBranching),
    CaseMatching(CaseMatching),
    Loop(LoopVariants),
    Return(Option<Box<Expression>>),
    ExceptionHandling(ExceptionHandlingVariants),
    BEGINBlock(Vec<Expression>),
    ENDBlock(Vec<Expression>),
    FlipFlop(FlipFlopVariants),
}

/// Represent variants of literal value.
pub enum ValueVariants {
    Singleton(SingletonVariants),
    Integer(IntegerLiteral),
    Float(FloatLiteral),
    Complex(ComplexLiteral),
    Rational(RationalLiteral),
    String(StringLiteral),
    Symbol(StringLiteral),
    HereDocument(HereDocumentVariants),
    ExecuteString(StringLiteral),
    RegularExpression(RegularExpression),
    Array(ArrayLiteral),
    Hash(HashLiteral),
    Range(RangeLiteral),
}

/// In ruby, true, false, and nil are categorized as singleton value.
pub enum SingletonVariants {
    True,
    False,
    Nil,
}

/// Literal representation for signed integer. It holds the value, not the
/// digits it was written with: underscores, radix prefixes and leading zeros
/// of the source are not kept.
pub struct IntegerLiteral(pub i64);

/// Literal representation for float, held as the decimal form of its value
/// (`1.5`, `-0.25`, `3`): the digits are emitted as they stand.
pub struct FloatLiteral(pub String);

impl FloatLiteral {
    /// Whether the literal holds the decimal form of a number.
    pub open spec fn is_valid(&self) -> bool {
        is_decimal_text(self.0@)
    }

    /// The literal that holds `text`, if `text` is the decimal form of a
    /// number.
    pub fn new(text: String) -> (r: Option<FloatLiteral>)
        ensures
            match r {
                Some(literal) => literal.0 == text && literal.is_valid(),
                None => !is_decimal_text(text@),
            },
    {
        if decimal_text_ok(text.as_str()) {
            Some(FloatLiteral(text))
        } else {
            None
        }
    }

    /// Whether the literal holds the decimal form of a number.
    pub fn is_ok(&self) -> (r: bool)
        ensures
            r == self.is_valid(),
    {
        decimal_text_ok(self.0.as_str())
    }
}

/// Literal representation for rational number, held as the decimal form of
/// its value. A decimal cannot hold every ratio exactly (`1/3r` has none),
/// so a rational literal may come back as an approximation of its source.
pub struct RationalLiteral(pub String);

impl RationalLiteral {
    /// Whether the literal holds the decimal form of a number.
    pub open spec fn is_valid(&self) -> bool {
        is_decimal_text(self.0@)
    }

    /// The literal that holds `text`, if `text` is the decimal form of a
    /// number.
    pub fn new(text: String) -> (r: Option<RationalLiteral>)
        ensures
            match r {
                Some(literal) => literal.0 == text && literal.is_valid(),
                None => !is_decimal_text(text@),
            },
    {
        if decimal_text_ok(text.as_str()) {
            Some(RationalLiteral(text))
        } else {
            None
        }
    }

    /// Whether the literal holds the decimal form of a number.
    pub fn is_ok(&self) -> (r: bool)
        ensures
            r == self.is_valid(),
    {
        decimal_text_ok(self.0.as_str())
    }
}

/// Literal representation for complex number, held as the decimal form of
/// its imaginary magnitude; the imaginary unit is added on emission.
pub struct ComplexLiteral(pub String);

impl ComplexLiteral {
    /// Whether the literal holds the decimal form of a number.
    pub open spec fn is_valid(&self) -> bool {
        is_decimal_text(self.0@)
    }

    /// The literal that holds `text`, if `text` is the decimal form of a
    /// number.
    pub fn new(text: String) -> (r: Option<ComplexLiteral>)
        ensures
            match r {
                Some(literal) => literal.0 == text && literal.is_valid(),
                None => !is_decimal_text(text@),
            },
    {
        if decimal_text_ok(text.as_str()) {
            Some(ComplexLiteral(text))
        } else {
            None
        }
    }

    /// Whether the literal holds the decimal form of a number.
    pub fn is_ok(&self) -> (r: bool)
        ensures
            r == self.is_valid(),
    {
        decimal_text_ok(self.0.as_str())
    }
}

/// String literal representation, without quotes.
/// Quotes will be determined by each variants.
pub enum StringLiteral {
    Static(String),
    WithInterpolation(Vec<Expression>),
}

/// Here document representations: the plain heredoc, the heredoc whose
/// closing word may be indented (dash), and the heredoc that strips the
/// indentation of its lines (squiggly).
pub enum HereDocumentVariants {
    Plain(HereDocument),
    Dash(HereDocument),
    Squiggly(HereDocument),
}

/// A here document: the word that encloses it, and what stands between.
pub struct HereDocument {
    pub enclosure: Constant,
    pub document: StringLiteral,
}

/// Literal representation for regular expression
pub struct RegularExpression {
    pub expression: StringLiteral,
    pub options: Vec<RegularExpressionFlag>,
}

/// Represent regular expression flag,
/// E is fixed-encoding
/// I is case-insensitive
/// M is multi-line
/// N is no-encoding
/// U is unicode
/// X is extended
pub enum RegularExpressionFlag {
    E,
    I,
    M,
    N,
    U,
    X,
}

/// Literal representation for array.
pub enum ArrayLiteral {
    /// Plain array is a list of expression.
    Plain(Vec<Expression>),

    /// Splat can be either '*var' or '*[v1, v2]'
    /// represent them as its own expression, see: ArrayExpression.
    Splat(ArrayExpression),

    /// Array may be interpolated, that is an array can be constructed
    /// as a literal which contains splat in its declaration,
    /// in this case, we categorized this array literal as interpolated.
    WithInterpolation(Vec<ArrayInterpolation>),
}

/// Specific expression that returns array.
/// It can be an array literal, or an access.
/// See: AccessVariants.
pub enum ArrayExpression {
    Literal(Box<ArrayLiteral>),
    Access(AccessVariants),
}

/// Represent each element in interpolated array.
pub enum ArrayInterpolation {
    Expression(Expression),
    Splat(ArrayExpression),
}

/// Literal representation for hash (map).
pub enum HashLiteral {
    /// Plain hash is a list of HashElement.
    Plain(Vec<HashElement>),

    /// In hash, splat can be either '**var' or '**{ a: v1 }'
    /// represent these as its own expression, see: HashExpression.
    Splat(HashExpression),

    /// Hash may be interpolated if it's constructed as a literal which contains splat
    /// in its declaration.
    WithInterpolation(Vec<HashInterpolation>),
}

/// Each element of a hash is either
/// a pair:
///     "key" => :value
/// or
/// a labeled value:
///     key: :value
///
/// Each of this need to be represented separately.
pub enum HashElement {
    Pair(PairElement),
    WithLabel(LabeledElement),
}

/// `key => value`
pub struct PairElement {
    pub key: Expression,
    pub value: Expression,
}

/// `key: value`
pub struct LabeledElement {
    pub key: StringLiteral,
    pub value: Expression,
}
/// A specific expression that returns hash.
/// It can be an array literal, or an access.
/// See: AccessVariants.
pub enum HashExpression {
    Literal(Box<HashLiteral>),
    Access(AccessVariants),
}

/// Represent each possible value for interpolated hash element
pub enum HashInterpolation {
    Element(HashElement),
    Splat(HashExpression),
}

/// range literals, if second bound is None, then it's an infinite/endless range
pub enum RangeLiteral {
    Inclusive(IntegerLiteral, Option<IntegerLiteral>),
    Exclusive(IntegerLiteral, Option<IntegerLiteral>),
}

/// Variant for access. Access is an invocation for variables.
/// Including self, instance variables, global variables and even constants.
pub enum AccessVariants {
    _Self,
    LocalVariable(Variable),
    InstanceVariable(Variable),
    ClassVariable(Variable),
    GlobalVariable(GlobalVariable),
    Constant(ConstantVariants),
}

/// A variable only has its name, represented as string.
pub struct Variable(pub String);

/// global variable is prefixed by dollar '$'
pub enum GlobalVariable {
    Plain(Variable),
    NthReference(IntegerLiteral),
    Colon,
    Splat,
    QuestionMark,
    Dollar,
    Tilde,
    Ampersand,
    Plus,
    Backtick,
    Aposthrope,
    Bang,
    AtSymbol,
}

/// Variants for constants.
pub enum ConstantVariants {
    /// Top level constant is '::A' in Ruby.
    TopLevel(Constant),

    /// Constant can be scoped (namespaced) in which it represented as a list of its
    /// namespaces, ended by the constant itself.
    /// e.g.
    ///     'ConstantVariants::Scoped(vec![Constant("A"), constant("B")])'
    /// is equal to 'A::B' in Ruby.
    Scoped(Vec<Constant>),

    /// Unscoped constants is all constants which accessed without its namespace,
    /// or simply not namespaced.
    Unscoped(Constant),

    /// Represents special constant '__FILE__' in Ruby.
    File,

    /// Represents special constant '__LINE__' in Ruby.
    Line,

    /// Represents special constant '__ENCODING__' in Ruby.
    Encoding,
}

impl ConstantVariants {
    /// Whether the constant can stand in source: a scoped constant has at
    /// least one segment.
    pub open spec fn is_valid(&self) -> bool {
        match *self {
            ConstantVariants::Scoped(segments) => segments@.len() > 0,
            _ => true,
        }
    }

    /// The scoped constant of `segments`, if there is at least one.
    pub fn scoped(segments: Vec<Constant>) -> (r: Option<ConstantVariants>)
        ensures
            match r {
                Some(constant) => constant == ConstantVariants::Scoped(segments)
                    && constant.is_valid(),
                None => segments@.len() == 0,
            },
    {
        if segments.len() > 0 {
            Some(ConstantVariants::Scoped(segments))
        } else {
            None
        }
    }

    /// Whether the constant can stand in source.
    pub fn is_ok(&self) -> (r: bool)
        ensures
            r == self.is_valid(),
    {
        match self {
            ConstantVariants::Scoped(segments) => segments.len() > 0,
            _ => true,
        }
    }
}

/// Constant name representation.
pub struct Constant(pub String);

/// Variants of assignment expression.
pub enum AssignmentVariants {
    /// Assign to local variable.
    ToLocalVariable(Variable, Box<Expression>),

    /// Assign to instance variable.
    ToInstanceVariable(Variable, Box<Expression>),

    /// Assign to class variable.
    ToClassVariable(Variable, Box<Expression>),

    /// Assign to global variable.
    ToGlobalVariable(GlobalVariable, Box<Expression>),

    /// Assign to constant.
    ToConstant(ConstantVariants, Box<Expression>),

    /// Assign to object attribute.
    ToAttribute(SendMethodAssignmentVariants),

    /// Destructuring, multiple left hand assignment.
    MultipleAssignment(MultipleLeftHandSide, MultipleRightHandSide),

    /// Assignment with binary operation.
    BinaryOperator(BinaryOperator, AccessVariants, Box<Expression>),

    /// Assignment with logical operation.
    LogicalOperator(LogicalOperator, AccessVariants, Box<Expression>),
}

/// All possible form of multiple left hand side elements.
pub enum MultipleLeftHandSideElement {
    /// Plain access is variables/constants like symbols.
    PlainAccess(AccessVariants),

    /// Attribute access, for assignment to instance attributes.
    AttributeAccess(AccessAttributeVariants),

    /// Multiple left hand side can be nested.
    Nested(MultipleLeftHandSide),
}

/// An attribute of an access as a target: `receiver.attribute`
pub struct AccessAttributeVariants {
    pub receiver: AccessVariants,
    pub attribute: Variable,
}

/// Represent multiple left hand side in an assignment.
pub struct MultipleLeftHandSide(pub Vec<MultipleLeftHandSideElement>);

/// Represent right hand side expression in multiple left hand side assignment.
pub struct MultipleRightHandSide(pub Box<ArrayInterpolation>);

/// Assignment operator for binary operation
/// e.g. `And` is &=
pub enum BinaryOperator {
    /// Add operator: `+`,
    /// `+=` in assignment.
    Add,

    /// Subtract operator: `-`
    /// `-=` in assignment.
    Sub,

    /// Binary or operator: `|`
    /// `|=` in assignment.
    Or,

    /// Binary xor operator: `^`
    /// `^=` in assignment.
    Xor,

    /// Binary and operator: `&`
    /// `&=` in assignment.
    And,

    /// Multiplication operator: `*`
    /// `*=` in assignment.
    Multiply,

    /// Division operator: `/`
    /// `/=` in assignment.
    Divide,

    /// Modulus operator: `%`
    /// `%=` in assignment.
    Mod,

    /// Shift bits to the left: `<<`
    /// `<<=` in assignment.
    LeftShift,

    /// Shift bits to the right: `>>`
    /// `>>=` in assignment.
    RightShift,
}

/// Assignment operator for logical operation
/// e.g.
///     `And` is &&=
///     `Or` is ||=
pub enum LogicalOperator {
    Or,
    And,
}

/// Variants for class definition.
pub enum ClassDefinitionVariants {
    /// Plain class definition
    /// see: ClassDefinition.
    Class(ClassDefinition),

    /// Singleton class definition
    /// see: SingletonClassDefinition.
    Singleton(SingletonClassDefinition),
}

/// Represent class definition that is not a singleton (class << self)
pub struct ClassDefinition {
    /// Class has a name, and it's a constant.
    pub name: ConstantVariants,

    /// A class may inherit from another class,
    /// which makes the other class its parent.
    pub parent: Option<ConstantVariants>,

    /// Class definition may contains method declarations and
    /// whatnot, list them as expressions.
    pub expressions: Vec<Expression>,
}

/// Singleton class definition
/// i.e. `class << self`
/// This class definition doesn't have any name,
/// so it only represented by its list of expressions.
pub struct SingletonClassDefinition {
    pub expressions: Vec<Expression>,
}

/// Represent module definition, it's similar to class
/// but has no inheritance.
pub struct ModuleDefinition {
    /// Module name, a constant.
    pub name: ConstantVariants,

    /// Similar as class body, module
    /// definition may have list of expressions.
    pub expressions: Vec<Expression>,
}

/// A method definition, on instances (`def name`) or on the object itself
/// (`def self.name`).
pub enum MethodDefinitionVariants {
    Instance(InstanceMethod),
    Singleton(SingletonMethod),
}

/// `def name(args) .. end`
pub struct InstanceMethod {
    pub name: VariableOrIndex,
    pub args: FormalArgument,
    pub expressions: Vec<Expression>,
}

/// `def self.name(args) .. end`
pub struct SingletonMethod {
    pub name: Variable,
    pub args: FormalArgument,
    pub expressions: Vec<Expression>,
}

/// The name of an instance method: a name, or the index method `[]`.
pub enum VariableOrIndex {
    Variable(Variable),
    Index,
}

/// `alias` gives a method or a global variable a second name.
pub enum AliasingVariants {
    Method(AliasingMethod),
    GlobalVariable(AliasingVariable),
}

/// The parameters of a method: the plain ones in order, then the trailing
/// splats and block parameter, if any.
pub struct FormalArgument(
    pub Vec<PlainArgumentVariants>,
    pub Option<SplatsAndBlockArgumentVariants<Variable>>,
);

/// A destructuring parameter, `(a, (b, c), *rest)`: what it binds in order,
/// then the trailing splats and block parameter, if any.
pub struct DecomposedArgument(
    pub Vec<DecomposedArgumentVariants>,
    pub Option<SplatsAndBlockArgumentVariants<Variable>>,
);

/// One parameter of a method, block or proc.
pub enum PlainArgumentVariants {
    /// `name`
    Required(Variable),

    /// `name:`
    KeywordRequired(Variable),

    /// `name: default`
    KeywordOptional(Variable, Expression),

    /// `name = default`
    Optional(Variable, Expression),

    /// `(a, b)`
    Decomposition(DecomposedArgument),
}

/// What may close a parameter list: a splat, a keyword splat and a block
/// parameter, in the combinations that the language accepts. Each shape is
/// written as it is held: none is inferred from another.
pub enum SplatsAndBlockArgumentVariants<VarArg> {
    /// `*rest`
    Splat(VarArg),

    /// `*`
    UnnamedSplat,

    /// `**options`
    KeyWordSplat(VarArg),

    /// `**`
    UnnamedKeywordSplat,

    /// `*rest, **options`
    SplatThenKeywordSplat(VarArg, VarArg),

    /// `&block`
    Block(VarArg),

    /// `*rest, &block`
    SplatThenBlock(VarArg, VarArg),

    /// `*rest, **options, &block`
    SplatThenKeywordSplatThenBlock(VarArg, VarArg, VarArg),
}

/// The parameters of a block or proc: the plain ones in order, then the
/// trailing splats and block parameter, if any.
pub struct ProcArgument(
    pub Vec<ProcArgumentVariants>,
    pub Option<SplatsAndBlockArgumentVariants<MultipleLeftHandSideElement>>,
);

/// One parameter of a block or proc: a plain parameter, or a target as in a
/// multiple assignment.
pub enum ProcArgumentVariants {
    PlainArgument(PlainArgumentVariants),
    MultipleLeftHandSide(MultipleLeftHandSideElement),
}

/// What a destructuring parameter binds at one place: a name, or a nested
/// destructuring.
pub enum DecomposedArgumentVariants {
    Plain(Variable),
    Nested(DecomposedArgument),
}

/// `undef a, b`: the names of the methods to undefine.
pub struct MethodUndefinition(pub Vec<StringLiteral>);

/// `alias newname oldname`, of methods.
pub struct AliasingMethod {
    pub oldname: StringLiteral,
    pub newname: StringLiteral,
}

/// `alias $newname $oldname`, of global variables.
pub struct AliasingVariable {
    pub oldname: GlobalVariable,
    pub newname: GlobalVariable,
}

/// A method call, on the current object or on a receiver.
pub enum SendMethodVariants {
    Singleton(SendMethod),
    WithReceiver(Box<Expression>, SendMethod),
}

/// An assignment to an attribute: `receiver.name = value`, or
/// `receiver[index].name = value`.
pub enum SendMethodAssignmentVariants {
    Plain(SendMethodAssignment),
    WithIndex(SendMethodAssignmentWithIndex),
}

/// `receiver.name = value`: the method holds the name, its arguments are
/// the value.
pub struct SendMethodAssignment {
    pub receiver: Box<Expression>,
    pub method: SendMethod,
}

/// `receiver[index].name = value`: the method holds the name, its arguments
/// are the value.
pub struct SendMethodAssignmentWithIndex {
    pub receiver: Box<Expression>,
    pub index: Box<Expression>,
    pub method: SendMethod,
}

/// A call without its receiver: the name and the arguments.
pub struct SendMethod {
    pub name: Variable,
    pub args: SendMethodArgument,
}

/// The arguments of a call in order, and its block, if it has one.
pub struct SendMethodArgument(
    pub Vec<ArgumentVariants>,
    pub Option<BlockArgument>,
);

/// One argument of a call. The kind is held with each argument: the order
/// of the arguments is the order they were written in, whatever their kinds.
pub enum ArgumentVariants {
    Expression(Expression),
    Splat(ArrayExpression),
    Keyword(HashElement),
    KeywordSplat(HashExpression),
}

/// The block of a call: passed as an argument (`&handler`), or written
/// after the call (`do |x| .. end`).
pub enum BlockArgument {
    Pass(ProcAsArgumentVariants),
    BeginBlock(ProcArgument, Vec<Expression>),
}

/// What is passed as a block: a variable, or a proc.
pub enum ProcAsArgumentVariants {
    Variable(Variable),
    Expression(ProcExpressionVariants),
}

/// A proc, in the form it was written in: `proc { .. }`, `lambda { .. }` or
/// `->(..) { .. }`.
pub enum ProcExpressionVariants {
    Proc(ProcArgument, Vec<Expression>),
    Lambda(ProcArgument, Vec<Expression>),
    Stubby(ProcArgument, Vec<Expression>),
}

/// An operation: expressions between parentheses, a binary operation, or a
/// negation with `!`.
pub enum OperationVariants {
    Paren(Vec<Expression>),
    BinaryExpression(BinaryExpressionOperation),
    Not(Box<Expression>),
}

/// `lefthand operator righthand`
pub struct BinaryExpressionOperation {
    pub operator: BinaryOperator,
    pub lefthand: Box<Expression>,
    pub righthand: Box<Expression>,
}

/// A logical operation. Each has a token of its own.
pub enum LogicalOperationVariants {
    /// `a == b`
    Equal(Box<Expression>, Box<Expression>),

    /// `a & b`
    And(Box<Expression>, Box<Expression>),

    /// `a and b`
    LowerPrecedenceAnd(Box<Expression>, Box<Expression>),

    /// `a | b`
    Or(Box<Expression>, Box<Expression>),

    /// `a or b`
    LowerPrecedenceOr(Box<Expression>, Box<Expression>),

    /// `a && b`
    DoubleAmpersands(Box<Expression>, Box<Expression>),

    /// `a || b`
    DoublePipes(Box<Expression>, Box<Expression>),

    /// `not a`
    Not(Box<Expression>),

    /// `a =~ /pattern/`
    Match(RegularExpressionMatch),
}

/// A conditional: `if` or `unless`.
pub enum BranchingVariants {
    If(BranchingIfVariants),
    Unless(BranchingUnlessVariants),
}

/// An `if`: alone, with an `else`, or going on with `elsif`.
pub enum BranchingIfVariants {
    WithoutElse(BranchingIf),
    WithElse(TernaryBranching),
    WithElsif(WithElsifBranching),
}

/// `if condition .. end`
pub struct BranchingIf {
    pub condition: Box<Expression>,
    pub iftrue: Box<Expression>,
}
/// An `if` whose false branch is a further conditional, rendered as `elsif`.
/// The chain ends at the first `WithoutElse` or `WithElse` continuation.
pub struct WithElsifBranching {
    pub condition: Box<Expression>,
    pub iftrue: Box<Expression>,
    pub elsif: Box<BranchingIfVariants>,
}

/// An `unless`: alone, or with an `else`.
pub enum BranchingUnlessVariants {
    WithoutElse(BranchingUnless),
    WithElse(TernaryBranching),
}

/// `unless condition .. end`
pub struct BranchingUnless {
    pub condition: Box<Expression>,
    pub iffalse: Box<Expression>,
}

/// A condition with both branches: `condition ? iftrue : iffalse` as an
/// expression of its own, `if .. else .. end` inside a conditional.
pub struct TernaryBranching {
    pub condition: Box<Expression>,
    pub iftrue: Box<Expression>,
    pub iffalse: Box<Expression>,
}

/// `case subject when .. else .. end`: the subject and the default may be
/// absent.
pub struct CaseMatching {
    pub condition: Option<Box<Expression>>,
    pub when: Vec<WhenDefinitionVariants>,
    pub default: Option<Box<Expression>>,
}

/// One arm of a `case`: the pattern and the body.
pub struct WhenDefinitionVariants {
    pub condition: ArrayInterpolation,
    pub iftrue: Box<Expression>,
}

/// A loop: with the condition tested first, with the condition tested
/// last, or over what an expression yields.
pub enum LoopVariants {
    PreCondition(LoopConditionVariants),
    PostCondition(LoopConditionVariants),
    ForIn(ForLoop),
}

/// `for assignee in iterator .. end`
pub struct ForLoop {
    pub assignee: MultipleLeftHandSideElement,
    pub iterator: ArrayExpression,
    pub expressions: Vec<Expression>,
}

/// A conditional loop: while the condition holds, or until it does.
pub enum LoopConditionVariants {
    While(LoopStruct),
    Until(LoopStruct),
}

/// The condition and the body of a conditional loop.
pub struct LoopStruct {
    pub condition: Box<Expression>,
    pub expressions: Vec<InLoopExpression>,
}

/// A statement of a loop body: an expression, or one of the signals
/// `break`, `next` (each with a value or without) and `redo`.
pub enum InLoopExpression {
    Plain(Expression),
    Break(Option<Expression>),
    Next(Option<Expression>),
    Redo,
}

/// Exception handling: `body rescue handler` on one line, the handlers of a
/// method body, or the handlers of a `begin .. end` block.
pub enum ExceptionHandlingVariants {
    InlineRescue(Box<Expression>, Box<Expression>),
    DefRescue(Vec<Expression>, RescueBodyVariants),
    BeginRescue(Vec<Expression>, RescueBodyVariants),
}

/// What handles the exceptions of a body: rescue clauses, followed by an
/// `else` or an `ensure` if any; or an `ensure` alone.
pub enum RescueBodyVariants {
    Rescue(Vec<RescueBody>, Option<RescueEnsureOrElse>),
    Ensure(Vec<Expression>),
}

/// One rescue clause: the exception types it names, the variable that the
/// exception is bound to, and the body, which may end in `retry`.
pub struct RescueBody {
    pub exceptions: Vec<ConstantVariants>,
    pub assignment: Option<AccessVariants>,
    pub expressions: (Vec<Expression>, Option<Retry>),
}

/// What follows the rescue clauses.
pub enum RescueEnsureOrElse {
    Ensure(Vec<Expression>),
    Else(Vec<Expression>),
}

/// `retry`, at the end of a rescue clause.
pub struct Retry;

/// `BEGIN { .. }`
pub struct BEGINBlock(pub Vec<Expression>);

/// `END { .. }`
pub struct ENDBlock(pub Vec<Expression>);

/// A flip-flop: with two dots, the second boundary is tested on the line
/// that the first one held on; with three, from the next line on.
pub enum FlipFlopVariants {
    Inclusive(FlipFlop),
    Exclusive(FlipFlop),
}

/// The two boundaries of a flip-flop and the body it guards.
pub struct FlipFlop {
    pub flip: Box<Expression>,
    pub flop: Box<Expression>,
    pub expressions: Vec<Expression>,
}

/// `expression =~ /regex/`
pub struct RegularExpressionMatch {
    pub regex: RegularExpression,
    pub expression: Box<Expression>,
}

} // verus!
