//! The intermediate representation of modules: definitions, declarations
//! and the expressions of their bodies, as the front end hands them to the
//! analysis and lowering passes.

use vstd::prelude::*;

use crate::hir::types::{
    clone_types, same_type, same_types, Type, clone_record_elements,
    same_record_elements,
};
use crate::position::Position;

verus! {

/// One argument of a lambda: its name and its type.
#[derive(Debug, PartialEq)]
pub struct Argument {
    pub name: String,
    pub type_: Type,
}

impl Argument {
    pub fn new(name: &str, type_: Type) -> (argument: Argument)
        ensures
            argument.name@ == name@,
            argument.type_ == type_,
    {
        Argument { name: name.to_owned(), type_ }
    }
}

/// Whether two arguments carry the same name and the same type.
pub open spec fn same_argument(a: Argument, b: Argument) -> bool {
    a.name@ == b.name@ && same_type(a.type_, b.type_)
}

/// Whether two argument lists are pairwise the same.
pub open spec fn same_arguments(a: Seq<Argument>, b: Seq<Argument>) -> bool {
    a.len() == b.len() && forall|i: int| 0 <= i < a.len() ==> same_argument(#[trigger] a[i], b[i])
}

impl Clone for Argument {
    /// A copy with the same name and the same type.
    fn clone(&self) -> (cloned: Self)
        ensures
            same_argument(cloned, *self),
    {
        Argument { name: self.name.clone(), type_: self.type_.clone() }
    }
}

/// A function literal: arguments, declared result type and body.
#[derive(Debug, PartialEq)]
pub struct Lambda {
    pub arguments: Vec<Argument>,
    pub result_type: Type,
    pub body: Box<Expression>,
    pub position: Position,
}

impl Lambda {
    pub fn new(arguments: Vec<Argument>, result_type: Type, body: Expression, position: Position)
        -> (lambda: Lambda)
        ensures
            lambda.arguments == arguments,
            lambda.result_type == result_type,
            *lambda.body == body,
            lambda.position == position,
    {
        Lambda { arguments, result_type, body: Box::new(body), position }
    }
}

/// A boolean literal.
#[derive(Debug, PartialEq)]
pub struct Boolean {
    pub value: bool,
    pub position: Position,
}

impl Boolean {
    pub fn new(value: bool, position: Position) -> (literal: Boolean)
        ensures
            literal.value == value,
            literal.position == position,
    {
        Boolean { value, position }
    }
}

/// The literal of the one value of the unit type.
#[derive(Debug, PartialEq)]
pub struct NoneLiteral {
    pub position: Position,
}

impl NoneLiteral {
    pub fn new(position: Position) -> (literal: NoneLiteral)
        ensures
            literal.position == position,
    {
        NoneLiteral { position }
    }
}

/// A number literal, carried as its source text.
#[derive(Debug, PartialEq)]
pub struct Number {
    pub value: String,
    pub position: Position,
}

impl Number {
    pub fn new(value: &str, position: Position) -> (literal: Number)
        ensures
            literal.value@ == value@,
            literal.position == position,
    {
        Number { value: value.to_owned(), position }
    }
}

/// A string literal.
#[derive(Debug, PartialEq)]
pub struct StringLiteral {
    pub value: String,
    pub position: Position,
}

impl StringLiteral {
    pub fn new(value: &str, position: Position) -> (literal: StringLiteral)
        ensures
            literal.value@ == value@,
            literal.position == position,
    {
        StringLiteral { value: value.to_owned(), position }
    }
}

/// A variable by name.
#[derive(Debug, PartialEq)]
pub struct Variable {
    pub name: String,
    pub position: Position,
}

impl Variable {
    pub fn new(name: &str, position: Position) -> (variable: Variable)
        ensures
            variable.name@ == name@,
            variable.position == position,
    {
        Variable { name: name.to_owned(), position }
    }
}

impl Clone for Variable {
    /// An exact copy.
    fn clone(&self) -> (cloned: Self)
        ensures
            cloned == *self,
    {
        Variable { name: self.name.clone(), position: self.position.clone() }
    }
}

/// A function call, with the called expression's type once inferred.
#[derive(Debug, PartialEq)]
pub struct Call {
    pub function_type: Option<Type>,
    pub function: Box<Expression>,
    pub arguments: Vec<Expression>,
    pub position: Position,
}

impl Call {
    pub fn new(
        function_type: Option<Type>,
        function: Expression,
        arguments: Vec<Expression>,
        position: Position,
    ) -> (call: Call)
        ensures
            call.function_type == function_type,
            *call.function == function,
            call.arguments == arguments,
            call.position == position,
    {
        Call { function_type, function: Box::new(function), arguments, position }
    }
}

/// A two-way conditional.
#[derive(Debug, PartialEq)]
pub struct If {
    pub condition: Box<Expression>,
    pub then_: Box<Expression>,
    pub else_: Box<Expression>,
    pub position: Position,
}

impl If {
    pub fn new(condition: Expression, then_: Expression, else_: Expression, position: Position)
        -> (if_: If)
        ensures
            *if_.condition == condition,
            *if_.then_ == then_,
            *if_.else_ == else_,
            if_.position == position,
    {
        If {
            condition: Box::new(condition),
            then_: Box::new(then_),
            else_: Box::new(else_),
            position,
        }
    }
}

/// A conditional over a list: the first element and the rest, or else. The
/// carried type is the list's element type once inferred.
#[derive(Debug, PartialEq)]
pub struct IfList {
    pub type_: Option<Type>,
    pub argument: Box<Expression>,
    pub first_name: String,
    pub rest_name: String,
    pub then_: Box<Expression>,
    pub else_: Box<Expression>,
    pub position: Position,
}

impl IfList {
    pub fn new(
        type_: Option<Type>,
        argument: Expression,
        first_name: &str,
        rest_name: &str,
        then_: Expression,
        else_: Expression,
        position: Position,
    ) -> (if_: IfList)
        ensures
            if_.type_ == type_,
            *if_.argument == argument,
            if_.first_name@ == first_name@,
            if_.rest_name@ == rest_name@,
            *if_.then_ == then_,
            *if_.else_ == else_,
            if_.position == position,
    {
        IfList {
            type_,
            argument: Box::new(argument),
            first_name: first_name.to_owned(),
            rest_name: rest_name.to_owned(),
            then_: Box::new(then_),
            else_: Box::new(else_),
            position,
        }
    }
}

/// One branch of a type conditional.
#[derive(Debug, PartialEq)]
pub struct IfTypeBranch {
    pub type_: Type,
    pub expression: Expression,
}

impl IfTypeBranch {
    pub fn new(type_: Type, expression: Expression) -> (branch: IfTypeBranch)
        ensures
            branch.type_ == type_,
            branch.expression == expression,
    {
        IfTypeBranch { type_, expression }
    }
}

/// The else branch of a type conditional, with the type the bound name
/// takes there once inferred.
#[derive(Debug, PartialEq)]
pub struct ElseBranch {
    pub type_: Option<Type>,
    pub expression: Box<Expression>,
    pub position: Position,
}

impl ElseBranch {
    pub fn new(type_: Option<Type>, expression: Expression, position: Position) -> (branch:
        ElseBranch)
        ensures
            branch.type_ == type_,
            *branch.expression == expression,
            branch.position == position,
    {
        ElseBranch { type_, expression: Box::new(expression), position }
    }
}

/// A conditional over the runtime type of a value.
#[derive(Debug, PartialEq)]
pub struct IfType {
    pub name: String,
    pub argument: Box<Expression>,
    pub branches: Vec<IfTypeBranch>,
    pub else_: Option<ElseBranch>,
    pub position: Position,
}

impl IfType {
    pub fn new(
        name: &str,
        argument: Expression,
        branches: Vec<IfTypeBranch>,
        else_: Option<ElseBranch>,
        position: Position,
    ) -> (if_: IfType)
        ensures
            if_.name@ == name@,
            *if_.argument == argument,
            if_.branches == branches,
            if_.else_ == else_,
            if_.position == position,
    {
        IfType {
            name: name.to_owned(),
            argument: Box::new(argument),
            branches,
            else_,
            position,
        }
    }
}

/// A let binding, with the bound expression's type once inferred.
#[derive(Debug, PartialEq)]
pub struct Let {
    pub name: Option<String>,
    pub type_: Option<Type>,
    pub bound_expression: Box<Expression>,
    pub expression: Box<Expression>,
    pub position: Position,
}

impl Let {
    pub fn new(
        name: Option<String>,
        type_: Option<Type>,
        bound_expression: Expression,
        expression: Expression,
        position: Position,
    ) -> (let_: Let)
        ensures
            let_.name == name,
            let_.type_ == type_,
            *let_.bound_expression == bound_expression,
            *let_.expression == expression,
            let_.position == position,
    {
        Let {
            name,
            type_,
            bound_expression: Box::new(bound_expression),
            expression: Box::new(expression),
            position,
        }
    }
}

/// One element of a list literal: a single element or a spread of many.
#[derive(Debug, PartialEq)]
pub enum ListElement {
    Multiple(Expression),
    Single(Expression),
}

/// A list literal with its declared element type.
#[derive(Debug, PartialEq)]
pub struct List {
    pub type_: Type,
    pub elements: Vec<ListElement>,
    pub position: Position,
}

impl List {
    pub fn new(type_: Type, elements: Vec<ListElement>, position: Position) -> (list: List)
        ensures
            list.type_ == type_,
            list.elements == elements,
            list.position == position,
    {
        List { type_, elements, position }
    }
}

/// The arithmetic operators.
#[derive(Clone, Copy, Debug, PartialEq, Eq, Structural)]
pub enum ArithmeticOperator {
    Add,
    Subtract,
    Multiply,
    Divide,
}

/// An arithmetic operation.
#[derive(Debug, PartialEq)]
pub struct ArithmeticOperation {
    pub operator: ArithmeticOperator,
    pub lhs: Box<Expression>,
    pub rhs: Box<Expression>,
    pub position: Position,
}

impl ArithmeticOperation {
    pub fn new(
        operator: ArithmeticOperator,
        lhs: Expression,
        rhs: Expression,
        position: Position,
    ) -> (operation: ArithmeticOperation)
        ensures
            operation.operator == operator,
            *operation.lhs == lhs,
            *operation.rhs == rhs,
            operation.position == position,
    {
        ArithmeticOperation { operator, lhs: Box::new(lhs), rhs: Box::new(rhs), position }
    }
}

/// The boolean connectives.
#[derive(Clone, Copy, Debug, PartialEq, Eq, Structural)]
pub enum BooleanOperator {
    And,
    Or,
}

/// A boolean operation.
#[derive(Debug, PartialEq)]
pub struct BooleanOperation {
    pub operator: BooleanOperator,
    pub lhs: Box<Expression>,
    pub rhs: Box<Expression>,
    pub position: Position,
}

impl BooleanOperation {
    pub fn new(operator: BooleanOperator, lhs: Expression, rhs: Expression, position: Position)
        -> (operation: BooleanOperation)
        ensures
            operation.operator == operator,
            *operation.lhs == lhs,
            *operation.rhs == rhs,
            operation.position == position,
    {
        BooleanOperation { operator, lhs: Box::new(lhs), rhs: Box::new(rhs), position }
    }
}

/// The equality operators.
#[derive(Clone, Copy, Debug, PartialEq, Eq, Structural)]
pub enum EqualityOperator {
    Equal,
    NotEqual,
}

/// An equality operation, with the union of its operand types once
/// inferred.
#[derive(Debug, PartialEq)]
pub struct EqualityOperation {
    pub type_: Option<Type>,
    pub operator: EqualityOperator,
    pub lhs: Box<Expression>,
    pub rhs: Box<Expression>,
    pub position: Position,
}

impl EqualityOperation {
    pub fn new(
        type_: Option<Type>,
        operator: EqualityOperator,
        lhs: Expression,
        rhs: Expression,
        position: Position,
    ) -> (operation: EqualityOperation)
        ensures
            operation.type_ == type_,
            operation.operator == operator,
            *operation.lhs == lhs,
            *operation.rhs == rhs,
            operation.position == position,
    {
        EqualityOperation { type_, operator, lhs: Box::new(lhs), rhs: Box::new(rhs), position }
    }
}

/// A boolean negation.
#[derive(Debug, PartialEq)]
pub struct NotOperation {
    pub expression: Box<Expression>,
    pub position: Position,
}

impl NotOperation {
    pub fn new(expression: Expression, position: Position) -> (operation: NotOperation)
        ensures
            *operation.expression == expression,
            operation.position == position,
    {
        NotOperation { expression: Box::new(expression), position }
    }
}

/// The order comparison operators.
#[derive(Clone, Copy, Debug, PartialEq, Eq, Structural)]
pub enum OrderOperator {
    LessThan,
    LessThanOrEqual,
    GreaterThan,
    GreaterThanOrEqual,
}

/// An order comparison.
#[derive(Debug, PartialEq)]
pub struct OrderOperation {
    pub operator: OrderOperator,
    pub lhs: Box<Expression>,
    pub rhs: Box<Expression>,
    pub position: Position,
}

impl OrderOperation {
    pub fn new(operator: OrderOperator, lhs: Expression, rhs: Expression, position: Position)
        -> (operation: OrderOperation)
        ensures
            operation.operator == operator,
            *operation.lhs == lhs,
            *operation.rhs == rhs,
            operation.position == position,
    {
        OrderOperation { operator, lhs: Box::new(lhs), rhs: Box::new(rhs), position }
    }
}

/// An error propagation, with the success type of its operand once
/// inferred.
#[derive(Debug, PartialEq)]
pub struct TryOperation {
    pub type_: Option<Type>,
    pub expression: Box<Expression>,
    pub position: Position,
}

impl TryOperation {
    pub fn new(type_: Option<Type>, expression: Expression, position: Position) -> (operation:
        TryOperation)
        ensures
            operation.type_ == type_,
            *operation.expression == expression,
            operation.position == position,
    {
        TryOperation { type_, expression: Box::new(expression), position }
    }
}

/// An operation over expressions.
#[derive(Debug, PartialEq)]
pub enum Operation {
    Arithmetic(ArithmeticOperation),
    Boolean(BooleanOperation),
    Equality(EqualityOperation),
    Not(NotOperation),
    Order(OrderOperation),
    Try(TryOperation),
}

/// One field of a record construction or update: its name and its value.
#[derive(Debug, PartialEq)]
pub struct RecordElement {
    pub name: String,
    pub expression: Expression,
    pub position: Position,
}

impl RecordElement {
    pub fn new(name: &str, expression: Expression, position: Position) -> (element: RecordElement)
        ensures
            element.name@ == name@,
            element.expression == expression,
            element.position == position,
    {
        RecordElement { name: name.to_owned(), expression, position }
    }
}

/// A record construction.
#[derive(Debug, PartialEq)]
pub struct RecordConstruction {
    pub type_: crate::hir::types::Record,
    pub elements: Vec<RecordElement>,
    pub position: Position,
}

impl RecordConstruction {
    pub fn new(
        type_: crate::hir::types::Record,
        elements: Vec<RecordElement>,
        position: Position,
    ) -> (construction: RecordConstruction)
        ensures
            construction.type_ == type_,
            construction.elements == elements,
            construction.position == position,
    {
        RecordConstruction { type_, elements, position }
    }
}

/// A record field read, with the record's type once inferred.
#[derive(Debug, PartialEq)]
pub struct RecordDeconstruction {
    pub type_: Option<Type>,
    pub record: Box<Expression>,
    pub element_name: String,
    pub position: Position,
}

impl RecordDeconstruction {
    pub fn new(
        type_: Option<Type>,
        record: Expression,
        element_name: &str,
        position: Position,
    ) -> (deconstruction: RecordDeconstruction)
        ensures
            deconstruction.type_ == type_,
            *deconstruction.record == record,
            deconstruction.element_name@ == element_name@,
            deconstruction.position == position,
    {
        RecordDeconstruction {
            type_,
            record: Box::new(record),
            element_name: element_name.to_owned(),
            position,
        }
    }
}

/// A record update.
#[derive(Debug, PartialEq)]
pub struct RecordUpdate {
    pub type_: crate::hir::types::Record,
    pub record: Box<Expression>,
    pub elements: Vec<RecordElement>,
    pub position: Position,
}

impl RecordUpdate {
    pub fn new(
        type_: crate::hir::types::Record,
        record: Expression,
        elements: Vec<RecordElement>,
        position: Position,
    ) -> (update: RecordUpdate)
        ensures
            update.type_ == type_,
            *update.record == record,
            update.elements == elements,
            update.position == position,
    {
        RecordUpdate { type_, record: Box::new(record), elements, position }
    }
}

/// A deferred computation, with its value type once inferred.
#[derive(Debug, PartialEq)]
pub struct Thunk {
    pub type_: Option<Type>,
    pub expression: Box<Expression>,
    pub position: Position,
}

impl Thunk {
    pub fn new(type_: Option<Type>, expression: Expression, position: Position) -> (thunk: Thunk)
        ensures
            thunk.type_ == type_,
            *thunk.expression == expression,
            thunk.position == position,
    {
        Thunk { type_, expression: Box::new(expression), position }
    }
}

/// A coercion of a value from one type to another.
#[derive(Debug, PartialEq)]
pub struct TypeCoercion {
    pub from: Type,
    pub to: Type,
    pub argument: Box<Expression>,
    pub position: Position,
}

impl TypeCoercion {
    pub fn new(from: Type, to: Type, argument: Expression, position: Position) -> (coercion:
        TypeCoercion)
        ensures
            coercion.from == from,
            coercion.to == to,
            *coercion.argument == argument,
            coercion.position == position,
    {
        TypeCoercion { from, to, argument: Box::new(argument), position }
    }
}

/// An expression of the representation.
#[derive(Debug, PartialEq)]
pub enum Expression {
    Boolean(Boolean),
    Call(Call),
    If(If),
    IfList(IfList),
    IfType(IfType),
    Lambda(Lambda),
    Let(Let),
    List(List),
    NoneLiteral(NoneLiteral),
    Number(Number),
    Operation(Operation),
    RecordConstruction(RecordConstruction),
    RecordDeconstruction(RecordDeconstruction),
    RecordUpdate(RecordUpdate),
    StringLiteral(StringLiteral),
    Thunk(Thunk),
    TypeCoercion(TypeCoercion),
    Variable(Variable),
}

/// A record type definition of a module.
#[derive(Debug, PartialEq)]
pub struct TypeDefinition {
    pub name: String,
    pub original_name: String,
    pub elements: Vec<crate::hir::types::RecordElement>,
    pub open_: bool,
    pub public: bool,
    pub external: bool,
    pub position: Position,
}

impl TypeDefinition {
    pub fn new(
        name: &str,
        original_name: &str,
        elements: Vec<crate::hir::types::RecordElement>,
        open_: bool,
        public: bool,
        external: bool,
        position: Position,
    ) -> (definition: TypeDefinition)
        ensures
            definition.name@ == name@,
            definition.original_name@ == original_name@,
            definition.elements == elements,
            definition.open_ == open_,
            definition.public == public,
            definition.external == external,
            definition.position == position,
    {
        TypeDefinition {
            name: name.to_owned(),
            original_name: original_name.to_owned(),
            elements,
            open_,
            public,
            external,
            position,
        }
    }
}

/// Whether two type definitions define the same record the same way.
pub open spec fn same_type_definition(a: TypeDefinition, b: TypeDefinition) -> bool {
    &&& a.name@ == b.name@
    &&& a.original_name@ == b.original_name@
    &&& same_record_elements(a.elements@, b.elements@)
    &&& a.open_ == b.open_
    &&& a.public == b.public
    &&& a.external == b.external
}

impl Clone for TypeDefinition {
    /// A copy defining the same record the same way.
    fn clone(&self) -> (cloned: Self)
        ensures
            same_type_definition(cloned, *self),
    {
        TypeDefinition {
            name: self.name.clone(),
            original_name: self.original_name.clone(),
            elements: clone_record_elements(&self.elements),
            open_: self.open_,
            public: self.public,
            external: self.external,
            position: self.position.clone(),
        }
    }
}

/// A type alias of a module.
#[derive(Debug, PartialEq)]
pub struct TypeAlias {
    pub name: String,
    pub original_name: String,
    pub type_: Type,
    pub public: bool,
    pub external: bool,
    pub position: Position,
}

impl TypeAlias {
    pub fn new(
        name: &str,
        original_name: &str,
        type_: Type,
        public: bool,
        external: bool,
        position: Position,
    ) -> (alias: TypeAlias)
        ensures
            alias.name@ == name@,
            alias.original_name@ == original_name@,
            alias.type_ == type_,
            alias.public == public,
            alias.external == external,
            alias.position == position,
    {
        TypeAlias {
            name: name.to_owned(),
            original_name: original_name.to_owned(),
            type_,
            public,
            external,
            position,
        }
    }

    /// An alias with no source of its own: no original name and no
    /// position worth showing.
    pub fn without_source(name: &str, type_: Type, public: bool, external: bool) -> (alias:
        TypeAlias)
        ensures
            alias.name@ == name@,
            alias.original_name@ == ""@,
            alias.type_ == type_,
            alias.public == public,
            alias.external == external,
    {
        TypeAlias::new(name, "", type_, public, external, Position::new("", 1, 1, ""))
    }

    pub fn name(&self) -> (name: &str)
        ensures
            name@ == self.name@,
    {
        self.name.as_str()
    }

    pub fn original_name(&self) -> (original_name: &str)
        ensures
            original_name@ == self.original_name@,
    {
        self.original_name.as_str()
    }

    pub fn type_(&self) -> (type_: &Type)
        ensures
            type_ == &self.type_,
    {
        &self.type_
    }

    pub fn is_public(&self) -> (public: bool)
        ensures
            public == self.public,
    {
        self.public
    }

    pub fn is_external(&self) -> (external: bool)
        ensures
            external == self.external,
    {
        self.external
    }
}

/// Whether two aliases name the same type the same way.
pub open spec fn same_type_alias(a: TypeAlias, b: TypeAlias) -> bool {
    &&& a.name@ == b.name@
    &&& a.original_name@ == b.original_name@
    &&& same_type(a.type_, b.type_)
    &&& a.public == b.public
    &&& a.external == b.external
}

impl Clone for TypeAlias {
    /// A copy naming the same type the same way.
    fn clone(&self) -> (cloned: Self)
        ensures
            same_type_alias(cloned, *self),
    {
        TypeAlias {
            name: self.name.clone(),
            original_name: self.original_name.clone(),
            type_: self.type_.clone(),
            public: self.public,
            external: self.external,
            position: self.position.clone(),
        }
    }
}

/// A declaration of a function defined elsewhere: its name and its
/// function type.
#[derive(Debug, PartialEq)]
pub struct Declaration {
    pub name: String,
    pub type_: crate::hir::types::Function,
    pub position: Position,
}

impl Declaration {
    pub fn new(name: &str, type_: crate::hir::types::Function, position: Position) -> (declaration:
        Declaration)
        ensures
            declaration.name@ == name@,
            declaration.type_ == type_,
            declaration.position == position,
    {
        Declaration { name: name.to_owned(), type_, position }
    }
}

/// Whether two declarations declare the same name at the same function
/// type.
pub open spec fn same_declaration(a: Declaration, b: Declaration) -> bool {
    a.name@ == b.name@ && same_type(
        Type::Function(a.type_),
        Type::Function(b.type_),
    )
}

impl Clone for Declaration {
    /// A copy declaring the same name at the same type.
    fn clone(&self) -> (cloned: Self)
        ensures
            same_declaration(cloned, *self),
    {
        Declaration {
            name: self.name.clone(),
            type_: self.type_.clone(),
            position: self.position.clone(),
        }
    }
}

/// A declaration of a function imported over the foreign-function
/// boundary: its source name, the symbol it is linked by, and its type.
#[derive(Debug, PartialEq)]
pub struct ForeignDeclaration {
    pub name: String,
    pub foreign_name: String,
    pub type_: Type,
    pub position: Position,
}

impl ForeignDeclaration {
    pub fn new(name: &str, foreign_name: &str, type_: Type, position: Position) -> (declaration:
        ForeignDeclaration)
        ensures
            declaration.name@ == name@,
            declaration.foreign_name@ == foreign_name@,
            declaration.type_ == type_,
            declaration.position == position,
    {
        ForeignDeclaration {
            name: name.to_owned(),
            foreign_name: foreign_name.to_owned(),
            type_,
            position,
        }
    }
}

/// Whether two foreign declarations import the same symbol the same way.
pub open spec fn same_foreign_declaration(a: ForeignDeclaration, b: ForeignDeclaration) -> bool {
    a.name@ == b.name@ && a.foreign_name@ == b.foreign_name@ && same_type(a.type_, b.type_)
}

impl Clone for ForeignDeclaration {
    /// A copy importing the same symbol the same way.
    fn clone(&self) -> (cloned: Self)
        ensures
            same_foreign_declaration(cloned, *self),
    {
        ForeignDeclaration {
            name: self.name.clone(),
            foreign_name: self.foreign_name.clone(),
            type_: self.type_.clone(),
            position: self.position.clone(),
        }
    }
}

/// A function definition of a module.
#[derive(Debug, PartialEq)]
pub struct Definition {
    pub name: String,
    pub original_name: String,
    pub lambda: Lambda,
    pub foreign: bool,
    pub public: bool,
    pub position: Position,
}

impl Definition {
    pub fn new(
        name: &str,
        original_name: &str,
        lambda: Lambda,
        foreign: bool,
        public: bool,
        position: Position,
    ) -> (definition: Definition)
        ensures
            definition.name@ == name@,
            definition.original_name@ == original_name@,
            definition.lambda == lambda,
            definition.foreign == foreign,
            definition.public == public,
            definition.position == position,
    {
        Definition {
            name: name.to_owned(),
            original_name: original_name.to_owned(),
            lambda,
            foreign,
            public,
            position,
        }
    }
}

/// A module: its type definitions and aliases, its declarations of
/// functions defined elsewhere or abroad, and its own definitions.
#[derive(Debug, PartialEq)]
pub struct Module {
    pub type_definitions: Vec<TypeDefinition>,
    pub type_aliases: Vec<TypeAlias>,
    pub foreign_declarations: Vec<ForeignDeclaration>,
    pub declarations: Vec<Declaration>,
    pub definitions: Vec<Definition>,
    pub position: Position,
}

impl Module {
    pub fn new(
        type_definitions: Vec<TypeDefinition>,
        type_aliases: Vec<TypeAlias>,
        foreign_declarations: Vec<ForeignDeclaration>,
        declarations: Vec<Declaration>,
        definitions: Vec<Definition>,
        position: Position,
    ) -> (module: Module)
        ensures
            module.type_definitions == type_definitions,
            module.type_aliases == type_aliases,
            module.foreign_declarations == foreign_declarations,
            module.declarations == declarations,
            module.definitions == definitions,
            module.position == position,
    {
        Module {
            type_definitions,
            type_aliases,
            foreign_declarations,
            declarations,
            definitions,
            position,
        }
    }
}


impl Clone for Boolean {
    /// An exact copy.
    fn clone(&self) -> (cloned: Self)
        ensures
            cloned == *self,
    {
        Boolean { value: self.value, position: self.position.clone() }
    }
}

impl Clone for NoneLiteral {
    /// An exact copy.
    fn clone(&self) -> (cloned: Self)
        ensures
            cloned == *self,
    {
        NoneLiteral { position: self.position.clone() }
    }
}

impl Clone for Number {
    /// An exact copy.
    fn clone(&self) -> (cloned: Self)
        ensures
            cloned == *self,
    {
        Number { value: self.value.clone(), position: self.position.clone() }
    }
}

impl Clone for StringLiteral {
    /// An exact copy.
    fn clone(&self) -> (cloned: Self)
        ensures
            cloned == *self,
    {
        StringLiteral { value: self.value.clone(), position: self.position.clone() }
    }
}

impl Clone for Expression {
    fn clone(&self) -> Self
        decreases *self,
    {
        match self {
            Expression::Boolean(e) => Expression::Boolean(e.clone()),
            Expression::Call(e) => Expression::Call(e.clone()),
            Expression::If(e) => Expression::If(e.clone()),
            Expression::IfList(e) => Expression::IfList(e.clone()),
            Expression::IfType(e) => Expression::IfType(e.clone()),
            Expression::Lambda(e) => Expression::Lambda(e.clone()),
            Expression::Let(e) => Expression::Let(e.clone()),
            Expression::List(e) => Expression::List(e.clone()),
            Expression::NoneLiteral(e) => Expression::NoneLiteral(e.clone()),
            Expression::Number(e) => Expression::Number(e.clone()),
            Expression::Operation(e) => Expression::Operation(e.clone()),
            Expression::RecordConstruction(e) => Expression::RecordConstruction(e.clone()),
            Expression::RecordDeconstruction(e) => Expression::RecordDeconstruction(e.clone()),
            Expression::RecordUpdate(e) => Expression::RecordUpdate(e.clone()),
            Expression::StringLiteral(e) => Expression::StringLiteral(e.clone()),
            Expression::Thunk(e) => Expression::Thunk(e.clone()),
            Expression::TypeCoercion(e) => Expression::TypeCoercion(e.clone()),
            Expression::Variable(e) => Expression::Variable(e.clone()),
        }
    }
}

/// Copies a sequence of expressions.
pub fn clone_expressions(expressions: &Vec<Expression>) -> (cloned: Vec<Expression>)
    ensures
        cloned@.len() == expressions@.len(),
    decreases *expressions,
{
    let mut cloned: Vec<Expression> = Vec::with_capacity(expressions.len());
    let mut index: usize = 0;
    while index < expressions.len()
        invariant
            index <= expressions@.len(),
            cloned@.len() == index,
        decreases expressions@.len() - index,
    {
        cloned.push(expressions[index].clone());
        index = index + 1;
    }
    cloned
}

impl Clone for Lambda {
    fn clone(&self) -> Self
        decreases *self,
    {
        Lambda {
            arguments: self.arguments.clone(),
            result_type: self.result_type.clone(),
            body: Box::new((&*self.body).clone()),
            position: self.position.clone(),
        }
    }
}

impl Clone for Call {
    fn clone(&self) -> Self
        decreases *self,
    {
        Call {
            function_type: self.function_type.clone(),
            function: Box::new((&*self.function).clone()),
            arguments: clone_expressions(&self.arguments),
            position: self.position.clone(),
        }
    }
}

impl Clone for If {
    fn clone(&self) -> Self
        decreases *self,
    {
        If {
            condition: Box::new((&*self.condition).clone()),
            then_: Box::new((&*self.then_).clone()),
            else_: Box::new((&*self.else_).clone()),
            position: self.position.clone(),
        }
    }
}

impl Clone for IfList {
    fn clone(&self) -> Self
        decreases *self,
    {
        IfList {
            type_: self.type_.clone(),
            argument: Box::new((&*self.argument).clone()),
            first_name: self.first_name.clone(),
            rest_name: self.rest_name.clone(),
            then_: Box::new((&*self.then_).clone()),
            else_: Box::new((&*self.else_).clone()),
            position: self.position.clone(),
        }
    }
}

impl Clone for IfTypeBranch {
    fn clone(&self) -> Self
        decreases *self,
    {
        IfTypeBranch { type_: self.type_.clone(), expression: self.expression.clone() }
    }
}

/// Copies a sequence of type-conditional branches.
pub fn clone_if_type_branches(branches: &Vec<IfTypeBranch>) -> (cloned: Vec<IfTypeBranch>)
    ensures
        cloned@.len() == branches@.len(),
    decreases *branches,
{
    let mut cloned: Vec<IfTypeBranch> = Vec::with_capacity(branches.len());
    let mut index: usize = 0;
    while index < branches.len()
        invariant
            index <= branches@.len(),
            cloned@.len() == index,
        decreases branches@.len() - index,
    {
        cloned.push(branches[index].clone());
        index = index + 1;
    }
    cloned
}

impl Clone for ElseBranch {
    fn clone(&self) -> Self
        decreases *self,
    {
        ElseBranch {
            type_: self.type_.clone(),
            expression: Box::new((&*self.expression).clone()),
            position: self.position.clone(),
        }
    }
}

impl Clone for IfType {
    fn clone(&self) -> Self
        decreases *self,
    {
        IfType {
            name: self.name.clone(),
            argument: Box::new((&*self.argument).clone()),
            branches: clone_if_type_branches(&self.branches),
            else_: match &self.else_ {
                Some(branch) => Some(branch.clone()),
                None => None,
            },
            position: self.position.clone(),
        }
    }
}

impl Clone for Let {
    fn clone(&self) -> Self
        decreases *self,
    {
        Let {
            name: self.name.clone(),
            type_: self.type_.clone(),
            bound_expression: Box::new((&*self.bound_expression).clone()),
            expression: Box::new((&*self.expression).clone()),
            position: self.position.clone(),
        }
    }
}

impl Clone for ListElement {
    fn clone(&self) -> Self
        decreases *self,
    {
        match self {
            ListElement::Multiple(expression) => ListElement::Multiple(expression.clone()),
            ListElement::Single(expression) => ListElement::Single(expression.clone()),
        }
    }
}

/// Copies a sequence of list elements.
pub fn clone_list_elements(elements: &Vec<ListElement>) -> (cloned: Vec<ListElement>)
    ensures
        cloned@.len() == elements@.len(),
    decreases *elements,
{
    let mut cloned: Vec<ListElement> = Vec::with_capacity(elements.len());
    let mut index: usize = 0;
    while index < elements.len()
        invariant
            index <= elements@.len(),
            cloned@.len() == index,
        decreases elements@.len() - index,
    {
        cloned.push(elements[index].clone());
        index = index + 1;
    }
    cloned
}

impl Clone for List {
    fn clone(&self) -> Self
        decreases *self,
    {
        List {
            type_: self.type_.clone(),
            elements: clone_list_elements(&self.elements),
            position: self.position.clone(),
        }
    }
}

impl Clone for ArithmeticOperation {
    fn clone(&self) -> Self
        decreases *self,
    {
        ArithmeticOperation {
            operator: self.operator,
            lhs: Box::new((&*self.lhs).clone()),
            rhs: Box::new((&*self.rhs).clone()),
            position: self.position.clone(),
        }
    }
}

impl Clone for BooleanOperation {
    fn clone(&self) -> Self
        decreases *self,
    {
        BooleanOperation {
            operator: self.operator,
            lhs: Box::new((&*self.lhs).clone()),
            rhs: Box::new((&*self.rhs).clone()),
            position: self.position.clone(),
        }
    }
}

impl Clone for EqualityOperation {
    fn clone(&self) -> Self
        decreases *self,
    {
        EqualityOperation {
            type_: self.type_.clone(),
            operator: self.operator,
            lhs: Box::new((&*self.lhs).clone()),
            rhs: Box::new((&*self.rhs).clone()),
            position: self.position.clone(),
        }
    }
}

impl Clone for NotOperation {
    fn clone(&self) -> Self
        decreases *self,
    {
        NotOperation {
            expression: Box::new((&*self.expression).clone()),
            position: self.position.clone(),
        }
    }
}

impl Clone for OrderOperation {
    fn clone(&self) -> Self
        decreases *self,
    {
        OrderOperation {
            operator: self.operator,
            lhs: Box::new((&*self.lhs).clone()),
            rhs: Box::new((&*self.rhs).clone()),
            position: self.position.clone(),
        }
    }
}

impl Clone for TryOperation {
    fn clone(&self) -> Self
        decreases *self,
    {
        TryOperation {
            type_: self.type_.clone(),
            expression: Box::new((&*self.expression).clone()),
            position: self.position.clone(),
        }
    }
}

impl Clone for Operation {
    fn clone(&self) -> Self
        decreases *self,
    {
        match self {
            Operation::Arithmetic(operation) => Operation::Arithmetic(operation.clone()),
            Operation::Boolean(operation) => Operation::Boolean(operation.clone()),
            Operation::Equality(operation) => Operation::Equality(operation.clone()),
            Operation::Not(operation) => Operation::Not(operation.clone()),
            Operation::Order(operation) => Operation::Order(operation.clone()),
            Operation::Try(operation) => Operation::Try(operation.clone()),
        }
    }
}

impl Clone for RecordElement {
    fn clone(&self) -> Self
        decreases *self,
    {
        RecordElement {
            name: self.name.clone(),
            expression: self.expression.clone(),
            position: self.position.clone(),
        }
    }
}

/// Copies a sequence of record construction fields.
pub fn clone_ir_record_elements(elements: &Vec<RecordElement>) -> (cloned: Vec<RecordElement>)
    ensures
        cloned@.len() == elements@.len(),
    decreases *elements,
{
    let mut cloned: Vec<RecordElement> = Vec::with_capacity(elements.len());
    let mut index: usize = 0;
    while index < elements.len()
        invariant
            index <= elements@.len(),
            cloned@.len() == index,
        decreases elements@.len() - index,
    {
        cloned.push(elements[index].clone());
        index = index + 1;
    }
    cloned
}

impl Clone for RecordConstruction {
    fn clone(&self) -> Self
        decreases *self,
    {
        RecordConstruction {
            type_: self.type_.clone(),
            elements: clone_ir_record_elements(&self.elements),
            position: self.position.clone(),
        }
    }
}

impl Clone for RecordDeconstruction {
    fn clone(&self) -> Self
        decreases *self,
    {
        RecordDeconstruction {
            type_: self.type_.clone(),
            record: Box::new((&*self.record).clone()),
            element_name: self.element_name.clone(),
            position: self.position.clone(),
        }
    }
}

impl Clone for RecordUpdate {
    fn clone(&self) -> Self
        decreases *self,
    {
        RecordUpdate {
            type_: self.type_.clone(),
            record: Box::new((&*self.record).clone()),
            elements: clone_ir_record_elements(&self.elements),
            position: self.position.clone(),
        }
    }
}

impl Clone for Thunk {
    fn clone(&self) -> Self
        decreases *self,
    {
        Thunk {
            type_: self.type_.clone(),
            expression: Box::new((&*self.expression).clone()),
            position: self.position.clone(),
        }
    }
}

impl Clone for TypeCoercion {
    fn clone(&self) -> Self
        decreases *self,
    {
        TypeCoercion {
            from: self.from.clone(),
            to: self.to.clone(),
            argument: Box::new((&*self.argument).clone()),
            position: self.position.clone(),
        }
    }
}

impl Clone for Definition {
    /// A copy defining the same name with the same visibility; the lambda
    /// is copied along.
    fn clone(&self) -> (cloned: Self)
        ensures
            cloned.name@ == self.name@,
            cloned.original_name@ == self.original_name@,
            cloned.foreign == self.foreign,
            cloned.public == self.public,
    {
        Definition {
            name: self.name.clone(),
            original_name: self.original_name.clone(),
            lambda: self.lambda.clone(),
            foreign: self.foreign,
            public: self.public,
            position: self.position.clone(),
        }
    }
}

/// Whether two sequences of type definitions are pairwise the same.
pub open spec fn same_type_definitions(a: Seq<TypeDefinition>, b: Seq<TypeDefinition>) -> bool {
    a.len() == b.len() && forall|i: int|
        0 <= i < a.len() ==> same_type_definition(#[trigger] a[i], b[i])
}

/// Whether two sequences of type aliases are pairwise the same.
pub open spec fn same_type_aliases(a: Seq<TypeAlias>, b: Seq<TypeAlias>) -> bool {
    a.len() == b.len() && forall|i: int| 0 <= i < a.len() ==> same_type_alias(#[trigger] a[i], b[i])
}

/// Whether two sequences of foreign declarations are pairwise the same.
pub open spec fn same_foreign_declarations(
    a: Seq<ForeignDeclaration>,
    b: Seq<ForeignDeclaration>,
) -> bool {
    a.len() == b.len() && forall|i: int|
        0 <= i < a.len() ==> same_foreign_declaration(#[trigger] a[i], b[i])
}

/// Whether two sequences of declarations are pairwise the same.
pub open spec fn same_declarations(a: Seq<Declaration>, b: Seq<Declaration>) -> bool {
    a.len() == b.len() && forall|i: int|
        0 <= i < a.len() ==> same_declaration(#[trigger] a[i], b[i])
}

/// Copies a sequence of type definitions, pairwise the same.
pub fn clone_type_definitions(definitions: &Vec<TypeDefinition>) -> (cloned: Vec<TypeDefinition>)
    ensures
        same_type_definitions(cloned@, definitions@),
{
    let mut cloned: Vec<TypeDefinition> = Vec::with_capacity(definitions.len());
    let mut index: usize = 0;
    while index < definitions.len()
        invariant
            index <= definitions@.len(),
            cloned@.len() == index,
            forall|i: int|
                0 <= i < index ==> same_type_definition(#[trigger] cloned@[i], definitions@[i]),
        decreases definitions@.len() - index,
    {
        cloned.push(definitions[index].clone());
        index = index + 1;
    }
    cloned
}

/// Copies a sequence of type aliases, pairwise the same.
pub fn clone_type_aliases(aliases: &Vec<TypeAlias>) -> (cloned: Vec<TypeAlias>)
    ensures
        same_type_aliases(cloned@, aliases@),
{
    let mut cloned: Vec<TypeAlias> = Vec::with_capacity(aliases.len());
    let mut index: usize = 0;
    while index < aliases.len()
        invariant
            index <= aliases@.len(),
            cloned@.len() == index,
            forall|i: int| 0 <= i < index ==> same_type_alias(#[trigger] cloned@[i], aliases@[i]),
        decreases aliases@.len() - index,
    {
        cloned.push(aliases[index].clone());
        index = index + 1;
    }
    cloned
}

/// Copies a sequence of foreign declarations, pairwise the same.
pub fn clone_foreign_declarations(declarations: &Vec<ForeignDeclaration>) -> (cloned: Vec<
    ForeignDeclaration,
>)
    ensures
        same_foreign_declarations(cloned@, declarations@),
{
    let mut cloned: Vec<ForeignDeclaration> = Vec::with_capacity(declarations.len());
    let mut index: usize = 0;
    while index < declarations.len()
        invariant
            index <= declarations@.len(),
            cloned@.len() == index,
            forall|i: int|
                0 <= i < index ==> same_foreign_declaration(
                    #[trigger] cloned@[i],
                    declarations@[i],
                ),
        decreases declarations@.len() - index,
    {
        cloned.push(declarations[index].clone());
        index = index + 1;
    }
    cloned
}

/// Copies a sequence of declarations, pairwise the same.
pub fn clone_declarations(declarations: &Vec<Declaration>) -> (cloned: Vec<Declaration>)
    ensures
        same_declarations(cloned@, declarations@),
{
    let mut cloned: Vec<Declaration> = Vec::with_capacity(declarations.len());
    let mut index: usize = 0;
    while index < declarations.len()
        invariant
            index <= declarations@.len(),
            cloned@.len() == index,
            forall|i: int|
                0 <= i < index ==> same_declaration(#[trigger] cloned@[i], declarations@[i]),
        decreases declarations@.len() - index,
    {
        cloned.push(declarations[index].clone());
        index = index + 1;
    }
    cloned
}

/// Copies a sequence of definitions.
pub fn clone_definitions(definitions: &Vec<Definition>) -> (cloned: Vec<Definition>)
    ensures
        cloned@.len() == definitions@.len(),
{
    let mut cloned: Vec<Definition> = Vec::with_capacity(definitions.len());
    let mut index: usize = 0;
    while index < definitions.len()
        invariant
            index <= definitions@.len(),
            cloned@.len() == index,
        decreases definitions@.len() - index,
    {
        cloned.push(definitions[index].clone());
        index = index + 1;
    }
    cloned
}

impl Clone for Module {
    fn clone(&self) -> Self {
        Module {
            type_definitions: clone_type_definitions(&self.type_definitions),
            type_aliases: clone_type_aliases(&self.type_aliases),
            foreign_declarations: clone_foreign_declarations(&self.foreign_declarations),
            declarations: clone_declarations(&self.declarations),
            definitions: clone_definitions(&self.definitions),
            position: self.position.clone(),
        }
    }
}

impl Module {
    /// A module with nothing in it.
    pub fn empty() -> (module: Module)
        ensures
            module.type_definitions@.len() == 0,
            module.type_aliases@.len() == 0,
            module.foreign_declarations@.len() == 0,
            module.declarations@.len() == 0,
            module.definitions@.len() == 0,
    {
        Module {
            type_definitions: Vec::new(),
            type_aliases: Vec::new(),
            foreign_declarations: Vec::new(),
            declarations: Vec::new(),
            definitions: Vec::new(),
            position: Position::new("", 1, 1, ""),
        }
    }

    /// This module with its type definitions replaced.
    pub fn set_type_definitions(&self, type_definitions: Vec<TypeDefinition>) -> (module: Module)
        ensures
            module.type_definitions == type_definitions,
            same_type_aliases(module.type_aliases@, self.type_aliases@),
            same_foreign_declarations(module.foreign_declarations@, self.foreign_declarations@),
            same_declarations(module.declarations@, self.declarations@),
            module.definitions@.len() == self.definitions@.len(),
    {
        Module {
            type_definitions,
            type_aliases: clone_type_aliases(&self.type_aliases),
            foreign_declarations: clone_foreign_declarations(&self.foreign_declarations),
            declarations: clone_declarations(&self.declarations),
            definitions: clone_definitions(&self.definitions),
            position: self.position.clone(),
        }
    }

    /// This module with its type aliases replaced.
    pub fn set_type_aliases(&self, type_aliases: Vec<TypeAlias>) -> (module: Module)
        ensures
            module.type_aliases == type_aliases,
            same_type_definitions(module.type_definitions@, self.type_definitions@),
            same_foreign_declarations(module.foreign_declarations@, self.foreign_declarations@),
            same_declarations(module.declarations@, self.declarations@),
            module.definitions@.len() == self.definitions@.len(),
    {
        Module {
            type_definitions: clone_type_definitions(&self.type_definitions),
            type_aliases,
            foreign_declarations: clone_foreign_declarations(&self.foreign_declarations),
            declarations: clone_declarations(&self.declarations),
            definitions: clone_definitions(&self.definitions),
            position: self.position.clone(),
        }
    }

    /// This module with its declarations replaced.
    pub fn set_declarations(&self, declarations: Vec<Declaration>) -> (module: Module)
        ensures
            module.declarations == declarations,
            same_type_definitions(module.type_definitions@, self.type_definitions@),
            same_type_aliases(module.type_aliases@, self.type_aliases@),
            same_foreign_declarations(module.foreign_declarations@, self.foreign_declarations@),
            module.definitions@.len() == self.definitions@.len(),
    {
        Module {
            type_definitions: clone_type_definitions(&self.type_definitions),
            type_aliases: clone_type_aliases(&self.type_aliases),
            foreign_declarations: clone_foreign_declarations(&self.foreign_declarations),
            declarations,
            definitions: clone_definitions(&self.definitions),
            position: self.position.clone(),
        }
    }

    /// This module with its definitions replaced.
    pub fn set_definitions(&self, definitions: Vec<Definition>) -> (module: Module)
        ensures
            module.definitions == definitions,
            same_type_definitions(module.type_definitions@, self.type_definitions@),
            same_type_aliases(module.type_aliases@, self.type_aliases@),
            same_foreign_declarations(module.foreign_declarations@, self.foreign_declarations@),
            same_declarations(module.declarations@, self.declarations@),
    {
        Module {
            type_definitions: clone_type_definitions(&self.type_definitions),
            type_aliases: clone_type_aliases(&self.type_aliases),
            foreign_declarations: clone_foreign_declarations(&self.foreign_declarations),
            declarations: clone_declarations(&self.declarations),
            definitions,
            position: self.position.clone(),
        }
    }
}

impl From<Boolean> for Expression {
    fn from(node: Boolean) -> (expression: Expression) {
        Expression::Boolean(node)
    }
}

impl vstd::std_specs::convert::FromSpecImpl<Boolean> for Expression {
    open spec fn obeys_from_spec() -> bool {
        true
    }

    open spec fn from_spec(node: Boolean) -> Expression {
        Expression::Boolean(node)
    }
}

impl From<Call> for Expression {
    fn from(node: Call) -> (expression: Expression) {
        Expression::Call(node)
    }
}

impl vstd::std_specs::convert::FromSpecImpl<Call> for Expression {
    open spec fn obeys_from_spec() -> bool {
        true
    }

    open spec fn from_spec(node: Call) -> Expression {
        Expression::Call(node)
    }
}

impl From<If> for Expression {
    fn from(node: If) -> (expression: Expression) {
        Expression::If(node)
    }
}

impl vstd::std_specs::convert::FromSpecImpl<If> for Expression {
    open spec fn obeys_from_spec() -> bool {
        true
    }

    open spec fn from_spec(node: If) -> Expression {
        Expression::If(node)
    }
}

impl From<IfList> for Expression {
    fn from(node: IfList) -> (expression: Expression) {
        Expression::IfList(node)
    }
}

impl vstd::std_specs::convert::FromSpecImpl<IfList> for Expression {
    open spec fn obeys_from_spec() -> bool {
        true
    }

    open spec fn from_spec(node: IfList) -> Expression {
        Expression::IfList(node)
    }
}

impl From<IfType> for Expression {
    fn from(node: IfType) -> (expression: Expression) {
        Expression::IfType(node)
    }
}

impl vstd::std_specs::convert::FromSpecImpl<IfType> for Expression {
    open spec fn obeys_from_spec() -> bool {
        true
    }

    open spec fn from_spec(node: IfType) -> Expression {
        Expression::IfType(node)
    }
}

impl From<Lambda> for Expression {
    fn from(node: Lambda) -> (expression: Expression) {
        Expression::Lambda(node)
    }
}

impl vstd::std_specs::convert::FromSpecImpl<Lambda> for Expression {
    open spec fn obeys_from_spec() -> bool {
        true
    }

    open spec fn from_spec(node: Lambda) -> Expression {
        Expression::Lambda(node)
    }
}

impl From<Let> for Expression {
    fn from(node: Let) -> (expression: Expression) {
        Expression::Let(node)
    }
}

impl vstd::std_specs::convert::FromSpecImpl<Let> for Expression {
    open spec fn obeys_from_spec() -> bool {
        true
    }

    open spec fn from_spec(node: Let) -> Expression {
        Expression::Let(node)
    }
}

impl From<List> for Expression {
    fn from(node: List) -> (expression: Expression) {
        Expression::List(node)
    }
}

impl vstd::std_specs::convert::FromSpecImpl<List> for Expression {
    open spec fn obeys_from_spec() -> bool {
        true
    }

    open spec fn from_spec(node: List) -> Expression {
        Expression::List(node)
    }
}

impl From<NoneLiteral> for Expression {
    fn from(node: NoneLiteral) -> (expression: Expression) {
        Expression::NoneLiteral(node)
    }
}

impl vstd::std_specs::convert::FromSpecImpl<NoneLiteral> for Expression {
    open spec fn obeys_from_spec() -> bool {
        true
    }

    open spec fn from_spec(node: NoneLiteral) -> Expression {
        Expression::NoneLiteral(node)
    }
}

impl From<Number> for Expression {
    fn from(node: Number) -> (expression: Expression) {
        Expression::Number(node)
    }
}

impl vstd::std_specs::convert::FromSpecImpl<Number> for Expression {
    open spec fn obeys_from_spec() -> bool {
        true
    }

    open spec fn from_spec(node: Number) -> Expression {
        Expression::Number(node)
    }
}

impl From<StringLiteral> for Expression {
    fn from(node: StringLiteral) -> (expression: Expression) {
        Expression::StringLiteral(node)
    }
}

impl vstd::std_specs::convert::FromSpecImpl<StringLiteral> for Expression {
    open spec fn obeys_from_spec() -> bool {
        true
    }

    open spec fn from_spec(node: StringLiteral) -> Expression {
        Expression::StringLiteral(node)
    }
}

impl From<RecordConstruction> for Expression {
    fn from(node: RecordConstruction) -> (expression: Expression) {
        Expression::RecordConstruction(node)
    }
}

impl vstd::std_specs::convert::FromSpecImpl<RecordConstruction> for Expression {
    open spec fn obeys_from_spec() -> bool {
        true
    }

    open spec fn from_spec(node: RecordConstruction) -> Expression {
        Expression::RecordConstruction(node)
    }
}

impl From<RecordDeconstruction> for Expression {
    fn from(node: RecordDeconstruction) -> (expression: Expression) {
        Expression::RecordDeconstruction(node)
    }
}

impl vstd::std_specs::convert::FromSpecImpl<RecordDeconstruction> for Expression {
    open spec fn obeys_from_spec() -> bool {
        true
    }

    open spec fn from_spec(node: RecordDeconstruction) -> Expression {
        Expression::RecordDeconstruction(node)
    }
}

impl From<RecordUpdate> for Expression {
    fn from(node: RecordUpdate) -> (expression: Expression) {
        Expression::RecordUpdate(node)
    }
}

impl vstd::std_specs::convert::FromSpecImpl<RecordUpdate> for Expression {
    open spec fn obeys_from_spec() -> bool {
        true
    }

    open spec fn from_spec(node: RecordUpdate) -> Expression {
        Expression::RecordUpdate(node)
    }
}

impl From<Thunk> for Expression {
    fn from(node: Thunk) -> (expression: Expression) {
        Expression::Thunk(node)
    }
}

impl vstd::std_specs::convert::FromSpecImpl<Thunk> for Expression {
    open spec fn obeys_from_spec() -> bool {
        true
    }

    open spec fn from_spec(node: Thunk) -> Expression {
        Expression::Thunk(node)
    }
}

impl From<TypeCoercion> for Expression {
    fn from(node: TypeCoercion) -> (expression: Expression) {
        Expression::TypeCoercion(node)
    }
}

impl vstd::std_specs::convert::FromSpecImpl<TypeCoercion> for Expression {
    open spec fn obeys_from_spec() -> bool {
        true
    }

    open spec fn from_spec(node: TypeCoercion) -> Expression {
        Expression::TypeCoercion(node)
    }
}

impl From<Variable> for Expression {
    fn from(node: Variable) -> (expression: Expression) {
        Expression::Variable(node)
    }
}

impl vstd::std_specs::convert::FromSpecImpl<Variable> for Expression {
    open spec fn obeys_from_spec() -> bool {
        true
    }

    open spec fn from_spec(node: Variable) -> Expression {
        Expression::Variable(node)
    }
}

impl From<ArithmeticOperation> for Expression {
    fn from(operation: ArithmeticOperation) -> (expression: Expression) {
        Expression::Operation(Operation::Arithmetic(operation))
    }
}

impl vstd::std_specs::convert::FromSpecImpl<ArithmeticOperation> for Expression {
    open spec fn obeys_from_spec() -> bool {
        true
    }

    open spec fn from_spec(operation: ArithmeticOperation) -> Expression {
        Expression::Operation(Operation::Arithmetic(operation))
    }
}

impl From<BooleanOperation> for Expression {
    fn from(operation: BooleanOperation) -> (expression: Expression) {
        Expression::Operation(Operation::Boolean(operation))
    }
}

impl vstd::std_specs::convert::FromSpecImpl<BooleanOperation> for Expression {
    open spec fn obeys_from_spec() -> bool {
        true
    }

    open spec fn from_spec(operation: BooleanOperation) -> Expression {
        Expression::Operation(Operation::Boolean(operation))
    }
}

impl From<EqualityOperation> for Expression {
    fn from(operation: EqualityOperation) -> (expression: Expression) {
        Expression::Operation(Operation::Equality(operation))
    }
}

impl vstd::std_specs::convert::FromSpecImpl<EqualityOperation> for Expression {
    open spec fn obeys_from_spec() -> bool {
        true
    }

    open spec fn from_spec(operation: EqualityOperation) -> Expression {
        Expression::Operation(Operation::Equality(operation))
    }
}

impl From<NotOperation> for Expression {
    fn from(operation: NotOperation) -> (expression: Expression) {
        Expression::Operation(Operation::Not(operation))
    }
}

impl vstd::std_specs::convert::FromSpecImpl<NotOperation> for Expression {
    open spec fn obeys_from_spec() -> bool {
        true
    }

    open spec fn from_spec(operation: NotOperation) -> Expression {
        Expression::Operation(Operation::Not(operation))
    }
}

impl From<OrderOperation> for Expression {
    fn from(operation: OrderOperation) -> (expression: Expression) {
        Expression::Operation(Operation::Order(operation))
    }
}

impl vstd::std_specs::convert::FromSpecImpl<OrderOperation> for Expression {
    open spec fn obeys_from_spec() -> bool {
        true
    }

    open spec fn from_spec(operation: OrderOperation) -> Expression {
        Expression::Operation(Operation::Order(operation))
    }
}

impl From<TryOperation> for Expression {
    fn from(operation: TryOperation) -> (expression: Expression) {
        Expression::Operation(Operation::Try(operation))
    }
}

impl vstd::std_specs::convert::FromSpecImpl<TryOperation> for Expression {
    open spec fn obeys_from_spec() -> bool {
        true
    }

    open spec fn from_spec(operation: TryOperation) -> Expression {
        Expression::Operation(Operation::Try(operation))
    }
}
} // verus!
