//! The type language of the representation.
//!
//! Every type carries the source position it was written at; positions
//! never influence how types compare (see [`same_type`]).

use vstd::prelude::*;

use crate::position::Position;

verus! {

/// The top type: every value has it.
#[derive(Debug, PartialEq)]
pub struct Any {
    pub position: Position,
}

impl Clone for Any {
    /// An exact copy.
    fn clone(&self) -> (cloned: Self)
        ensures
            cloned == *self,
    {
        Any { position: self.position.clone() }
    }
}

impl Any {
    pub fn new(position: Position) -> (t: Any)
        ensures
            t.position == position,
    {
        Any { position }
    }
}

/// The type of booleans.
#[derive(Debug, PartialEq)]
pub struct Boolean {
    pub position: Position,
}

impl Clone for Boolean {
    /// An exact copy.
    fn clone(&self) -> (cloned: Self)
        ensures
            cloned == *self,
    {
        Boolean { position: self.position.clone() }
    }
}

impl Boolean {
    pub fn new(position: Position) -> (t: Boolean)
        ensures
            t.position == position,
    {
        Boolean { position }
    }
}

/// The type of byte strings.
#[derive(Debug, PartialEq)]
pub struct ByteString {
    pub position: Position,
}

impl Clone for ByteString {
    /// An exact copy.
    fn clone(&self) -> (cloned: Self)
        ensures
            cloned == *self,
    {
        ByteString { position: self.position.clone() }
    }
}

impl ByteString {
    pub fn new(position: Position) -> (t: ByteString)
        ensures
            t.position == position,
    {
        ByteString { position }
    }
}

/// A function type: argument types and a result type.
#[derive(Debug, PartialEq)]
pub struct Function {
    pub arguments: Vec<Type>,
    pub result: Box<Type>,
    pub position: Position,
}

impl Function {
    pub fn new(arguments: Vec<Type>, result: Type, position: Position) -> (t: Function)
        ensures
            t.arguments == arguments,
            *t.result == result,
            t.position == position,
    {
        Function { arguments, result: Box::new(result), position }
    }

    pub fn arguments(&self) -> (arguments: &[Type])
        ensures
            arguments@ == self.arguments@,
    {
        self.arguments.as_slice()
    }

    pub fn result(&self) -> (result: &Type)
        ensures
            result == &*self.result,
    {
        &self.result
    }
}

/// A list type with its element type.
#[derive(Debug, PartialEq)]
pub struct List {
    pub element: Box<Type>,
    pub position: Position,
}

impl List {
    pub fn new(element: Type, position: Position) -> (t: List)
        ensures
            *t.element == element,
            t.position == position,
    {
        List { element: Box::new(element), position }
    }

    pub fn element(&self) -> (element: &Type)
        ensures
            element == &*self.element,
    {
        &self.element
    }
}

/// The unit type: the type of the one value `none`.
#[derive(Debug, PartialEq)]
pub struct NoneType {
    pub position: Position,
}

impl Clone for NoneType {
    /// An exact copy.
    fn clone(&self) -> (cloned: Self)
        ensures
            cloned == *self,
    {
        NoneType { position: self.position.clone() }
    }
}

impl NoneType {
    pub fn new(position: Position) -> (t: NoneType)
        ensures
            t.position == position,
    {
        NoneType { position }
    }
}

/// The type of numbers.
#[derive(Debug, PartialEq)]
pub struct Number {
    pub position: Position,
}

impl Clone for Number {
    /// An exact copy.
    fn clone(&self) -> (cloned: Self)
        ensures
            cloned == *self,
    {
        Number { position: self.position.clone() }
    }
}

impl Number {
    pub fn new(position: Position) -> (t: Number)
        ensures
            t.position == position,
    {
        Number { position }
    }
}

/// A record type, referred to by its defined name.
#[derive(Debug, PartialEq)]
pub struct Record {
    pub name: String,
    pub position: Position,
}

impl Record {
    pub fn new(name: &str, position: Position) -> (t: Record)
        ensures
            t.name@ == name@,
            t.position == position,
    {
        Record { name: name.to_owned(), position }
    }

    pub fn name(&self) -> (name: &str)
        ensures
            name@ == self.name@,
    {
        self.name.as_str()
    }
}

impl Clone for Record {
    /// An exact copy.
    fn clone(&self) -> (cloned: Self)
        ensures
            cloned == *self,
    {
        Record { name: self.name.clone(), position: self.position.clone() }
    }
}

/// A not-yet-resolved reference to a named type.
#[derive(Debug, PartialEq)]
pub struct Reference {
    pub name: String,
    pub position: Position,
}

impl Reference {
    pub fn new(name: &str, position: Position) -> (t: Reference)
        ensures
            t.name@ == name@,
            t.position == position,
    {
        Reference { name: name.to_owned(), position }
    }

    pub fn name(&self) -> (name: &str)
        ensures
            name@ == self.name@,
    {
        self.name.as_str()
    }
}

impl Clone for Reference {
    /// An exact copy.
    fn clone(&self) -> (cloned: Self)
        ensures
            cloned == *self,
    {
        Reference { name: self.name.clone(), position: self.position.clone() }
    }
}

/// A union of two types.
#[derive(Debug, PartialEq)]
pub struct Union {
    pub lhs: Box<Type>,
    pub rhs: Box<Type>,
    pub position: Position,
}

impl Union {
    pub fn new(lhs: Type, rhs: Type, position: Position) -> (t: Union)
        ensures
            *t.lhs == lhs,
            *t.rhs == rhs,
            t.position == position,
    {
        Union { lhs: Box::new(lhs), rhs: Box::new(rhs), position }
    }

    pub fn lhs(&self) -> (lhs: &Type)
        ensures
            lhs == &*self.lhs,
    {
        &self.lhs
    }

    pub fn rhs(&self) -> (rhs: &Type)
        ensures
            rhs == &*self.rhs,
    {
        &self.rhs
    }
}

/// One field of a record type: its name and its type.
#[derive(Debug, PartialEq)]
pub struct RecordElement {
    pub name: String,
    pub type_: Type,
}

impl RecordElement {
    pub fn new(name: &str, type_: Type) -> (element: RecordElement)
        ensures
            element.name@ == name@,
            element.type_ == type_,
    {
        RecordElement { name: name.to_owned(), type_ }
    }

    pub fn name(&self) -> (name: &str)
        ensures
            name@ == self.name@,
    {
        self.name.as_str()
    }

    pub fn type_(&self) -> (type_: &Type)
        ensures
            type_ == &self.type_,
    {
        &self.type_
    }
}

/// A type of the representation.
#[derive(Debug, PartialEq)]
pub enum Type {
    Any(Any),
    Boolean(Boolean),
    ByteString(ByteString),
    Function(Function),
    List(List),
    NoneType(NoneType),
    Number(Number),
    Record(Record),
    Reference(Reference),
    Union(Union),
}

impl Type {
    /// Whether this is the top type.
    pub fn is_any(&self) -> (is_any: bool)
        ensures
            is_any == (self is Any),
    {
        match self {
            Type::Any(_) => true,
            _ => false,
        }
    }

    /// Whether this is a union type.
    pub fn is_union(&self) -> (is_union: bool)
        ensures
            is_union == (self is Union),
    {
        match self {
            Type::Union(_) => true,
            _ => false,
        }
    }

    /// The position the type was written at.
    pub fn position(&self) -> (position: &Position)
        ensures
            position == &self.spec_position(),
    {
        match self {
            Type::Any(t) => &t.position,
            Type::Boolean(t) => &t.position,
            Type::ByteString(t) => &t.position,
            Type::Function(t) => &t.position,
            Type::List(t) => &t.position,
            Type::NoneType(t) => &t.position,
            Type::Number(t) => &t.position,
            Type::Record(t) => &t.position,
            Type::Reference(t) => &t.position,
            Type::Union(t) => &t.position,
        }
    }

    /// The position the type was written at.
    pub open spec fn spec_position(&self) -> Position {
        match self {
            Type::Any(t) => t.position,
            Type::Boolean(t) => t.position,
            Type::ByteString(t) => t.position,
            Type::Function(t) => t.position,
            Type::List(t) => t.position,
            Type::NoneType(t) => t.position,
            Type::Number(t) => t.position,
            Type::Record(t) => t.position,
            Type::Reference(t) => t.position,
            Type::Union(t) => t.position,
        }
    }
}

/// Whether two types are the same type of the language. Positions never
/// influence the comparison, just as they never influence equality of what
/// carries them.
pub open spec fn same_type(a: Type, b: Type) -> bool
    decreases a,
{
    match (a, b) {
        (Type::Any(_), Type::Any(_)) => true,
        (Type::Boolean(_), Type::Boolean(_)) => true,
        (Type::ByteString(_), Type::ByteString(_)) => true,
        (Type::Function(x), Type::Function(y)) => {
            &&& x.arguments@.len() == y.arguments@.len()
            &&& forall|i: int|
                0 <= i < x.arguments@.len() ==> same_type(
                    #[trigger] x.arguments@[i],
                    y.arguments@[i],
                )
            &&& same_type(*x.result, *y.result)
        },
        (Type::List(x), Type::List(y)) => same_type(*x.element, *y.element),
        (Type::NoneType(_), Type::NoneType(_)) => true,
        (Type::Number(_), Type::Number(_)) => true,
        (Type::Record(x), Type::Record(y)) => x.name@ == y.name@,
        (Type::Reference(x), Type::Reference(y)) => x.name@ == y.name@,
        (Type::Union(x), Type::Union(y)) => same_type(*x.lhs, *y.lhs) && same_type(*x.rhs, *y.rhs),
        _ => false,
    }
}

/// Whether two sequences of types are pairwise the same.
pub open spec fn same_types(a: Seq<Type>, b: Seq<Type>) -> bool {
    a.len() == b.len() && forall|i: int| 0 <= i < a.len() ==> same_type(#[trigger] a[i], b[i])
}

/// Whether two record fields carry the same name and the same type.
pub open spec fn same_record_element(a: RecordElement, b: RecordElement) -> bool {
    a.name@ == b.name@ && same_type(a.type_, b.type_)
}

/// Whether two sequences of record fields are pairwise the same.
pub open spec fn same_record_elements(a: Seq<RecordElement>, b: Seq<RecordElement>) -> bool {
    a.len() == b.len() && forall|i: int|
        0 <= i < a.len() ==> same_record_element(#[trigger] a[i], b[i])
}

/// Every type is the same type as itself.
pub proof fn lemma_same_type_reflexive(t: Type)
    ensures
        same_type(t, t),
    decreases t,
{
    match t {
        Type::Function(x) => {
            assert forall|i: int| 0 <= i < x.arguments@.len() implies same_type(
                #[trigger] x.arguments@[i],
                x.arguments@[i],
            ) by {
                lemma_same_type_reflexive(x.arguments@[i]);
            }
            lemma_same_type_reflexive(*x.result);
        },
        Type::List(x) => {
            lemma_same_type_reflexive(*x.element);
        },
        Type::Union(x) => {
            lemma_same_type_reflexive(*x.lhs);
            lemma_same_type_reflexive(*x.rhs);
        },
        _ => {},
    }
}

/// Being the same type is transitive.
pub proof fn lemma_same_type_transitive(a: Type, b: Type, c: Type)
    requires
        same_type(a, b),
        same_type(b, c),
    ensures
        same_type(a, c),
    decreases a,
{
    match (a, b, c) {
        (Type::Function(x), Type::Function(y), Type::Function(z)) => {
            assert forall|i: int| 0 <= i < x.arguments@.len() implies same_type(
                #[trigger] x.arguments@[i],
                z.arguments@[i],
            ) by {
                lemma_same_type_transitive(x.arguments@[i], y.arguments@[i], z.arguments@[i]);
            }
            lemma_same_type_transitive(*x.result, *y.result, *z.result);
        },
        (Type::List(x), Type::List(y), Type::List(z)) => {
            lemma_same_type_transitive(*x.element, *y.element, *z.element);
        },
        (Type::Union(x), Type::Union(y), Type::Union(z)) => {
            lemma_same_type_transitive(*x.lhs, *y.lhs, *z.lhs);
            lemma_same_type_transitive(*x.rhs, *y.rhs, *z.rhs);
        },
        _ => {},
    }
}

impl Clone for Type {
    /// A copy that is the same type: only positions may be shared rather
    /// than re-rendered, and positions never influence comparisons.
    fn clone(&self) -> (cloned: Self)
        ensures
            same_type(cloned, *self),
        decreases *self,
    {
        match self {
            Type::Any(t) => Type::Any(t.clone()),
            Type::Boolean(t) => Type::Boolean(t.clone()),
            Type::ByteString(t) => Type::ByteString(t.clone()),
            Type::Function(t) => Type::Function(t.clone()),
            Type::List(t) => Type::List(t.clone()),
            Type::NoneType(t) => Type::NoneType(t.clone()),
            Type::Number(t) => Type::Number(t.clone()),
            Type::Record(t) => Type::Record(t.clone()),
            Type::Reference(t) => Type::Reference(t.clone()),
            Type::Union(t) => Type::Union(t.clone()),
        }
    }
}

impl Clone for Function {
    /// A copy with pairwise the same argument types and the same result
    /// type.
    fn clone(&self) -> (cloned: Self)
        ensures
            same_types(cloned.arguments@, self.arguments@),
            same_type(*cloned.result, *self.result),
            cloned.position == self.position,
        decreases *self,
    {
        Function {
            arguments: clone_types(&self.arguments),
            result: Box::new((&*self.result).clone()),
            position: self.position.clone(),
        }
    }
}

impl Clone for List {
    /// A copy with the same element type.
    fn clone(&self) -> (cloned: Self)
        ensures
            same_type(*cloned.element, *self.element),
            cloned.position == self.position,
        decreases *self,
    {
        List { element: Box::new((&*self.element).clone()), position: self.position.clone() }
    }
}

impl Clone for Union {
    /// A copy with the same member types.
    fn clone(&self) -> (cloned: Self)
        ensures
            same_type(*cloned.lhs, *self.lhs),
            same_type(*cloned.rhs, *self.rhs),
            cloned.position == self.position,
        decreases *self,
    {
        Union {
            lhs: Box::new((&*self.lhs).clone()),
            rhs: Box::new((&*self.rhs).clone()),
            position: self.position.clone(),
        }
    }
}

impl Clone for RecordElement {
    /// A copy with the same name and the same type.
    fn clone(&self) -> (cloned: Self)
        ensures
            same_record_element(cloned, *self),
    {
        RecordElement { name: self.name.clone(), type_: self.type_.clone() }
    }
}

/// Copies a sequence of types, pairwise the same.
pub fn clone_types(types: &Vec<Type>) -> (cloned: Vec<Type>)
    ensures
        same_types(cloned@, types@),
    decreases *types,
{
    let mut cloned: Vec<Type> = Vec::with_capacity(types.len());
    let mut index: usize = 0;
    while index < types.len()
        invariant
            index <= types@.len(),
            cloned@.len() == index,
            forall|i: int| 0 <= i < index ==> same_type(#[trigger] cloned@[i], types@[i]),
        decreases types@.len() - index,
    {
        cloned.push(types[index].clone());
        index = index + 1;
    }
    cloned
}

/// Copies a sequence of record fields, pairwise the same.
pub fn clone_record_elements(elements: &Vec<RecordElement>) -> (cloned: Vec<RecordElement>)
    ensures
        same_record_elements(cloned@, elements@),
{
    let mut cloned: Vec<RecordElement> = Vec::with_capacity(elements.len());
    let mut index: usize = 0;
    while index < elements.len()
        invariant
            index <= elements@.len(),
            cloned@.len() == index,
            forall|i: int|
                0 <= i < index ==> same_record_element(#[trigger] cloned@[i], elements@[i]),
        decreases elements@.len() - index,
    {
        cloned.push(elements[index].clone());
        index = index + 1;
    }
    cloned
}

impl From<Any> for Type {
    fn from(t: Any) -> (r: Type) {
        Type::Any(t)
    }
}

impl vstd::std_specs::convert::FromSpecImpl<Any> for Type {
    open spec fn obeys_from_spec() -> bool {
        true
    }

    open spec fn from_spec(t: Any) -> Type {
        Type::Any(t)
    }
}

impl From<Boolean> for Type {
    fn from(t: Boolean) -> (r: Type) {
        Type::Boolean(t)
    }
}

impl vstd::std_specs::convert::FromSpecImpl<Boolean> for Type {
    open spec fn obeys_from_spec() -> bool {
        true
    }

    open spec fn from_spec(t: Boolean) -> Type {
        Type::Boolean(t)
    }
}

impl From<ByteString> for Type {
    fn from(t: ByteString) -> (r: Type) {
        Type::ByteString(t)
    }
}

impl vstd::std_specs::convert::FromSpecImpl<ByteString> for Type {
    open spec fn obeys_from_spec() -> bool {
        true
    }

    open spec fn from_spec(t: ByteString) -> Type {
        Type::ByteString(t)
    }
}

impl From<Function> for Type {
    fn from(t: Function) -> (r: Type) {
        Type::Function(t)
    }
}

impl vstd::std_specs::convert::FromSpecImpl<Function> for Type {
    open spec fn obeys_from_spec() -> bool {
        true
    }

    open spec fn from_spec(t: Function) -> Type {
        Type::Function(t)
    }
}

impl From<List> for Type {
    fn from(t: List) -> (r: Type) {
        Type::List(t)
    }
}

impl vstd::std_specs::convert::FromSpecImpl<List> for Type {
    open spec fn obeys_from_spec() -> bool {
        true
    }

    open spec fn from_spec(t: List) -> Type {
        Type::List(t)
    }
}

impl From<NoneType> for Type {
    fn from(t: NoneType) -> (r: Type) {
        Type::NoneType(t)
    }
}

impl vstd::std_specs::convert::FromSpecImpl<NoneType> for Type {
    open spec fn obeys_from_spec() -> bool {
        true
    }

    open spec fn from_spec(t: NoneType) -> Type {
        Type::NoneType(t)
    }
}

impl From<Number> for Type {
    fn from(t: Number) -> (r: Type) {
        Type::Number(t)
    }
}

impl vstd::std_specs::convert::FromSpecImpl<Number> for Type {
    open spec fn obeys_from_spec() -> bool {
        true
    }

    open spec fn from_spec(t: Number) -> Type {
        Type::Number(t)
    }
}

impl From<Record> for Type {
    fn from(t: Record) -> (r: Type) {
        Type::Record(t)
    }
}

impl vstd::std_specs::convert::FromSpecImpl<Record> for Type {
    open spec fn obeys_from_spec() -> bool {
        true
    }

    open spec fn from_spec(t: Record) -> Type {
        Type::Record(t)
    }
}

impl From<Reference> for Type {
    fn from(t: Reference) -> (r: Type) {
        Type::Reference(t)
    }
}

impl vstd::std_specs::convert::FromSpecImpl<Reference> for Type {
    open spec fn obeys_from_spec() -> bool {
        true
    }

    open spec fn from_spec(t: Reference) -> Type {
        Type::Reference(t)
    }
}

impl From<Union> for Type {
    fn from(t: Union) -> (r: Type) {
        Type::Union(t)
    }
}

impl vstd::std_specs::convert::FromSpecImpl<Union> for Type {
    open spec fn obeys_from_spec() -> bool {
        true
    }

    open spec fn from_spec(t: Union) -> Type {
        Type::Union(t)
    }
}

} // verus!
