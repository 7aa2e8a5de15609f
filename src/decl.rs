//! The declaration tree that extraction reads: top-level items, record-like
//! declarations with their field shapes, and declared-type expressions.
//! Attribute nodes are held as their rendered text.
use vstd::prelude::*;

verus! {

/// A declared-type expression.
#[derive(Debug)]
pub enum TypeExpr {
    /// A path such as `String`, `Option<i64>` or `chrono::NaiveDate`.
    Path(Vec<PathSegment>),
    /// `[T; N]`
    Array,
    /// `[T]`
    Slice,
    /// `*const T` or `*mut T`
    Ptr,
    /// `&T` or `&mut T`
    Reference,
    /// `(A, B, ...)`
    Tuple,
    /// Any other shape.
    Other,
}

/// One segment of a path, with the arguments written after it.
#[derive(Debug)]
pub struct PathSegment {
    pub ident: String,
    pub arguments: PathArguments,
}

/// The arguments of a path segment.
#[derive(Debug)]
pub enum PathArguments {
    /// No arguments.
    Plain,
    /// `<A, B, ...>`
    AngleBracketed(Vec<GenericArgument>),
    /// `(A, B) -> C`
    Parenthesized,
}

/// One argument between angle brackets.
#[derive(Debug)]
pub enum GenericArgument {
    Type(TypeExpr),
    /// A lifetime, a constant, an associated-type binding or a bound.
    Other,
}

/// One field of a record-like declaration.
#[derive(Debug)]
pub struct FieldDecl {
    pub ident: Option<String>,
    pub ty: TypeExpr,
    pub attrs: Vec<String>,
}

/// The field shape of a record-like declaration.
#[derive(Debug)]
pub enum Fields {
    Named(Vec<FieldDecl>),
    Unnamed,
    Unit,
}

/// A record-like declaration.
#[derive(Debug)]
pub struct StructDecl {
    pub ident: String,
    pub attrs: Vec<String>,
    pub fields: Fields,
}

/// A macro invocation: the segments of its path and the text of its tokens.
#[derive(Clone, Debug)]
pub struct MacroDecl {
    pub path: Vec<String>,
    pub tokens: String,
}

/// A top-level declaration.
#[derive(Debug)]
pub enum Decl {
    Struct(StructDecl),
    Macro(MacroDecl),
    Other,
}

} // verus!
