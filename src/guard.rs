use vstd::prelude::*;
use crate::ops::BinOp;
use crate::pattern::CallArg;
use crate::span::SrcSpan;
use crate::types::{bool_type, float_type, int_type, is_prelude_type, string_type, Type};
use std::sync::Arc;

verus! {

/// A constant expression, as allowed at module level and in guards.
#[derive(Debug, PartialEq, Eq)]
pub enum Constant<T, R> {
    Int { location: SrcSpan, value: String },
    Float { location: SrcSpan, value: String },
    String { location: SrcSpan, value: String },
    List { location: SrcSpan, elements: Vec<Constant<T, R>>, type_: T },
    /// A record built from a constructor; `tag` is the resolved record tag.
    Record {
        location: SrcSpan,
        module: Option<String>,
        name: String,
        args: Vec<CallArg<Constant<T, R>>>,
        tag: R,
        type_: T,
    },
    /// A reference to another constant.
    Var { location: SrcSpan, module: Option<String>, name: String, type_: T },
}

pub type UntypedConstant = Constant<(), ()>;

pub type TypedConstant = Constant<Arc<Type>, String>;

impl<T, R> Constant<T, R> {
    pub open spec fn location_spec(self) -> SrcSpan {
        match self {
            Constant::Int { location, .. }
            | Constant::Float { location, .. }
            | Constant::String { location, .. }
            | Constant::List { location, .. }
            | Constant::Record { location, .. }
            | Constant::Var { location, .. } => location,
        }
    }

    pub fn location(&self) -> (r: SrcSpan)
        ensures
            r == self.location_spec(),
    {
        match self {
            Constant::Int { location, .. }
            | Constant::Float { location, .. }
            | Constant::String { location, .. }
            | Constant::List { location, .. }
            | Constant::Record { location, .. }
            | Constant::Var { location, .. } => *location,
        }
    }
}

impl TypedConstant {
    /// Whether `t` is the type of the constant: fixed for literals, stored in
    /// the slot otherwise.
    pub open spec fn has_type(self, t: Type) -> bool {
        match self {
            Constant::Int { .. } => is_prelude_type(t, "Int"@),
            Constant::Float { .. } => is_prelude_type(t, "Float"@),
            Constant::String { .. } => is_prelude_type(t, "String"@),
            Constant::List { type_, .. }
            | Constant::Record { type_, .. }
            | Constant::Var { type_, .. } => t == *type_,
        }
    }

    pub fn type_(&self) -> (r: Arc<Type>)
        ensures
            self.has_type(*r),
    {
        match self {
            Constant::Int { .. } => int_type(),
            Constant::Float { .. } => float_type(),
            Constant::String { .. } => string_type(),
            Constant::List { type_, .. }
            | Constant::Record { type_, .. }
            | Constant::Var { type_, .. } => type_.clone(),
        }
    }
}

/// A guard of a case clause: a side-effect-free boolean expression.
#[derive(Debug, PartialEq, Eq)]
pub enum ClauseGuard<T, R> {
    Equals { location: SrcSpan, left: Box<ClauseGuard<T, R>>, right: Box<ClauseGuard<T, R>> },
    NotEquals { location: SrcSpan, left: Box<ClauseGuard<T, R>>, right: Box<ClauseGuard<T, R>> },
    GtInt { location: SrcSpan, left: Box<ClauseGuard<T, R>>, right: Box<ClauseGuard<T, R>> },
    GtEqInt { location: SrcSpan, left: Box<ClauseGuard<T, R>>, right: Box<ClauseGuard<T, R>> },
    LtInt { location: SrcSpan, left: Box<ClauseGuard<T, R>>, right: Box<ClauseGuard<T, R>> },
    LtEqInt { location: SrcSpan, left: Box<ClauseGuard<T, R>>, right: Box<ClauseGuard<T, R>> },
    GtFloat { location: SrcSpan, left: Box<ClauseGuard<T, R>>, right: Box<ClauseGuard<T, R>> },
    GtEqFloat { location: SrcSpan, left: Box<ClauseGuard<T, R>>, right: Box<ClauseGuard<T, R>> },
    LtFloat { location: SrcSpan, left: Box<ClauseGuard<T, R>>, right: Box<ClauseGuard<T, R>> },
    LtEqFloat { location: SrcSpan, left: Box<ClauseGuard<T, R>>, right: Box<ClauseGuard<T, R>> },
    Or { location: SrcSpan, left: Box<ClauseGuard<T, R>>, right: Box<ClauseGuard<T, R>> },
    And { location: SrcSpan, left: Box<ClauseGuard<T, R>>, right: Box<ClauseGuard<T, R>> },
    Var { location: SrcSpan, type_: T, name: String },
    TupleIndex { location: SrcSpan, index: u64, type_: T, tuple: Box<ClauseGuard<T, R>> },
    Constant(Constant<T, R>),
}

pub type UntypedClauseGuard = ClauseGuard<(), ()>;

pub type TypedClauseGuard = ClauseGuard<Arc<Type>, String>;

impl<A, B> ClauseGuard<A, B> {
    pub open spec fn location_spec(self) -> SrcSpan {
        match self {
            ClauseGuard::Constant(constant) => constant.location_spec(),
            ClauseGuard::Or { location, .. }
            | ClauseGuard::And { location, .. }
            | ClauseGuard::Var { location, .. }
            | ClauseGuard::TupleIndex { location, .. }
            | ClauseGuard::Equals { location, .. }
            | ClauseGuard::NotEquals { location, .. }
            | ClauseGuard::GtInt { location, .. }
            | ClauseGuard::GtEqInt { location, .. }
            | ClauseGuard::LtInt { location, .. }
            | ClauseGuard::LtEqInt { location, .. }
            | ClauseGuard::GtFloat { location, .. }
            | ClauseGuard::GtEqFloat { location, .. }
            | ClauseGuard::LtFloat { location, .. }
            | ClauseGuard::LtEqFloat { location, .. } => location,
        }
    }

    /// The binary operator that a comparison or logic guard stands for.
    pub open spec fn operator(self) -> Option<BinOp> {
        match self {
            ClauseGuard::Equals { .. } => Some(BinOp::Eq),
            ClauseGuard::NotEquals { .. } => Some(BinOp::NotEq),
            ClauseGuard::GtInt { .. } => Some(BinOp::GtInt),
            ClauseGuard::GtEqInt { .. } => Some(BinOp::GtEqInt),
            ClauseGuard::LtInt { .. } => Some(BinOp::LtInt),
            ClauseGuard::LtEqInt { .. } => Some(BinOp::LtEqInt),
            ClauseGuard::GtFloat { .. } => Some(BinOp::GtFloat),
            ClauseGuard::GtEqFloat { .. } => Some(BinOp::GtEqFloat),
            ClauseGuard::LtFloat { .. } => Some(BinOp::LtFloat),
            ClauseGuard::LtEqFloat { .. } => Some(BinOp::LtEqFloat),
            ClauseGuard::Or { .. } => Some(BinOp::Or),
            ClauseGuard::And { .. } => Some(BinOp::And),
            _ => None,
        }
    }

    /// Binding strength: a lower rank binds more loosely.
    pub open spec fn precedence_spec(self) -> u8 {
        match self {
            ClauseGuard::Or { .. } => 1,
            ClauseGuard::And { .. } => 2,
            ClauseGuard::Equals { .. } | ClauseGuard::NotEquals { .. } => 3,
            ClauseGuard::Constant(_) | ClauseGuard::Var { .. } | ClauseGuard::TupleIndex { .. } => 5,
            _ => 4,
        }
    }

    pub fn location(&self) -> (r: SrcSpan)
        ensures
            r == self.location_spec(),
    {
        match self {
            ClauseGuard::Constant(constant) => constant.location(),
            ClauseGuard::Or { location, .. }
            | ClauseGuard::And { location, .. }
            | ClauseGuard::Var { location, .. }
            | ClauseGuard::TupleIndex { location, .. }
            | ClauseGuard::Equals { location, .. }
            | ClauseGuard::NotEquals { location, .. }
            | ClauseGuard::GtInt { location, .. }
            | ClauseGuard::GtEqInt { location, .. }
            | ClauseGuard::LtInt { location, .. }
            | ClauseGuard::LtEqInt { location, .. }
            | ClauseGuard::GtFloat { location, .. }
            | ClauseGuard::GtEqFloat { location, .. }
            | ClauseGuard::LtFloat { location, .. }
            | ClauseGuard::LtEqFloat { location, .. } => *location,
        }
    }

    pub fn precedence(&self) -> (r: u8)
        ensures
            r == self.precedence_spec(),
    {
        match self {
            ClauseGuard::Or { .. } => 1,
            ClauseGuard::And { .. } => 2,
            ClauseGuard::Equals { .. } | ClauseGuard::NotEquals { .. } => 3,
            ClauseGuard::GtInt { .. }
            | ClauseGuard::GtEqInt { .. }
            | ClauseGuard::LtInt { .. }
            | ClauseGuard::LtEqInt { .. }
            | ClauseGuard::GtFloat { .. }
            | ClauseGuard::GtEqFloat { .. }
            | ClauseGuard::LtFloat { .. }
            | ClauseGuard::LtEqFloat { .. } => 4,
            ClauseGuard::Constant(_) | ClauseGuard::Var { .. } | ClauseGuard::TupleIndex { .. } => 5,
        }
    }
}

/// The ranking of guards follows that of the operators they stand for, and
/// the guards that are not operators bind tighter than any comparison.
pub proof fn lemma_guard_precedence_matches_operators<A, B>(g: ClauseGuard<A, B>, b: BinOp)
    ensures
        g.operator() matches Some(op) ==> g.precedence_spec() == op.precedence_spec(),
        g.operator() is None ==> g.precedence_spec() == 5,
        g.operator() is None && b.precedence_spec() <= 4 ==> b.precedence_spec()
            < g.precedence_spec(),
{
}

impl TypedClauseGuard {
    /// Whether `t` is the type of the guard: `Bool` for comparisons and
    /// logic, the stored type for variables and tuple indexing, and that of
    /// the constant for constants.
    pub open spec fn has_type(self, t: Type) -> bool {
        match self {
            ClauseGuard::Var { type_, .. } | ClauseGuard::TupleIndex { type_, .. } => t == *type_,
            ClauseGuard::Constant(constant) => constant.has_type(t),
            _ => is_prelude_type(t, "Bool"@),
        }
    }

    pub fn type_(&self) -> (r: Arc<Type>)
        ensures
            self.has_type(*r),
    {
        match self {
            ClauseGuard::Var { type_, .. } => type_.clone(),
            ClauseGuard::TupleIndex { type_, .. } => type_.clone(),
            ClauseGuard::Constant(constant) => constant.type_(),
            ClauseGuard::Or { .. }
            | ClauseGuard::And { .. }
            | ClauseGuard::Equals { .. }
            | ClauseGuard::NotEquals { .. }
            | ClauseGuard::GtInt { .. }
            | ClauseGuard::GtEqInt { .. }
            | ClauseGuard::LtInt { .. }
            | ClauseGuard::LtEqInt { .. }
            | ClauseGuard::GtFloat { .. }
            | ClauseGuard::GtEqFloat { .. }
            | ClauseGuard::LtFloat { .. }
            | ClauseGuard::LtEqFloat { .. } => bool_type(),
        }
    }
}

} // verus!
