use vstd::prelude::*;
use crate::bits::BitStringSegment;
use crate::guard::ClauseGuard;
use crate::located::{found_innermost, or_else, Located};
use crate::ops::{AssignmentKind, BinOp};
use crate::pattern::{
    first_in_patterns, lemma_pattern_lookup, ArgNames, CallArg, DefinitionLocation, Inferred, Pattern, PatternConstructor,
    TypedPattern, UntypedPattern,
};
use crate::span::SrcSpan;
use crate::types::{Type, TypeAst};
use std::sync::Arc;

verus! {

broadcast use vstd::std_specs::vec::group_vec_axioms;

/// An argument of a function definition or anonymous function.
#[derive(Debug, PartialEq, Eq)]
pub struct Arg<T> {
    pub names: ArgNames,
    pub location: SrcSpan,
    pub annotation: Option<TypeAst>,
    pub type_: T,
}

pub type TypedArg = Arg<Arc<Type>>;

pub type UntypedArg = Arg<()>;

/// An expression. `T` is the type slot and `R` the record tag slot of the
/// phase.
#[derive(Debug, PartialEq, Eq)]
pub enum Expr<T, R> {
    Int { location: SrcSpan, value: String, type_: T },
    Float { location: SrcSpan, value: String, type_: T },
    String { location: SrcSpan, value: String, type_: T },
    /// A reference to a variable, with what inference learnt of its
    /// definition.
    Var { location: SrcSpan, name: String, constructor: Inferred<PatternConstructor>, type_: T },
    Block { location: SrcSpan, statements: Vec<Statement<T, R>>, type_: T },
    /// `first |> finally`: the value piped into the final call.
    Pipeline { location: SrcSpan, first: Box<Expr<T, R>>, finally: Box<Expr<T, R>> },
    Fn { location: SrcSpan, arguments: Vec<Arg<T>>, body: Vec<Statement<T, R>>, type_: T },
    Call {
        location: SrcSpan,
        fun: Box<Expr<T, R>>,
        arguments: Vec<CallArg<Expr<T, R>>>,
        type_: T,
    },
    BinOp {
        location: SrcSpan,
        name: BinOp,
        left: Box<Expr<T, R>>,
        right: Box<Expr<T, R>>,
        type_: T,
    },
    Case { location: SrcSpan, subjects: Vec<Expr<T, R>>, clauses: Vec<Clause<T, R>>, type_: T },
    Tuple { location: SrcSpan, elems: Vec<Expr<T, R>>, type_: T },
    BitString { location: SrcSpan, segments: Vec<BitStringSegment<Expr<T, R>, T>>, type_: T },
}

pub type TypedExpr = Expr<Arc<Type>, String>;

pub type UntypedExpr = Expr<(), ()>;

/// One clause of a case expression: the patterns for the subjects, any
/// alternative pattern tuples, an optional guard and the result.
#[derive(Debug, PartialEq, Eq)]
pub struct Clause<T, R> {
    pub location: SrcSpan,
    pub pattern: Vec<Pattern<T>>,
    pub alternative_patterns: Vec<Vec<Pattern<T>>>,
    pub guard: Option<ClauseGuard<T, R>>,
    pub result: Expr<T, R>,
}

pub type TypedClause = Clause<Arc<Type>, String>;

pub type UntypedClause = Clause<(), ()>;

/// A binding of a value to a pattern inside a function body.
#[derive(Debug, PartialEq, Eq)]
pub struct Assignment<T, R> {
    pub location: SrcSpan,
    pub value: Box<Expr<T, R>>,
    pub pattern: Pattern<T>,
    pub kind: AssignmentKind,
    pub annotation: Option<TypeAst>,
}

pub type TypedAssignment = Assignment<Arc<Type>, String>;

pub type UntypedAssignment = Assignment<(), ()>;

/// A pattern bound by a `use` expression.
#[derive(Debug, PartialEq, Eq)]
pub struct UseAssignment {
    pub location: SrcSpan,
    pub pattern: UntypedPattern,
    pub annotation: Option<TypeAst>,
}

/// A `use` expression. It exists only before inference, which rewrites it
/// into a call.
#[derive(Debug, PartialEq, Eq)]
pub struct Use {
    pub location: SrcSpan,
    pub assignments: Vec<UseAssignment>,
}

/// A statement of a function body.
#[derive(Debug, PartialEq, Eq)]
pub enum Statement<T, R> {
    /// A bare expression that is not assigned to any variable.
    Expression(Expr<T, R>),
    /// Assigning an expression to variables using a pattern.
    Assignment(Assignment<T, R>),
    /// A `use` expression.
    Use(Use),
}

pub type TypedStatement = Statement<Arc<Type>, String>;

pub type UntypedStatement = Statement<(), ()>;

impl<T, R> Expr<T, R> {
    pub open spec fn location_spec(self) -> SrcSpan {
        match self {
            Expr::Int { location, .. }
            | Expr::Float { location, .. }
            | Expr::String { location, .. }
            | Expr::Var { location, .. }
            | Expr::Block { location, .. }
            | Expr::Pipeline { location, .. }
            | Expr::Fn { location, .. }
            | Expr::Call { location, .. }
            | Expr::BinOp { location, .. }
            | Expr::Case { location, .. }
            | Expr::Tuple { location, .. }
            | Expr::BitString { location, .. } => location,
        }
    }

    pub fn location(&self) -> (r: SrcSpan)
        ensures
            r == self.location_spec(),
    {
        match self {
            Expr::Int { location, .. }
            | Expr::Float { location, .. }
            | Expr::String { location, .. }
            | Expr::Var { location, .. }
            | Expr::Block { location, .. }
            | Expr::Pipeline { location, .. }
            | Expr::Fn { location, .. }
            | Expr::Call { location, .. }
            | Expr::BinOp { location, .. }
            | Expr::Case { location, .. }
            | Expr::Tuple { location, .. }
            | Expr::BitString { location, .. } => *location,
        }
    }

    pub fn is_pipeline(&self) -> (r: bool)
        ensures
            r == (*self is Pipeline),
    {
        match self {
            Expr::Pipeline { .. } => true,
            _ => false,
        }
    }
}

pub type TypedExprBitStringSegment = BitStringSegment<TypedExpr, Arc<Type>>;

pub type UntypedExprBitStringSegment = BitStringSegment<UntypedExpr, ()>;

impl TypedExpr {
    /// The node found at offset `i`: nothing outside the expression's span;
    /// otherwise the first child, in source order, that finds something, or
    /// else the expression itself.
    pub open spec fn find_spec(&self, i: int) -> Option<Located<'_>>
        decreases *self, 1nat,
    {
        if !self.location_spec().contains_spec(i) {
            None
        } else {
            let inner = match *self {
                Expr::Block { statements, .. } => first_in_statements(statements@, i),
                Expr::Pipeline { first, finally, .. } => or_else(first.find_spec(i), finally.find_spec(i)),
                Expr::Fn { arguments, body, .. } => or_else(
                    first_in_args(arguments@, i),
                    first_in_statements(body@, i),
                ),
                Expr::Call { fun, arguments, .. } => or_else(
                    fun.find_spec(i),
                    first_in_call_args(arguments@, i),
                ),
                Expr::BinOp { left, right, .. } => or_else(left.find_spec(i), right.find_spec(i)),
                Expr::Case { subjects, clauses, .. } => or_else(
                    first_in_exprs(subjects@, i),
                    first_in_clauses(clauses@, i),
                ),
                Expr::Tuple { elems, .. } => first_in_exprs(elems@, i),
                Expr::BitString { segments, .. } => first_in_segments(segments@, i),
                _ => None,
            };
            or_else(inner, Some(Located::Expression(self)))
        }
    }

    pub fn find_node(&self, byte_index: u32) -> (r: Option<Located<'_>>)
        ensures
            r == self.find_spec(byte_index as int),
        decreases *self, 1nat,
    {
        if !self.location().contains(byte_index) {
            return None;
        }
        let inner = match self {
            Expr::Block { statements, .. } => find_in_statements(statements, byte_index, Ghost(*self)),
            Expr::Pipeline { first, finally, .. } => {
                let found = first.find_node(byte_index);
                if found.is_some() {
                    found
                } else {
                    finally.find_node(byte_index)
                }
            },
            Expr::Fn { arguments, body, .. } => {
                let found = find_in_args(arguments, byte_index, Ghost(*self));
                if found.is_some() {
                    found
                } else {
                    find_in_statements(body, byte_index, Ghost(*self))
                }
            },
            Expr::Call { fun, arguments, .. } => {
                let found = fun.find_node(byte_index);
                if found.is_some() {
                    found
                } else {
                    find_in_call_args(arguments, byte_index, Ghost(*self))
                }
            },
            Expr::BinOp { left, right, .. } => {
                let found = left.find_node(byte_index);
                if found.is_some() {
                    found
                } else {
                    right.find_node(byte_index)
                }
            },
            Expr::Case { subjects, clauses, .. } => {
                let found = find_in_exprs(subjects, byte_index, Ghost(*self));
                if found.is_some() {
                    found
                } else {
                    find_in_clauses(clauses, byte_index, Ghost(*self))
                }
            },
            Expr::Tuple { elems, .. } => find_in_exprs(elems, byte_index, Ghost(*self)),
            Expr::BitString { segments, .. } => find_in_segments(segments, byte_index, Ghost(*self)),
            _ => None,
        };
        if inner.is_some() {
            inner
        } else {
            Some(Located::Expression(self))
        }
    }
}

impl CallArg<TypedExpr> {
    pub fn find_node(&self, byte_index: u32) -> (r: Option<Located<'_>>)
        ensures
            r == self.value.find_spec(byte_index as int),
    {
        self.value.find_node(byte_index)
    }
}

impl TypedExprBitStringSegment {
    pub fn find_node(&self, byte_index: u32) -> (r: Option<Located<'_>>)
        ensures
            r == self.value.find_spec(byte_index as int),
    {
        self.value.find_node(byte_index)
    }
}

impl TypedArg {
    /// An argument is found whole when its span holds the offset.
    pub open spec fn find_spec(&self, i: int) -> Option<Located<'_>> {
        if self.location.contains_spec(i) {
            Some(Located::Arg(self))
        } else {
            None
        }
    }

    pub fn find_node(&self, byte_index: u32) -> (r: Option<Located<'_>>)
        ensures
            r == self.find_spec(byte_index as int),
    {
        if self.location.contains(byte_index) {
            Some(Located::Arg(self))
        } else {
            None
        }
    }
}

impl TypedClause {
    /// The span from the start of the first pattern, or offset zero when
    /// there is none, to the end of the result expression.
    pub open spec fn location_spec(self) -> SrcSpan {
        SrcSpan {
            start: if self.pattern@.len() > 0 {
                self.pattern@[0].location_spec().start
            } else {
                0
            },
            end: self.result.location_spec().end,
        }
    }

    /// The first primary pattern that finds a node at offset `i`, or else the
    /// first pattern of the alternative tuples, in order, or else what the
    /// result expression finds.
    pub open spec fn find_spec(&self, i: int) -> Option<Located<'_>>
        decreases *self, 1nat,
    {
        or_else(
            first_in_patterns(self.pattern@, i),
            or_else(first_in_alternatives(self.alternative_patterns@, i), self.result.find_spec(i)),
        )
    }

    pub fn location(&self) -> (r: SrcSpan)
        ensures
            r == self.location_spec(),
    {
        let start = if self.pattern.len() > 0 {
            self.pattern[0].location().start
        } else {
            0
        };
        SrcSpan { start, end: self.result.location().end }
    }

    pub fn find_node(&self, byte_index: u32) -> (r: Option<Located<'_>>)
        ensures
            r == self.find_spec(byte_index as int),
        decreases *self, 1nat,
    {
        let found = find_in_clause_patterns(&self.pattern, byte_index);
        if found.is_some() {
            return found;
        }
        let found = find_in_alternatives(&self.alternative_patterns, byte_index);
        if found.is_some() {
            found
        } else {
            self.result.find_node(byte_index)
        }
    }
}

/// The first pattern of a sequence of alternative pattern tuples that finds
/// a node at offset `i`.
pub open spec fn first_in_alternatives<'a>(xs: Seq<Vec<TypedPattern>>, i: int) -> Option<Located<'a>>
    decreases xs.len(),
{
    if xs.len() == 0 {
        None
    } else {
        or_else(first_in_patterns(xs[0]@, i), first_in_alternatives(xs.subrange(1, xs.len() as int), i))
    }
}

fn find_in_alternatives<'a>(xs: &'a Vec<Vec<TypedPattern>>, byte_index: u32) -> (r: Option<Located<'a>>)
    ensures
        r == first_in_alternatives(xs@, byte_index as int),
{
    let n = xs.len();
    let mut k: usize = 0;
    proof {
        assert(xs@.subrange(0, n as int) =~= xs@);
    }
    while k < n
        invariant
            k <= n,
            n == xs@.len(),
            first_in_alternatives(xs@, byte_index as int) == first_in_alternatives(
                xs@.subrange(k as int, n as int),
                byte_index as int,
            ),
        decreases n - k,
    {
        proof {
            let a = xs@.subrange(k as int, n as int);
            assert(a.subrange(1, a.len() as int) =~= xs@.subrange(k + 1, n as int));
            assert(a[0] == xs@[k as int]);
        }
        let found = find_in_clause_patterns(&xs[k], byte_index);
        if found.is_some() {
            return found;
        }
        k = k + 1;
    }
    None
}

fn find_in_clause_patterns<'a>(xs: &'a Vec<TypedPattern>, byte_index: u32) -> (r: Option<Located<'a>>)
    ensures
        r == first_in_patterns(xs@, byte_index as int),
{
    let n = xs.len();
    let mut k: usize = 0;
    proof {
        assert(xs@.subrange(0, n as int) =~= xs@);
    }
    while k < n
        invariant
            k <= n,
            n == xs@.len(),
            first_in_patterns(xs@, byte_index as int) == first_in_patterns(
                xs@.subrange(k as int, n as int),
                byte_index as int,
            ),
        decreases n - k,
    {
        proof {
            let a = xs@.subrange(k as int, n as int);
            assert(a.subrange(1, a.len() as int) =~= xs@.subrange(k + 1, n as int));
            assert(a[0] == xs@[k as int]);
        }
        let found = xs[k].find_node(byte_index);
        if found.is_some() {
            return found;
        }
        k = k + 1;
    }
    None
}

impl TypedAssignment {
    /// What the pattern finds, or else what the value finds.
    pub open spec fn find_spec(&self, i: int) -> Option<Located<'_>>
        decreases *self, 1nat,
    {
        or_else(self.pattern.find_spec(i), self.value.find_spec(i))
    }

    pub fn find_node(&self, byte_index: u32) -> (r: Option<Located<'_>>)
        ensures
            r == self.find_spec(byte_index as int),
        decreases *self, 1nat,
    {
        let found = self.pattern.find_node(byte_index);
        if found.is_some() {
            found
        } else {
            self.value.find_node(byte_index)
        }
    }
}

impl TypedStatement {
    /// A `use` finds nothing; an expression statement finds what its
    /// expression finds; an assignment finds what its parts find, or else
    /// itself when its span holds the offset.
    pub open spec fn find_spec(&self, i: int) -> Option<Located<'_>>
        decreases *self, 1nat,
    {
        match *self {
            Statement::Use(_) => None,
            Statement::Expression(expression) => expression.find_spec(i),
            Statement::Assignment(assignment) => or_else(
                assignment.find_spec(i),
                if assignment.location.contains_spec(i) {
                    Some(Located::Statement(self))
                } else {
                    None
                },
            ),
        }
    }

    pub fn find_node(&self, byte_index: u32) -> (r: Option<Located<'_>>)
        ensures
            r == self.find_spec(byte_index as int),
        decreases *self, 1nat,
    {
        match self {
            Statement::Use(_) => None,
            Statement::Expression(expression) => expression.find_node(byte_index),
            Statement::Assignment(assignment) => {
                let found = assignment.find_node(byte_index);
                if found.is_some() {
                    found
                } else if assignment.location.contains(byte_index) {
                    Some(Located::Statement(self))
                } else {
                    None
                }
            },
        }
    }
}

/// The first expression of a sequence that finds a node at offset `i`.
pub open spec fn first_in_exprs<'a>(xs: Seq<TypedExpr>, i: int) -> Option<Located<'a>>
    decreases xs, 0nat,
{
    if xs.len() == 0 {
        None
    } else {
        or_else(xs[0].find_spec(i), first_in_exprs(xs.subrange(1, xs.len() as int), i))
    }
}

/// The first statement of a sequence that finds a node at offset `i`.
pub open spec fn first_in_statements<'a>(xs: Seq<TypedStatement>, i: int) -> Option<Located<'a>>
    decreases xs, 0nat,
{
    if xs.len() == 0 {
        None
    } else {
        or_else(xs[0].find_spec(i), first_in_statements(xs.subrange(1, xs.len() as int), i))
    }
}

/// The first call argument that finds a node at offset `i`.
pub open spec fn first_in_call_args<'a>(xs: Seq<CallArg<TypedExpr>>, i: int) -> Option<Located<'a>>
    decreases xs, 0nat,
{
    if xs.len() == 0 {
        None
    } else {
        or_else(xs[0].value.find_spec(i), first_in_call_args(xs.subrange(1, xs.len() as int), i))
    }
}

/// The first clause that finds a node at offset `i`.
pub open spec fn first_in_clauses<'a>(xs: Seq<TypedClause>, i: int) -> Option<Located<'a>>
    decreases xs, 0nat,
{
    if xs.len() == 0 {
        None
    } else {
        or_else(xs[0].find_spec(i), first_in_clauses(xs.subrange(1, xs.len() as int), i))
    }
}

/// The first function argument whose span holds offset `i`.
pub open spec fn first_in_args<'a>(xs: Seq<TypedArg>, i: int) -> Option<Located<'a>>
    decreases xs, 0nat,
{
    if xs.len() == 0 {
        None
    } else {
        or_else(xs[0].find_spec(i), first_in_args(xs.subrange(1, xs.len() as int), i))
    }
}

/// The first bit-string segment whose value finds a node at offset `i`.
pub open spec fn first_in_segments<'a>(xs: Seq<TypedExprBitStringSegment>, i: int) -> Option<Located<'a>>
    decreases xs, 0nat,
{
    if xs.len() == 0 {
        None
    } else {
        or_else(xs[0].value.find_spec(i), first_in_segments(xs.subrange(1, xs.len() as int), i))
    }
}

fn find_in_exprs<'a>(xs: &'a Vec<TypedExpr>, byte_index: u32, Ghost(parent): Ghost<TypedExpr>) -> (r:
    Option<Located<'a>>)
    requires
        decreases_to!(parent => xs),
    ensures
        r == first_in_exprs(xs@, byte_index as int),
    decreases parent, 0nat,
{
    let n = xs.len();
    let mut k: usize = 0;
    proof {
        assert(xs@.subrange(0, n as int) =~= xs@);
    }
    while k < n
        invariant
            k <= n,
            n == xs@.len(),
            decreases_to!(parent => xs),
            first_in_exprs(xs@, byte_index as int) == first_in_exprs(
                xs@.subrange(k as int, n as int),
                byte_index as int,
            ),
        decreases n - k,
    {
        proof {
            assert(decreases_to!(xs => xs@[k as int]));
            let a = xs@.subrange(k as int, n as int);
            assert(a.subrange(1, a.len() as int) =~= xs@.subrange(k + 1, n as int));
            assert(a[0] == xs@[k as int]);
        }
        let found = xs[k].find_node(byte_index);
        if found.is_some() {
            return found;
        }
        k = k + 1;
    }
    None
}

fn find_in_statements<'a>(xs: &'a Vec<TypedStatement>, byte_index: u32, Ghost(parent): Ghost<TypedExpr>) -> (r:
    Option<Located<'a>>)
    requires
        decreases_to!(parent => xs),
    ensures
        r == first_in_statements(xs@, byte_index as int),
    decreases parent, 0nat,
{
    let n = xs.len();
    let mut k: usize = 0;
    proof {
        assert(xs@.subrange(0, n as int) =~= xs@);
    }
    while k < n
        invariant
            k <= n,
            n == xs@.len(),
            decreases_to!(parent => xs),
            first_in_statements(xs@, byte_index as int) == first_in_statements(
                xs@.subrange(k as int, n as int),
                byte_index as int,
            ),
        decreases n - k,
    {
        proof {
            assert(decreases_to!(xs => xs@[k as int]));
            let a = xs@.subrange(k as int, n as int);
            assert(a.subrange(1, a.len() as int) =~= xs@.subrange(k + 1, n as int));
            assert(a[0] == xs@[k as int]);
        }
        let found = xs[k].find_node(byte_index);
        if found.is_some() {
            return found;
        }
        k = k + 1;
    }
    None
}

fn find_in_call_args<'a>(xs: &'a Vec<CallArg<TypedExpr>>, byte_index: u32, Ghost(parent): Ghost<TypedExpr>) -> (r:
    Option<Located<'a>>)
    requires
        decreases_to!(parent => xs),
    ensures
        r == first_in_call_args(xs@, byte_index as int),
    decreases parent, 0nat,
{
    let n = xs.len();
    let mut k: usize = 0;
    proof {
        assert(xs@.subrange(0, n as int) =~= xs@);
    }
    while k < n
        invariant
            k <= n,
            n == xs@.len(),
            decreases_to!(parent => xs),
            first_in_call_args(xs@, byte_index as int) == first_in_call_args(
                xs@.subrange(k as int, n as int),
                byte_index as int,
            ),
        decreases n - k,
    {
        proof {
            assert(decreases_to!(xs => xs@[k as int]));
            let a = xs@.subrange(k as int, n as int);
            assert(a.subrange(1, a.len() as int) =~= xs@.subrange(k + 1, n as int));
            assert(a[0] == xs@[k as int]);
        }
        let found = xs[k].value.find_node(byte_index);
        if found.is_some() {
            return found;
        }
        k = k + 1;
    }
    None
}

fn find_in_clauses<'a>(xs: &'a Vec<TypedClause>, byte_index: u32, Ghost(parent): Ghost<TypedExpr>) -> (r:
    Option<Located<'a>>)
    requires
        decreases_to!(parent => xs),
    ensures
        r == first_in_clauses(xs@, byte_index as int),
    decreases parent, 0nat,
{
    let n = xs.len();
    let mut k: usize = 0;
    proof {
        assert(xs@.subrange(0, n as int) =~= xs@);
    }
    while k < n
        invariant
            k <= n,
            n == xs@.len(),
            decreases_to!(parent => xs),
            first_in_clauses(xs@, byte_index as int) == first_in_clauses(
                xs@.subrange(k as int, n as int),
                byte_index as int,
            ),
        decreases n - k,
    {
        proof {
            assert(decreases_to!(xs => xs@[k as int]));
            let a = xs@.subrange(k as int, n as int);
            assert(a.subrange(1, a.len() as int) =~= xs@.subrange(k + 1, n as int));
            assert(a[0] == xs@[k as int]);
        }
        let found = xs[k].find_node(byte_index);
        if found.is_some() {
            return found;
        }
        k = k + 1;
    }
    None
}

fn find_in_args<'a>(xs: &'a Vec<TypedArg>, byte_index: u32, Ghost(parent): Ghost<TypedExpr>) -> (r:
    Option<Located<'a>>)
    requires
        decreases_to!(parent => xs),
    ensures
        r == first_in_args(xs@, byte_index as int),
    decreases parent, 0nat,
{
    let n = xs.len();
    let mut k: usize = 0;
    proof {
        assert(xs@.subrange(0, n as int) =~= xs@);
    }
    while k < n
        invariant
            k <= n,
            n == xs@.len(),
            decreases_to!(parent => xs),
            first_in_args(xs@, byte_index as int) == first_in_args(
                xs@.subrange(k as int, n as int),
                byte_index as int,
            ),
        decreases n - k,
    {
        proof {
            assert(decreases_to!(xs => xs@[k as int]));
            let a = xs@.subrange(k as int, n as int);
            assert(a.subrange(1, a.len() as int) =~= xs@.subrange(k + 1, n as int));
            assert(a[0] == xs@[k as int]);
        }
        let found = xs[k].find_node(byte_index);
        if found.is_some() {
            return found;
        }
        k = k + 1;
    }
    None
}

fn find_in_segments<'a>(xs: &'a Vec<TypedExprBitStringSegment>, byte_index: u32, Ghost(parent): Ghost<TypedExpr>) -> (r:
    Option<Located<'a>>)
    requires
        decreases_to!(parent => xs),
    ensures
        r == first_in_segments(xs@, byte_index as int),
    decreases parent, 0nat,
{
    let n = xs.len();
    let mut k: usize = 0;
    proof {
        assert(xs@.subrange(0, n as int) =~= xs@);
    }
    while k < n
        invariant
            k <= n,
            n == xs@.len(),
            decreases_to!(parent => xs),
            first_in_segments(xs@, byte_index as int) == first_in_segments(
                xs@.subrange(k as int, n as int),
                byte_index as int,
            ),
        decreases n - k,
    {
        proof {
            assert(decreases_to!(xs => xs@[k as int]));
            let a = xs@.subrange(k as int, n as int);
            assert(a.subrange(1, a.len() as int) =~= xs@.subrange(k + 1, n as int));
            assert(a[0] == xs@[k as int]);
        }
        let found = xs[k].value.find_node(byte_index);
        if found.is_some() {
            return found;
        }
        k = k + 1;
    }
    None
}

/// The name given to the hole of a function capture such as `f(_, 1)`.
pub const CAPTURE_VARIABLE: &'static str = "_capture";

/// The variable that receives each step of a pipeline.
pub const PIPE_VARIABLE: &'static str = "_pipe";

/// The variable bound to the result of a `try`.
pub const TRY_VARIABLE: &'static str = "_try";

/// The variable bound to the callback argument of a `use`.
pub const USE_ASSIGNMENT_VARIABLE: &'static str = "_use";

/// The variable holding the value that failed a `let assert`.
pub const ASSERT_FAIL_VARIABLE: &'static str = "_assert_fail";

/// The variable holding the subject of a `let assert`.
pub const ASSERT_SUBJECT_VARIABLE: &'static str = "_assert_subject";

impl CallArg<UntypedExpr> {
    /// Whether the argument is the hole of a function capture.
    pub fn is_capture_hole(&self) -> (r: bool)
        ensures
            r == (self.value matches Expr::Var { name, .. } && name@ == CAPTURE_VARIABLE@),
    {
        match &self.value {
            Expr::Var { name, .. } => name.eq(&CAPTURE_VARIABLE.to_owned()),
            _ => false,
        }
    }
}

/// The base record of a record update.
#[derive(Debug, PartialEq, Eq)]
pub struct RecordUpdateSpread {
    pub base: Box<UntypedExpr>,
    pub location: SrcSpan,
}

/// A field given a new value in a record update, before inference.
#[derive(Debug, PartialEq, Eq)]
pub struct UntypedRecordUpdateArg {
    pub label: String,
    pub location: SrcSpan,
    pub value: UntypedExpr,
}

/// A field given a new value in a record update, with its field index.
#[derive(Debug, PartialEq, Eq)]
pub struct TypedRecordUpdateArg {
    pub label: String,
    pub location: SrcSpan,
    pub value: TypedExpr,
    pub index: u32,
}

impl TypedRecordUpdateArg {
    pub fn find_node(&self, byte_index: u32) -> (r: Option<Located<'_>>)
        ensures
            r == self.value.find_spec(byte_index as int),
    {
        self.value.find_node(byte_index)
    }
}

impl<T, R> Expr<T, R> {
    pub fn start_byte_index(&self) -> (r: u32)
        ensures
            r == self.location_spec().start,
    {
        self.location().start
    }
}

impl TypedExpr {
    /// Whether `t` is the type of the expression: the stored type, or for a
    /// pipeline that of its final call.
    pub open spec fn has_type(self, t: Type) -> bool
        decreases self,
    {
        match self {
            Expr::Pipeline { finally, .. } => finally.has_type(t),
            Expr::Int { type_, .. }
            | Expr::Float { type_, .. }
            | Expr::String { type_, .. }
            | Expr::Var { type_, .. }
            | Expr::Block { type_, .. }
            | Expr::Fn { type_, .. }
            | Expr::Call { type_, .. }
            | Expr::BinOp { type_, .. }
            | Expr::Case { type_, .. }
            | Expr::Tuple { type_, .. }
            | Expr::BitString { type_, .. } => t == *type_,
        }
    }

    pub fn type_(&self) -> (r: Arc<Type>)
        ensures
            self.has_type(*r),
        decreases self,
    {
        match self {
            Expr::Pipeline { finally, .. } => finally.type_(),
            Expr::Int { type_, .. }
            | Expr::Float { type_, .. }
            | Expr::String { type_, .. }
            | Expr::Var { type_, .. }
            | Expr::Block { type_, .. }
            | Expr::Fn { type_, .. }
            | Expr::Call { type_, .. }
            | Expr::BinOp { type_, .. }
            | Expr::Case { type_, .. }
            | Expr::Tuple { type_, .. }
            | Expr::BitString { type_, .. } => type_.clone(),
        }
    }

    /// Where the value of a variable was defined, when inference knows it.
    pub fn definition_location(&self) -> (r: Option<DefinitionLocation<'_>>)
        ensures
            match *self {
                Expr::Var { constructor: Inferred::Known(c), .. } => r matches Some(d)
                    && crate::pattern::borrows_opt(d.module, c.module) && d.span == c.location,
                _ => r is None,
            },
    {
        match self {
            Expr::Var { constructor, .. } => constructor.definition_location(),
            _ => None,
        }
    }

    /// The span that decides the type of the expression: that of the last
    /// statement of a block, of the final call of a pipeline, or else the
    /// expression's own.
    pub open spec fn type_defining_location_spec(self) -> SrcSpan
        decreases self,
    {
        match self {
            Expr::Block { statements, .. } => if statements@.len() > 0 {
                statements@.last().type_defining_location_spec()
            } else {
                self.location_spec()
            },
            Expr::Pipeline { finally, .. } => finally.type_defining_location_spec(),
            _ => self.location_spec(),
        }
    }

    pub fn type_defining_location(&self) -> (r: SrcSpan)
        ensures
            r == self.type_defining_location_spec(),
        decreases self,
    {
        match self {
            Expr::Block { statements, .. } => {
                if statements.len() > 0 {
                    proof {
                        assert(decreases_to!(statements => statements@[statements@.len() - 1]));
                    }
                    statements[statements.len() - 1].type_defining_location()
                } else {
                    self.location()
                }
            },
            Expr::Pipeline { finally, .. } => finally.type_defining_location(),
            _ => self.location(),
        }
    }
}

impl<T, E> Statement<T, E> {
    /// Whether the statement is a bare expression.
    pub fn is_expression(&self) -> (r: bool)
        ensures
            r == (*self is Expression),
    {
        match self {
            Statement::Expression(..) => true,
            _ => false,
        }
    }

    pub open spec fn location_spec(self) -> SrcSpan {
        match self {
            Statement::Expression(expression) => expression.location_spec(),
            Statement::Assignment(assignment) => assignment.location,
            Statement::Use(use_) => use_.location,
        }
    }

    pub fn location(&self) -> (r: SrcSpan)
        ensures
            r == self.location_spec(),
    {
        match self {
            Statement::Expression(expression) => expression.location(),
            Statement::Assignment(assignment) => assignment.location,
            Statement::Use(use_) => use_.location,
        }
    }

    pub fn start_byte_index(&self) -> (r: u32)
        ensures
            r == self.location_spec().start,
    {
        match self {
            Statement::Expression(expression) => expression.start_byte_index(),
            Statement::Assignment(assignment) => assignment.location.start,
            Statement::Use(use_) => use_.location.start,
        }
    }
}

impl TypedStatement {
    pub fn is_non_pipe_expression(&self) -> (r: bool)
        ensures
            r == (*self matches Statement::Expression(e) && !(e is Pipeline)),
    {
        match self {
            Statement::Expression(expression) => !expression.is_pipeline(),
            _ => false,
        }
    }

    /// The type of an expression statement is that of its expression, of an
    /// assignment that of its value. A `use` has none: inference removes it.
    pub open spec fn has_type(self, t: Type) -> bool {
        match self {
            Statement::Expression(expression) => expression.has_type(t),
            Statement::Assignment(assignment) => assignment.value.has_type(t),
            Statement::Use(_) => false,
        }
    }

    pub fn type_(&self) -> (r: Arc<Type>)
        requires
            !(*self is Use),
        ensures
            self.has_type(*r),
    {
        match self {
            Statement::Expression(expression) => expression.type_(),
            Statement::Assignment(assignment) => assignment.type_(),
            Statement::Use(_) => unreached(),
        }
    }

    pub fn definition_location(&self) -> (r: Option<DefinitionLocation<'_>>)
        ensures
            match *self {
                Statement::Expression(Expr::Var { constructor: Inferred::Known(c), .. }) => r matches Some(d)
                    && crate::pattern::borrows_opt(d.module, c.module) && d.span == c.location,
                _ => r is None,
            },
    {
        match self {
            Statement::Expression(expression) => expression.definition_location(),
            Statement::Assignment(_) => None,
            Statement::Use(_) => None,
        }
    }

    pub open spec fn type_defining_location_spec(self) -> SrcSpan
        decreases self,
    {
        match self {
            Statement::Expression(expression) => expression.type_defining_location_spec(),
            Statement::Assignment(assignment) => assignment.location,
            Statement::Use(use_) => use_.location,
        }
    }

    pub fn type_defining_location(&self) -> (r: SrcSpan)
        ensures
            r == self.type_defining_location_spec(),
        decreases self,
    {
        match self {
            Statement::Expression(expression) => expression.type_defining_location(),
            Statement::Assignment(assignment) => assignment.location,
            Statement::Use(use_) => use_.location,
        }
    }
}

impl TypedAssignment {
    pub fn type_(&self) -> (r: Arc<Type>)
        ensures
            self.value.has_type(*r),
    {
        self.value.type_()
    }
}

/// Looking up an offset in an expression finds something exactly when the
/// expression's span holds the offset, and what it finds is the innermost
/// node there.
pub proof fn lemma_expr_lookup(e: TypedExpr, i: int)
    ensures
        e.find_spec(i) is Some <==> e.location_spec().contains_spec(i),
        found_innermost(e.find_spec(i), i),
    decreases e, 1nat,
{
    if e.location_spec().contains_spec(i) {
        match e {
            Expr::Block { statements, .. } => lemma_statements_lookup(statements@, i, e),
            Expr::Pipeline { first, finally, .. } => {
                lemma_expr_lookup(*first, i);
                lemma_expr_lookup(*finally, i);
            },
            Expr::Fn { arguments, body, .. } => {
                lemma_args_lookup(arguments@, i, e);
                lemma_statements_lookup(body@, i, e);
            },
            Expr::Call { fun, arguments, .. } => {
                lemma_expr_lookup(*fun, i);
                lemma_call_args_lookup(arguments@, i, e);
            },
            Expr::BinOp { left, right, .. } => {
                lemma_expr_lookup(*left, i);
                lemma_expr_lookup(*right, i);
            },
            Expr::Case { subjects, clauses, .. } => {
                lemma_exprs_lookup(subjects@, i, e);
                lemma_clauses_lookup(clauses@, i, e);
            },
            Expr::Tuple { elems, .. } => lemma_exprs_lookup(elems@, i, e),
            Expr::BitString { segments, .. } => lemma_segments_lookup(segments@, i, e),
            _ => {},
        }
    }
}

/// Whether the span of the statement, or of its pattern or expression,
/// holds offset `i`. A `use` holds nothing: inference removes it.
pub open spec fn held_in_statement(s: TypedStatement, i: int) -> bool {
    match s {
        Statement::Expression(e) => e.location_spec().contains_spec(i),
        Statement::Assignment(a) => a.location.contains_spec(i) || a.pattern.location_spec().contains_spec(
            i,
        ) || a.value.location_spec().contains_spec(i),
        Statement::Use(_) => false,
    }
}

/// What a statement finds is the innermost node at the offset, and it finds
/// something exactly when its span or that of its parts holds the offset.
pub proof fn lemma_statement_lookup(s: TypedStatement, i: int)
    ensures
        found_innermost(s.find_spec(i), i),
        s.find_spec(i) is Some <==> held_in_statement(s, i),
    decreases s, 1nat,
{
    match s {
        Statement::Expression(e) => lemma_expr_lookup(e, i),
        Statement::Assignment(a) => {
            lemma_pattern_lookup(a.pattern, i);
            lemma_expr_lookup(*a.value, i);
        },
        Statement::Use(_) => {},
    }
}

/// What a clause finds is the innermost node at the offset.
pub proof fn lemma_clause_lookup(c: TypedClause, i: int)
    ensures
        found_innermost(c.find_spec(i), i),
    decreases c, 1nat,
{
    lemma_clause_patterns_lookup(c.pattern@, i);
    lemma_alternatives_lookup(c.alternative_patterns@, i);
    lemma_expr_lookup(c.result, i);
}

proof fn lemma_alternatives_lookup(xs: Seq<Vec<TypedPattern>>, i: int)
    ensures
        found_innermost(first_in_alternatives(xs, i), i),
    decreases xs.len(),
{
    if xs.len() > 0 {
        lemma_clause_patterns_lookup(xs[0]@, i);
        lemma_alternatives_lookup(xs.subrange(1, xs.len() as int), i);
    }
}

proof fn lemma_clause_patterns_lookup(xs: Seq<TypedPattern>, i: int)
    ensures
        found_innermost(first_in_patterns(xs, i), i),
    decreases xs.len(),
{
    if xs.len() > 0 {
        lemma_pattern_lookup(xs[0], i);
        lemma_clause_patterns_lookup(xs.subrange(1, xs.len() as int), i);
    }
}

proof fn lemma_exprs_lookup(xs: Seq<TypedExpr>, i: int, parent: TypedExpr)
    requires
        decreases_to!(parent => xs),
    ensures
        found_innermost(first_in_exprs(xs, i), i),
    decreases parent, 0nat, xs.len(),
{
    if xs.len() > 0 {
        assert(decreases_to!(xs => xs[0]));
        lemma_expr_lookup(xs[0], i);
        let rest = xs.subrange(1, xs.len() as int);
        assert(decreases_to!(xs => rest));
        lemma_exprs_lookup(rest, i, parent);
    }
}

proof fn lemma_statements_lookup(xs: Seq<TypedStatement>, i: int, parent: TypedExpr)
    requires
        decreases_to!(parent => xs),
    ensures
        found_innermost(first_in_statements(xs, i), i),
    decreases parent, 0nat, xs.len(),
{
    if xs.len() > 0 {
        assert(decreases_to!(xs => xs[0]));
        lemma_statement_lookup(xs[0], i);
        let rest = xs.subrange(1, xs.len() as int);
        assert(decreases_to!(xs => rest));
        lemma_statements_lookup(rest, i, parent);
    }
}

proof fn lemma_call_args_lookup(xs: Seq<CallArg<TypedExpr>>, i: int, parent: TypedExpr)
    requires
        decreases_to!(parent => xs),
    ensures
        found_innermost(first_in_call_args(xs, i), i),
    decreases parent, 0nat, xs.len(),
{
    if xs.len() > 0 {
        assert(decreases_to!(xs => xs[0]));
        lemma_expr_lookup(xs[0].value, i);
        let rest = xs.subrange(1, xs.len() as int);
        assert(decreases_to!(xs => rest));
        lemma_call_args_lookup(rest, i, parent);
    }
}

proof fn lemma_clauses_lookup(xs: Seq<TypedClause>, i: int, parent: TypedExpr)
    requires
        decreases_to!(parent => xs),
    ensures
        found_innermost(first_in_clauses(xs, i), i),
    decreases parent, 0nat, xs.len(),
{
    if xs.len() > 0 {
        assert(decreases_to!(xs => xs[0]));
        lemma_clause_lookup(xs[0], i);
        let rest = xs.subrange(1, xs.len() as int);
        assert(decreases_to!(xs => rest));
        lemma_clauses_lookup(rest, i, parent);
    }
}

proof fn lemma_args_lookup(xs: Seq<TypedArg>, i: int, parent: TypedExpr)
    requires
        decreases_to!(parent => xs),
    ensures
        found_innermost(first_in_args(xs, i), i),
    decreases parent, 0nat, xs.len(),
{
    if xs.len() > 0 {
        assert(decreases_to!(xs => xs[0]));
        let rest = xs.subrange(1, xs.len() as int);
        assert(decreases_to!(xs => rest));
        lemma_args_lookup(rest, i, parent);
    }
}

proof fn lemma_segments_lookup(xs: Seq<TypedExprBitStringSegment>, i: int, parent: TypedExpr)
    requires
        decreases_to!(parent => xs),
    ensures
        found_innermost(first_in_segments(xs, i), i),
    decreases parent, 0nat, xs.len(),
{
    if xs.len() > 0 {
        assert(decreases_to!(xs => xs[0]));
        lemma_expr_lookup(*xs[0].value, i);
        let rest = xs.subrange(1, xs.len() as int);
        assert(decreases_to!(xs => rest));
        lemma_segments_lookup(rest, i, parent);
    }
}

} // verus!
