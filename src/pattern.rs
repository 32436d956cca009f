use vstd::prelude::*;
use crate::bits::{BitStringSegment, BitStringSegmentOption};
use crate::located::{or_else, Located};
use crate::span::{HasLocation, SrcSpan};
use crate::types::{
    bit_string_type, float_type, int_type, is_prelude_type, string_type, tuple_type, Type,
};
use std::sync::Arc;

verus! {

broadcast use vstd::std_specs::vec::group_vec_axioms;

/// How the arguments of a function are named: a label for callers and a
/// variable for the body, either of which may be missing.
#[derive(Debug, Clone, PartialEq, Eq)]
pub enum ArgNames {
    Discard { name: String },
    LabelledDiscard { label: String, name: String },
    Named { name: String },
    NamedLabelled { name: String, label: String },
}

impl ArgNames {
    pub fn get_label(&self) -> (r: Option<&String>)
        ensures
            match *self {
                ArgNames::LabelledDiscard { label, .. } | ArgNames::NamedLabelled { label, .. } => r
                    == Some(&label),
                _ => r is None,
            },
    {
        match self {
            ArgNames::Discard { .. } | ArgNames::Named { .. } => None,
            ArgNames::LabelledDiscard { label, .. } | ArgNames::NamedLabelled { label, .. } => Some(
                label,
            ),
        }
    }

    pub fn get_variable_name(&self) -> (r: Option<&String>)
        ensures
            match *self {
                ArgNames::Named { name } | ArgNames::NamedLabelled { name, .. } => r == Some(&name),
                _ => r is None,
            },
    {
        match self {
            ArgNames::Discard { .. } | ArgNames::LabelledDiscard { .. } => None,
            ArgNames::NamedLabelled { name, .. } | ArgNames::Named { name } => Some(name),
        }
    }
}

/// The name bound by the right-hand side of a string-prefix pattern.
#[derive(Debug, Clone, PartialEq, Eq)]
pub enum AssignName {
    Variable(String),
    Discard(String),
}

impl AssignName {
    pub fn name(&self) -> (r: &str)
        ensures
            match *self {
                AssignName::Variable(n) | AssignName::Discard(n) => r@ == n@,
            },
    {
        match self {
            AssignName::Variable(name) | AssignName::Discard(name) => name.as_str(),
        }
    }

    pub fn to_arg_names(self) -> (r: ArgNames)
        ensures
            match self {
                AssignName::Variable(n) => r == (ArgNames::Named { name: n }),
                AssignName::Discard(n) => r == (ArgNames::Discard { name: n }),
            },
    {
        match self {
            AssignName::Variable(name) => ArgNames::Named { name },
            AssignName::Discard(name) => ArgNames::Discard { name },
        }
    }

    pub fn assigned_name(&self) -> (r: Option<&str>)
        ensures
            match *self {
                AssignName::Variable(n) => r matches Some(s) && s@ == n@,
                AssignName::Discard(_) => r is None,
            },
    {
        match self {
            AssignName::Variable(name) => Some(name.as_str()),
            AssignName::Discard(_) => None,
        }
    }
}

/// A labelled or positional argument of a call or a constructor pattern.
#[derive(Debug, PartialEq, Eq, Clone)]
pub struct CallArg<A> {
    pub label: Option<String>,
    pub location: SrcSpan,
    pub value: A,
    /// Set when the argument was supplied by syntactic sugar (the callback
    /// of a `use`) rather than written by the programmer.
    pub implicit: bool,
}

/// A value that inference may not have resolved yet. `Unknown` is a state of
/// its own, not a failed resolution.
#[derive(Debug, Clone, PartialEq, Eq)]
pub enum Inferred<T> {
    Known(T),
    Unknown,
}

impl Default for Inferred<()> {
    fn default() -> (r: Inferred<()>)
        ensures
            r is Unknown,
    {
        Inferred::Unknown
    }
}

/// Where a named thing is defined: in another module, or in this one when
/// `module` is `None`.
#[derive(Debug, PartialEq, Eq, Clone)]
pub struct DefinitionLocation<'module> {
    pub module: Option<&'module str>,
    pub span: SrcSpan,
}

/// What inference learnt of the constructor named in a constructor pattern.
#[derive(Debug, Clone, PartialEq, Eq)]
pub struct PatternConstructor {
    pub name: String,
    /// The defining module, when it is not the current one.
    pub module: Option<String>,
    pub location: SrcSpan,
    pub documentation: Option<String>,
}

/// Whether `r` is `o` borrowed as a string slice.
pub open spec fn borrows_opt(r: Option<&str>, o: Option<String>) -> bool {
    match (r, o) {
        (Some(x), Some(y)) => x@ == y@,
        (None, None) => true,
        _ => false,
    }
}

fn opt_as_str(o: &Option<String>) -> (r: Option<&str>)
    ensures
        borrows_opt(r, *o),
{
    match o {
        Some(s) => Some(s.as_str()),
        None => None,
    }
}

impl PatternConstructor {
    pub fn definition_location(&self) -> (r: DefinitionLocation<'_>)
        ensures
            borrows_opt(r.module, self.module),
            r.span == self.location,
    {
        DefinitionLocation { module: opt_as_str(&self.module), span: self.location }
    }

    pub fn get_documentation(&self) -> (r: Option<&str>)
        ensures
            borrows_opt(r, self.documentation),
    {
        opt_as_str(&self.documentation)
    }
}

impl Inferred<PatternConstructor> {
    pub fn definition_location(&self) -> (r: Option<DefinitionLocation<'_>>)
        ensures
            match *self {
                Inferred::Known(c) => r matches Some(d) && borrows_opt(d.module, c.module) && d.span
                    == c.location,
                Inferred::Unknown => r is None,
            },
    {
        match self {
            Inferred::Known(c) => Some(c.definition_location()),
            Inferred::Unknown => None,
        }
    }

    pub fn get_documentation(&self) -> (r: Option<&str>)
        ensures
            match *self {
                Inferred::Known(c) => borrows_opt(r, c.documentation),
                Inferred::Unknown => r is None,
            },
    {
        match self {
            Inferred::Known(c) => c.get_documentation(),
            Inferred::Unknown => None,
        }
    }
}

/// A pattern, parameterised by the type slot of its phase.
#[derive(Debug, PartialEq, Eq)]
pub enum Pattern<T> {
    Int { location: SrcSpan, value: String },
    Float { location: SrcSpan, value: String },
    String { location: SrcSpan, value: String },
    /// The creation of a variable.
    Var { location: SrcSpan, name: String, type_: T },
    /// A variable used, not bound, inside a bit-string pattern.
    VarUsage { location: SrcSpan, name: String, type_: T },
    /// A name given to a sub-pattern with `as`.
    Assign { name: String, location: SrcSpan, pattern: Box<Pattern<T>> },
    /// Matches anything and binds nothing.
    Discard { name: String, location: SrcSpan, type_: T },
    List { location: SrcSpan, elements: Vec<Pattern<T>>, tail: Option<Box<Pattern<T>>>, type_: T },
    /// A constructor of a custom type.
    Constructor {
        location: SrcSpan,
        name: String,
        arguments: Vec<CallArg<Pattern<T>>>,
        module: Option<String>,
        constructor: Inferred<PatternConstructor>,
        with_spread: bool,
        type_: T,
    },
    Tuple { location: SrcSpan, elems: Vec<Pattern<T>> },
    BitString { location: SrcSpan, segments: Vec<BitStringSegment<Pattern<T>, T>> },
    /// A string prefix followed by a binding: `"prefix" <> rest`.
    Concatenate {
        location: SrcSpan,
        left_location: SrcSpan,
        right_location: SrcSpan,
        left_side_string: String,
        right_side_assignment: AssignName,
    },
}

pub type UntypedPattern = Pattern<()>;

pub type TypedPattern = Pattern<Arc<Type>>;

pub type UntypedMultiPattern = Vec<UntypedPattern>;

pub type TypedMultiPattern = Vec<TypedPattern>;

impl<A> Pattern<A> {
    /// The span of a pattern; `as` delegates to the pattern it names.
    pub open spec fn location_spec(self) -> SrcSpan
        decreases self,
    {
        match self {
            Pattern::Assign { pattern, .. } => pattern.location_spec(),
            Pattern::Int { location, .. }
            | Pattern::Var { location, .. }
            | Pattern::VarUsage { location, .. }
            | Pattern::List { location, .. }
            | Pattern::Float { location, .. }
            | Pattern::Discard { location, .. }
            | Pattern::String { location, .. }
            | Pattern::Tuple { location, .. }
            | Pattern::Constructor { location, .. }
            | Pattern::Concatenate { location, .. }
            | Pattern::BitString { location, .. } => location,
        }
    }

    pub fn location(&self) -> (r: SrcSpan)
        ensures
            r == self.location_spec(),
        decreases self,
    {
        match self {
            Pattern::Assign { pattern, .. } => pattern.location(),
            Pattern::Int { location, .. }
            | Pattern::Var { location, .. }
            | Pattern::VarUsage { location, .. }
            | Pattern::List { location, .. }
            | Pattern::Float { location, .. }
            | Pattern::Discard { location, .. }
            | Pattern::String { location, .. }
            | Pattern::Tuple { location, .. }
            | Pattern::Constructor { location, .. }
            | Pattern::Concatenate { location, .. }
            | Pattern::BitString { location, .. } => *location,
        }
    }

    /// Whether the pattern is a discard.
    pub fn is_discard(&self) -> (r: bool)
        ensures
            r == (*self is Discard),
    {
        match self {
            Pattern::Discard { .. } => true,
            _ => false,
        }
    }
}

impl<A> HasLocation for Pattern<A> {
    fn location(&self) -> SrcSpan {
        Pattern::location(self)
    }
}

impl TypedPattern {
    /// Whether `t` is the type of the pattern: fixed for literals, stored in
    /// the slot for bindings, lists and constructors, that of the named
    /// pattern for `as`, and the tuple of the element types for tuples.
    pub open spec fn has_type(self, t: Type) -> bool
        decreases self,
    {
        match self {
            Pattern::Int { .. } => is_prelude_type(t, "Int"@),
            Pattern::Float { .. } => is_prelude_type(t, "Float"@),
            Pattern::String { .. } => is_prelude_type(t, "String"@),
            Pattern::BitString { .. } => is_prelude_type(t, "BitString"@),
            Pattern::Concatenate { .. } => is_prelude_type(t, "String"@),
            Pattern::Var { type_, .. }
            | Pattern::List { type_, .. }
            | Pattern::VarUsage { type_, .. }
            | Pattern::Constructor { type_, .. }
            | Pattern::Discard { type_, .. } => t == *type_,
            Pattern::Assign { pattern, .. } => pattern.has_type(t),
            Pattern::Tuple { elems, .. } => t matches Type::Tuple { elems: ts } && all_have_types(
                elems@,
                ts@,
            ),
        }
    }

    pub fn definition_location(&self) -> (r: Option<DefinitionLocation<'_>>)
        ensures
            match *self {
                Pattern::Constructor { constructor: Inferred::Known(c), .. } => r matches Some(d)
                    && borrows_opt(d.module, c.module) && d.span == c.location,
                _ => r is None,
            },
    {
        match self {
            Pattern::Int { .. }
            | Pattern::Float { .. }
            | Pattern::String { .. }
            | Pattern::Var { .. }
            | Pattern::VarUsage { .. }
            | Pattern::Assign { .. }
            | Pattern::Discard { .. }
            | Pattern::List { .. }
            | Pattern::Tuple { .. }
            | Pattern::BitString { .. }
            | Pattern::Concatenate { .. } => None,
            Pattern::Constructor { constructor, .. } => constructor.definition_location(),
        }
    }

    pub fn get_documentation(&self) -> (r: Option<&str>)
        ensures
            match *self {
                Pattern::Constructor { constructor: Inferred::Known(c), .. } => borrows_opt(
                    r,
                    c.documentation,
                ),
                _ => r is None,
            },
    {
        match self {
            Pattern::Int { .. }
            | Pattern::Float { .. }
            | Pattern::String { .. }
            | Pattern::Var { .. }
            | Pattern::VarUsage { .. }
            | Pattern::Assign { .. }
            | Pattern::Discard { .. }
            | Pattern::List { .. }
            | Pattern::Tuple { .. }
            | Pattern::BitString { .. }
            | Pattern::Concatenate { .. } => None,
            Pattern::Constructor { constructor, .. } => constructor.get_documentation(),
        }
    }

    pub fn type_(&self) -> (r: Arc<Type>)
        ensures
            self.has_type(*r),
        decreases self,
    {
        match self {
            Pattern::Int { .. } => int_type(),
            Pattern::Float { .. } => float_type(),
            Pattern::String { .. } => string_type(),
            Pattern::BitString { .. } => bit_string_type(),
            Pattern::Concatenate { .. } => string_type(),
            Pattern::Var { type_, .. }
            | Pattern::List { type_, .. }
            | Pattern::VarUsage { type_, .. }
            | Pattern::Constructor { type_, .. } => type_.clone(),
            Pattern::Assign { pattern, .. } => pattern.type_(),
            Pattern::Discard { type_, .. } => type_.clone(),
            Pattern::Tuple { elems, .. } => {
                let n = elems.len();
                let mut ts: Vec<Arc<Type>> = Vec::new();
                let mut i: usize = 0;
                while i < n
                    invariant
                        i <= n,
                        n == elems@.len(),
                        ts@.len() == i,
                        decreases_to!(*self => elems),
                        forall|j: int| 0 <= j < i ==> #[trigger] elems@[j].has_type(*ts@[j]),
                    decreases n - i,
                {
                    proof {
                        assert(decreases_to!(elems => elems@[i as int]));
                    }
                    ts.push(elems[i].type_());
                    i = i + 1;
                }
                proof {
                    lemma_all_have_types(elems@, ts@);
                }
                tuple_type(ts)
            },
        }
    }
}

/// Pointwise typing of a sequence of patterns.
pub open spec fn all_have_types(ps: Seq<TypedPattern>, ts: Seq<Arc<Type>>) -> bool
    decreases ps,
{
    if ps.len() == 0 {
        ts.len() == 0
    } else {
        ts.len() != 0 && ps[0].has_type(*ts[0]) && all_have_types(
            ps.subrange(1, ps.len() as int),
            ts.subrange(1, ts.len() as int),
        )
    }
}

proof fn lemma_all_have_types(ps: Seq<TypedPattern>, ts: Seq<Arc<Type>>)
    requires
        ps.len() == ts.len(),
        forall|j: int| 0 <= j < ps.len() ==> #[trigger] ps[j].has_type(*ts[j]),
    ensures
        all_have_types(ps, ts),
    decreases ps.len(),
{
    if ps.len() != 0 {
        let ps1 = ps.subrange(1, ps.len() as int);
        let ts1 = ts.subrange(1, ts.len() as int);
        assert forall|j: int| 0 <= j < ps1.len() implies #[trigger] ps1[j].has_type(*ts1[j]) by {
            assert(ps1[j] == ps[j + 1]);
            assert(ts1[j] == ts[j + 1]);
        }
        lemma_all_have_types(ps1, ts1);
        assert(ps[0].has_type(*ts[0]));
    }
}

impl TypedPattern {
    /// The node found at offset `i`: nothing outside the pattern's span;
    /// otherwise the first element or argument that finds something, or else
    /// the pattern itself. Leaf forms, `as`, bit strings and string prefixes
    /// are returned whole.
    pub open spec fn find_spec(&self, i: int) -> Option<Located<'_>>
        decreases *self, 1nat,
    {
        if !self.location_spec().contains_spec(i) {
            None
        } else {
            let inner = match *self {
                Pattern::Constructor { arguments, .. } => first_in_pattern_args(arguments@, i),
                Pattern::List { elements, tail, .. } => or_else(
                    first_in_patterns(elements@, i),
                    match tail {
                        Some(t) => t.find_spec(i),
                        None => None,
                    },
                ),
                Pattern::Tuple { elems, .. } => first_in_patterns(elems@, i),
                _ => None,
            };
            or_else(inner, Some(Located::Pattern(self)))
        }
    }

    pub fn find_node(&self, byte_index: u32) -> (r: Option<Located<'_>>)
        ensures
            r == self.find_spec(byte_index as int),
        decreases *self, 1nat,
    {
        if !self.location().contains(byte_index) {
            return None;
        }
        let inner = match self {
            Pattern::Constructor { arguments, .. } => find_in_pattern_args(
                arguments,
                byte_index,
                Ghost(*self),
            ),
            Pattern::List { elements, tail, .. } => {
                let found = find_in_patterns(elements, byte_index, Ghost(*self));
                if found.is_some() {
                    found
                } else {
                    match tail {
                        Some(t) => t.find_node(byte_index),
                        None => None,
                    }
                }
            },
            Pattern::Tuple { elems, .. } => find_in_patterns(elems, byte_index, Ghost(*self)),
            _ => None,
        };
        if inner.is_some() {
            inner
        } else {
            Some(Located::Pattern(self))
        }
    }
}

impl CallArg<TypedPattern> {
    pub fn find_node(&self, byte_index: u32) -> (r: Option<Located<'_>>)
        ensures
            r == self.value.find_spec(byte_index as int),
    {
        self.value.find_node(byte_index)
    }
}

/// The first pattern of a sequence that finds a node at offset `i`.
pub open spec fn first_in_patterns<'a>(ps: Seq<TypedPattern>, i: int) -> Option<Located<'a>>
    decreases ps, 0nat,
{
    if ps.len() == 0 {
        None
    } else {
        or_else(ps[0].find_spec(i), first_in_patterns(ps.subrange(1, ps.len() as int), i))
    }
}

/// The first argument of a constructor pattern that finds a node at offset `i`.
pub open spec fn first_in_pattern_args<'a>(ps: Seq<CallArg<TypedPattern>>, i: int) -> Option<
    Located<'a>,
>
    decreases ps, 0nat,
{
    if ps.len() == 0 {
        None
    } else {
        or_else(ps[0].value.find_spec(i), first_in_pattern_args(ps.subrange(1, ps.len() as int), i))
    }
}

fn find_in_patterns<'a>(ps: &'a Vec<TypedPattern>, byte_index: u32, Ghost(parent): Ghost<TypedPattern>) -> (r:
    Option<Located<'a>>)
    requires
        decreases_to!(parent => ps),
    ensures
        r == first_in_patterns(ps@, byte_index as int),
    decreases parent, 0nat,
{
    let n = ps.len();
    let mut k: usize = 0;
    proof {
        assert(ps@.subrange(0, n as int) =~= ps@);
    }
    while k < n
        invariant
            k <= n,
            n == ps@.len(),
            decreases_to!(parent => ps),
            first_in_patterns(ps@, byte_index as int) == first_in_patterns(
                ps@.subrange(k as int, n as int),
                byte_index as int,
            ),
        decreases n - k,
    {
        proof {
            assert(decreases_to!(ps => ps@[k as int]));
            let a = ps@.subrange(k as int, n as int);
            assert(a.subrange(1, a.len() as int) =~= ps@.subrange(k + 1, n as int));
            assert(a[0] == ps@[k as int]);
        }
        let found = ps[k].find_node(byte_index);
        if found.is_some() {
            return found;
        }
        k = k + 1;
    }
    None
}

fn find_in_pattern_args<'a>(
    ps: &'a Vec<CallArg<TypedPattern>>,
    byte_index: u32,
    Ghost(parent): Ghost<TypedPattern>,
) -> (r: Option<Located<'a>>)
    requires
        decreases_to!(parent => ps),
    ensures
        r == first_in_pattern_args(ps@, byte_index as int),
    decreases parent, 0nat,
{
    let n = ps.len();
    let mut k: usize = 0;
    proof {
        assert(ps@.subrange(0, n as int) =~= ps@);
    }
    while k < n
        invariant
            k <= n,
            n == ps@.len(),
            decreases_to!(parent => ps),
            first_in_pattern_args(ps@, byte_index as int) == first_in_pattern_args(
                ps@.subrange(k as int, n as int),
                byte_index as int,
            ),
        decreases n - k,
    {
        proof {
            assert(decreases_to!(ps => ps@[k as int]));
            let a = ps@.subrange(k as int, n as int);
            assert(a.subrange(1, a.len() as int) =~= ps@.subrange(k + 1, n as int));
            assert(a[0] == ps@[k as int]);
        }
        let found = ps[k].value.find_node(byte_index);
        if found.is_some() {
            return found;
        }
        k = k + 1;
    }
    None
}

/// What a lookup found is well placed: a pattern whose span holds `i`, and
/// which finds itself again when searched at `i`, so no node below it holds
/// the offset.
pub open spec fn found_innermost_pattern(found: Option<Located<'_>>, i: int) -> bool {
    found matches Some(l) ==> (l matches Located::Pattern(q) && q.location_spec().contains_spec(i)
        && q.find_spec(i) == Some(l))
}

/// Whether `q` is `p` itself or a pattern below it.
pub open spec fn pattern_within(q: TypedPattern, p: TypedPattern) -> bool
    decreases p, 1nat,
{
    q == p || match p {
        Pattern::Assign { pattern, .. } => pattern_within(q, *pattern),
        Pattern::List { elements, tail, .. } => within_patterns(q, elements@) || match tail {
            Some(t) => pattern_within(q, *t),
            None => false,
        },
        Pattern::Constructor { arguments, .. } => within_pattern_args(q, arguments@),
        Pattern::Tuple { elems, .. } => within_patterns(q, elems@),
        _ => false,
    }
}

pub open spec fn within_patterns(q: TypedPattern, xs: Seq<TypedPattern>) -> bool
    decreases xs, 0nat,
{
    xs.len() > 0 && (pattern_within(q, xs[0]) || within_patterns(q, xs.subrange(1, xs.len() as int)))
}

pub open spec fn within_pattern_args(q: TypedPattern, xs: Seq<CallArg<TypedPattern>>) -> bool
    decreases xs, 0nat,
{
    xs.len() > 0 && (pattern_within(q, xs[0].value) || within_pattern_args(
        q,
        xs.subrange(1, xs.len() as int),
    ))
}

/// Looking up an offset in a pattern finds something exactly when the
/// pattern's span holds the offset, and what it finds is the innermost
/// pattern there: the queried pattern or one below it.
pub proof fn lemma_pattern_lookup(p: TypedPattern, i: int)
    ensures
        p.find_spec(i) is Some <==> p.location_spec().contains_spec(i),
        found_innermost_pattern(p.find_spec(i), i),
        p.find_spec(i) matches Some(Located::Pattern(q)) ==> pattern_within(*q, p),
    decreases p, 1nat,
{
    if p.location_spec().contains_spec(i) {
        match p {
            Pattern::Constructor { arguments, .. } => {
                lemma_pattern_args_lookup(arguments@, i, p);
            },
            Pattern::List { elements, tail, .. } => {
                lemma_patterns_lookup(elements@, i, p);
                match tail {
                    Some(t) => lemma_pattern_lookup(*t, i),
                    None => {},
                }
            },
            Pattern::Tuple { elems, .. } => {
                lemma_patterns_lookup(elems@, i, p);
            },
            _ => {},
        }
    }
}

proof fn lemma_patterns_lookup(ps: Seq<TypedPattern>, i: int, parent: TypedPattern)
    requires
        decreases_to!(parent => ps),
    ensures
        found_innermost_pattern(first_in_patterns(ps, i), i),
        first_in_patterns(ps, i) matches Some(Located::Pattern(q)) ==> within_patterns(*q, ps),
    decreases parent, 0nat, ps.len(),
{
    if ps.len() > 0 {
        assert(decreases_to!(ps => ps[0]));
        lemma_pattern_lookup(ps[0], i);
        let rest = ps.subrange(1, ps.len() as int);
        assert(decreases_to!(ps => rest));
        lemma_patterns_lookup(rest, i, parent);
    }
}

proof fn lemma_pattern_args_lookup(ps: Seq<CallArg<TypedPattern>>, i: int, parent: TypedPattern)
    requires
        decreases_to!(parent => ps),
    ensures
        found_innermost_pattern(first_in_pattern_args(ps, i), i),
        first_in_pattern_args(ps, i) matches Some(Located::Pattern(q)) ==> within_pattern_args(*q, ps),
    decreases parent, 0nat, ps.len(),
{
    if ps.len() > 0 {
        assert(decreases_to!(ps => ps[0]));
        lemma_pattern_lookup(ps[0].value, i);
        let rest = ps.subrange(1, ps.len() as int);
        assert(decreases_to!(ps => rest));
        lemma_pattern_args_lookup(rest, i, parent);
    }
}

/// The spans of a pattern and of everything below it, in source order. Two
/// patterns with the same sequence of spans have the same number of nodes,
/// each at the same place.
pub open spec fn pattern_spans<A>(p: Pattern<A>) -> Seq<SrcSpan>
    decreases p, 1nat,
{
    match p {
        Pattern::Int { location, .. }
        | Pattern::Float { location, .. }
        | Pattern::String { location, .. }
        | Pattern::Var { location, .. }
        | Pattern::VarUsage { location, .. }
        | Pattern::Discard { location, .. } => seq![location],
        Pattern::Assign { location, pattern, .. } => seq![location] + pattern_spans(*pattern),
        Pattern::List { location, elements, tail, .. } => seq![location] + patterns_spans(elements@)
            + match tail {
            Some(t) => pattern_spans(*t),
            None => Seq::empty(),
        },
        Pattern::Constructor { location, arguments, .. } => seq![location] + pattern_args_spans(
            arguments@,
        ),
        Pattern::Tuple { location, elems } => seq![location] + patterns_spans(elems@),
        Pattern::BitString { location, segments } => seq![location] + segments_spans(segments@),
        Pattern::Concatenate { location, left_location, right_location, .. } => seq![
            location,
            left_location,
            right_location,
        ],
    }
}

pub open spec fn patterns_spans<A>(xs: Seq<Pattern<A>>) -> Seq<SrcSpan>
    decreases xs, 0nat,
{
    if xs.len() == 0 {
        Seq::empty()
    } else {
        pattern_spans(xs[0]) + patterns_spans(xs.subrange(1, xs.len() as int))
    }
}

pub open spec fn pattern_args_spans<A>(xs: Seq<CallArg<Pattern<A>>>) -> Seq<SrcSpan>
    decreases xs, 0nat,
{
    if xs.len() == 0 {
        Seq::empty()
    } else {
        seq![xs[0].location] + pattern_spans(xs[0].value) + pattern_args_spans(
            xs.subrange(1, xs.len() as int),
        )
    }
}

pub open spec fn segments_spans<A>(xs: Seq<BitStringSegment<Pattern<A>, A>>) -> Seq<SrcSpan>
    decreases xs, 0nat,
{
    if xs.len() == 0 {
        Seq::empty()
    } else {
        seq![xs[0].location] + pattern_spans(*xs[0].value) + options_spans(xs[0].options@)
            + segments_spans(xs.subrange(1, xs.len() as int))
    }
}

pub open spec fn options_spans<A>(xs: Seq<BitStringSegmentOption<Pattern<A>>>) -> Seq<SrcSpan>
    decreases xs, 0nat,
{
    if xs.len() == 0 {
        Seq::empty()
    } else {
        seq![xs[0].location_spec()] + match xs[0] {
            BitStringSegmentOption::Size { value, .. } => pattern_spans(*value),
            _ => Seq::empty(),
        } + options_spans(xs.subrange(1, xs.len() as int))
    }
}

/// Whether `b` is what the phase rebuild `f` makes of the type slot `a`.
pub open spec fn slot_mapped<A, B, F: Fn(A) -> B>(f: F, a: A, b: B) -> bool {
    f.ensures((a,), b)
}

/// Whether `q` is `p` rebuilt by `f`: the same variant, every field that is
/// not a type slot unchanged, every type slot `f` of the old one, and every
/// child rebuilt in the same way.
pub open spec fn pattern_mapped<A, B, F: Fn(A) -> B>(f: F, p: Pattern<A>, q: Pattern<B>) -> bool
    decreases p, 1nat,
{
    match (p, q) {
        (Pattern::Int { location, value }, Pattern::Int { location: l, value: v }) => l == location
            && v == value,
        (Pattern::Float { location, value }, Pattern::Float { location: l, value: v }) => l
            == location && v == value,
        (Pattern::String { location, value }, Pattern::String { location: l, value: v }) => l
            == location && v == value,
        (
            Pattern::Var { location, name, type_ },
            Pattern::Var { location: l, name: n, type_: t },
        ) => l == location && n == name && slot_mapped(f, type_, t),
        (
            Pattern::VarUsage { location, name, type_ },
            Pattern::VarUsage { location: l, name: n, type_: t },
        ) => l == location && n == name && slot_mapped(f, type_, t),
        (
            Pattern::Assign { name, location, pattern },
            Pattern::Assign { name: n, location: l, pattern: q2 },
        ) => n == name && l == location && pattern_mapped(f, *pattern, *q2),
        (
            Pattern::Discard { name, location, type_ },
            Pattern::Discard { name: n, location: l, type_: t },
        ) => n == name && l == location && slot_mapped(f, type_, t),
        (
            Pattern::List { location, elements, tail, type_ },
            Pattern::List { location: l, elements: e, tail: t, type_: ty },
        ) => l == location && patterns_mapped(f, elements@, e@) && match (tail, t) {
            (Some(a), Some(b)) => pattern_mapped(f, *a, *b),
            (None, None) => true,
            _ => false,
        } && slot_mapped(f, type_, ty),
        (
            Pattern::Constructor { location, name, arguments, module, constructor, with_spread, type_ },
            Pattern::Constructor {
                location: l,
                name: n,
                arguments: a,
                module: m,
                constructor: c,
                with_spread: w,
                type_: t,
            },
        ) => l == location && n == name && m == module && c == constructor && w == with_spread
            && args_mapped(f, arguments@, a@) && slot_mapped(f, type_, t),
        (Pattern::Tuple { location, elems }, Pattern::Tuple { location: l, elems: e }) => l
            == location && patterns_mapped(f, elems@, e@),
        (
            Pattern::BitString { location, segments },
            Pattern::BitString { location: l, segments: g },
        ) => l == location && segments_mapped(f, segments@, g@),
        (
            Pattern::Concatenate {
                location,
                left_location,
                right_location,
                left_side_string,
                right_side_assignment,
            },
            Pattern::Concatenate {
                location: l,
                left_location: ll,
                right_location: rl,
                left_side_string: ls,
                right_side_assignment: ra,
            },
        ) => l == location && ll == left_location && rl == right_location && ls == left_side_string
            && ra == right_side_assignment,
        _ => false,
    }
}

pub open spec fn patterns_mapped<A, B, F: Fn(A) -> B>(f: F, xs: Seq<Pattern<A>>, ys: Seq<Pattern<B>>) -> bool
    decreases xs, 0nat,
{
    xs.len() == ys.len() && (xs.len() > 0 ==> pattern_mapped(f, xs[0], ys[0]) && patterns_mapped(
        f,
        xs.subrange(1, xs.len() as int),
        ys.subrange(1, ys.len() as int),
    ))
}

pub open spec fn arg_mapped<A, B, F: Fn(A) -> B>(f: F, x: CallArg<Pattern<A>>, y: CallArg<Pattern<B>>) -> bool
    decreases x, 0nat,
{
    y.label == x.label && y.location == x.location && y.implicit == x.implicit && pattern_mapped(
        f,
        x.value,
        y.value,
    )
}

pub open spec fn args_mapped<A, B, F: Fn(A) -> B>(
    f: F,
    xs: Seq<CallArg<Pattern<A>>>,
    ys: Seq<CallArg<Pattern<B>>>,
) -> bool
    decreases xs, 0nat,
{
    xs.len() == ys.len() && (xs.len() > 0 ==> arg_mapped(f, xs[0], ys[0]) && args_mapped(
        f,
        xs.subrange(1, xs.len() as int),
        ys.subrange(1, ys.len() as int),
    ))
}

pub open spec fn segment_mapped<A, B, F: Fn(A) -> B>(
    f: F,
    x: BitStringSegment<Pattern<A>, A>,
    y: BitStringSegment<Pattern<B>, B>,
) -> bool
    decreases x, 0nat,
{
    y.location == x.location && pattern_mapped(f, *x.value, *y.value) && options_mapped(
        f,
        x.options@,
        y.options@,
    ) && slot_mapped(f, x.type_, y.type_)
}

pub open spec fn segments_mapped<A, B, F: Fn(A) -> B>(
    f: F,
    xs: Seq<BitStringSegment<Pattern<A>, A>>,
    ys: Seq<BitStringSegment<Pattern<B>, B>>,
) -> bool
    decreases xs, 0nat,
{
    xs.len() == ys.len() && (xs.len() > 0 ==> segment_mapped(f, xs[0], ys[0]) && segments_mapped(
        f,
        xs.subrange(1, xs.len() as int),
        ys.subrange(1, ys.len() as int),
    ))
}

/// Options without a payload are kept by kind (told by the label) and span;
/// `Size` and `Unit` keep their fields, the size value rebuilt.
pub open spec fn option_mapped<A, B, F: Fn(A) -> B>(
    f: F,
    o: BitStringSegmentOption<Pattern<A>>,
    p: BitStringSegmentOption<Pattern<B>>,
) -> bool
    decreases o, 0nat,
{
    match (o, p) {
        (
            BitStringSegmentOption::Size { location, value, short_form },
            BitStringSegmentOption::Size { location: l, value: v, short_form: s },
        ) => l == location && s == short_form && pattern_mapped(f, *value, *v),
        (
            BitStringSegmentOption::Unit { location, value },
            BitStringSegmentOption::Unit { location: l, value: v },
        ) => l == location && v == value,
        _ => !(o is Size) && !(o is Unit) && !(p is Size) && !(p is Unit) && p.location_spec()
            == o.location_spec() && p.label_spec() == o.label_spec(),
    }
}

pub open spec fn options_mapped<A, B, F: Fn(A) -> B>(
    f: F,
    xs: Seq<BitStringSegmentOption<Pattern<A>>>,
    ys: Seq<BitStringSegmentOption<Pattern<B>>>,
) -> bool
    decreases xs, 0nat,
{
    xs.len() == ys.len() && (xs.len() > 0 ==> option_mapped(f, xs[0], ys[0]) && options_mapped(
        f,
        xs.subrange(1, xs.len() as int),
        ys.subrange(1, ys.len() as int),
    ))
}

impl<A> Pattern<A> {
    /// Rebuilds the pattern in another phase: `f` gives each type slot its
    /// new value, and every span is copied unchanged.
    pub fn map_types<B, F: Fn(A) -> B>(self, f: &F) -> (r: Pattern<B>)
        requires
            forall|a: A| #[trigger] f.requires((a,)),
        ensures
            pattern_mapped(*f, self, r),
            pattern_spans(r) == pattern_spans(self),
        decreases self, 4nat,
    {
        let ghost whole = self;
        match self {
            Pattern::Int { location, value } => Pattern::Int { location, value },
            Pattern::Float { location, value } => Pattern::Float { location, value },
            Pattern::String { location, value } => Pattern::String { location, value },
            Pattern::Var { location, name, type_ } => Pattern::Var { location, name, type_: f(type_) },
            Pattern::VarUsage { location, name, type_ } => Pattern::VarUsage {
                location,
                name,
                type_: f(type_),
            },
            Pattern::Assign { name, location, pattern } => {
                let inner = (*pattern).map_types(f);
                Pattern::Assign { name, location, pattern: Box::new(inner) }
            },
            Pattern::Discard { name, location, type_ } => Pattern::Discard {
                name,
                location,
                type_: f(type_),
            },
            Pattern::List { location, elements, tail, type_ } => {
                let elements = map_patterns(elements, f, Ghost(whole));
                let tail = match tail {
                    Some(t) => Some(Box::new((*t).map_types(f))),
                    None => None,
                };
                Pattern::List { location, elements, tail, type_: f(type_) }
            },
            Pattern::Constructor {
                location,
                name,
                arguments,
                module,
                constructor,
                with_spread,
                type_,
            } => {
                let arguments = map_pattern_args(arguments, f, Ghost(whole));
                Pattern::Constructor {
                    location,
                    name,
                    arguments,
                    module,
                    constructor,
                    with_spread,
                    type_: f(type_),
                }
            },
            Pattern::Tuple { location, elems } => {
                let elems = map_patterns(elems, f, Ghost(whole));
                Pattern::Tuple { location, elems }
            },
            Pattern::BitString { location, segments } => {
                let segments = map_segments(segments, f, Ghost(whole));
                Pattern::BitString { location, segments }
            },
            Pattern::Concatenate {
                location,
                left_location,
                right_location,
                left_side_string,
                right_side_assignment,
            } => Pattern::Concatenate {
                location,
                left_location,
                right_location,
                left_side_string,
                right_side_assignment,
            },
        }
    }
}

fn map_option<A, B, F: Fn(A) -> B>(
    o: BitStringSegmentOption<Pattern<A>>,
    f: &F,
    Ghost(parent): Ghost<Pattern<A>>,
) -> (r: BitStringSegmentOption<Pattern<B>>)
    requires
        forall|a: A| #[trigger] f.requires((a,)),
        decreases_to!(parent => o),
    ensures
        option_mapped(*f, o, r),
        r.location_spec() == o.location_spec(),
        match (r, o) {
            (BitStringSegmentOption::Size { value: v, .. }, BitStringSegmentOption::Size { value: w, .. }) => pattern_spans(*v) == pattern_spans(*w),
            (BitStringSegmentOption::Size { .. }, _) => false,
            (_, BitStringSegmentOption::Size { .. }) => false,
            _ => true,
        },
    decreases parent, 0nat,
{
    match o {
        BitStringSegmentOption::Binary { location } => BitStringSegmentOption::Binary { location },
        BitStringSegmentOption::Int { location } => BitStringSegmentOption::Int { location },
        BitStringSegmentOption::Float { location } => BitStringSegmentOption::Float { location },
        BitStringSegmentOption::BitString { location } => BitStringSegmentOption::BitString { location },
        BitStringSegmentOption::Utf8 { location } => BitStringSegmentOption::Utf8 { location },
        BitStringSegmentOption::Utf16 { location } => BitStringSegmentOption::Utf16 { location },
        BitStringSegmentOption::Utf32 { location } => BitStringSegmentOption::Utf32 { location },
        BitStringSegmentOption::Utf8Codepoint { location } => BitStringSegmentOption::Utf8Codepoint { location },
        BitStringSegmentOption::Utf16Codepoint { location } => BitStringSegmentOption::Utf16Codepoint { location },
        BitStringSegmentOption::Utf32Codepoint { location } => BitStringSegmentOption::Utf32Codepoint { location },
        BitStringSegmentOption::Signed { location } => BitStringSegmentOption::Signed { location },
        BitStringSegmentOption::Unsigned { location } => BitStringSegmentOption::Unsigned { location },
        BitStringSegmentOption::Big { location } => BitStringSegmentOption::Big { location },
        BitStringSegmentOption::Little { location } => BitStringSegmentOption::Little { location },
        BitStringSegmentOption::Native { location } => BitStringSegmentOption::Native { location },
        BitStringSegmentOption::Size { location, value, short_form } => {
            let v = (*value).map_types(f);
            BitStringSegmentOption::Size { location, value: Box::new(v), short_form }
        },
        BitStringSegmentOption::Unit { location, value } => BitStringSegmentOption::Unit { location, value },
    }
}

fn map_segment<A, B, F: Fn(A) -> B>(
    s: BitStringSegment<Pattern<A>, A>,
    f: &F,
    Ghost(parent): Ghost<Pattern<A>>,
) -> (r: BitStringSegment<Pattern<B>, B>)
    requires
        forall|a: A| #[trigger] f.requires((a,)),
        decreases_to!(parent => s),
    ensures
        r.location == s.location,
        pattern_spans(*r.value) == pattern_spans(*s.value),
        options_spans(r.options@) == options_spans(s.options@),
        segment_mapped(*f, s, r),
    decreases parent, 2nat,
{
    let BitStringSegment { location, value, options, type_ } = s;
    let value = (*value).map_types(f);
    let options = map_options(options, f, Ghost(parent));
    BitStringSegment { location, value: Box::new(value), options, type_: f(type_) }
}

fn map_patterns<A, B, F: Fn(A) -> B>(xs: Vec<Pattern<A>>, f: &F, Ghost(parent): Ghost<Pattern<A>>) -> (r: Vec<
    Pattern<B>,
>)
    requires
        forall|a: A| #[trigger] f.requires((a,)),
        decreases_to!(parent => xs),
    ensures
        patterns_mapped(*f, xs@, r@),
        patterns_spans(r@) == patterns_spans(xs@),
    decreases parent, 0nat,
{
    let ghost all = xs@;
    let n = xs.len();
    let mut rest = xs;
    let mut out: Vec<Pattern<B>> = Vec::new();
    proof {
        assert(all.subrange(n as int, n as int).len() == 0);
        assert(out@.len() == 0);
    }
    while rest.len() > 0
        invariant
            patterns_mapped(*f, all.subrange(rest@.len() as int, n as int), out@),
            forall|a: A| #[trigger] f.requires((a,)),
            decreases_to!(parent => all),
            rest@.len() <= n,
            n == all.len(),
            rest@ == all.subrange(0, rest@.len() as int),
            patterns_spans(out@) == patterns_spans(all.subrange(rest@.len() as int, n as int)),
        decreases rest@.len(),
    {
        let ghost k = rest@.len() as int;
        let x = rest.pop().unwrap();
        proof {
            assert(x == all[k - 1]);
            assert(rest@ =~= all.subrange(0, k - 1));
            assert(decreases_to!(all => all[k - 1]));
            let tail = all.subrange(k - 1, n as int);
            assert(tail[0] == x);
            assert(tail.subrange(1, tail.len() as int) =~= all.subrange(k, n as int));
        }
        let ghost old_out = out@;
        let y = x.map_types(f);
        out.insert(0, y);
        proof {
            assert(out@[0] == y);
            assert(out@.subrange(1, out@.len() as int) =~= old_out);
        }
    }
    proof {
        assert(all.subrange(0, n as int) =~= all);
    }
    out
}

fn map_pattern_args<A, B, F: Fn(A) -> B>(xs: Vec<CallArg<Pattern<A>>>, f: &F, Ghost(parent): Ghost<Pattern<A>>) -> (r: Vec<
    CallArg<Pattern<B>>,
>)
    requires
        forall|a: A| #[trigger] f.requires((a,)),
        decreases_to!(parent => xs),
    ensures
        args_mapped(*f, xs@, r@),
        pattern_args_spans(r@) == pattern_args_spans(xs@),
    decreases parent, 0nat,
{
    let ghost all = xs@;
    let n = xs.len();
    let mut rest = xs;
    let mut out: Vec<CallArg<Pattern<B>>> = Vec::new();
    proof {
        assert(all.subrange(n as int, n as int).len() == 0);
        assert(out@.len() == 0);
    }
    while rest.len() > 0
        invariant
            args_mapped(*f, all.subrange(rest@.len() as int, n as int), out@),
            forall|a: A| #[trigger] f.requires((a,)),
            decreases_to!(parent => all),
            rest@.len() <= n,
            n == all.len(),
            rest@ == all.subrange(0, rest@.len() as int),
            pattern_args_spans(out@) == pattern_args_spans(all.subrange(rest@.len() as int, n as int)),
        decreases rest@.len(),
    {
        let ghost k = rest@.len() as int;
        let x = rest.pop().unwrap();
        proof {
            assert(x == all[k - 1]);
            assert(rest@ =~= all.subrange(0, k - 1));
            assert(decreases_to!(all => all[k - 1]));
            let tail = all.subrange(k - 1, n as int);
            assert(tail[0] == x);
            assert(tail.subrange(1, tail.len() as int) =~= all.subrange(k, n as int));
        }
        let ghost old_out = out@;
        let ghost gx = x;
        let y = CallArg { label: x.label, location: x.location, value: x.value.map_types(f), implicit: x.implicit };
        proof {
            assert(arg_mapped(*f, gx, y));
        }
        out.insert(0, y);
        proof {
            assert(out@[0] == y);
            assert(out@.subrange(1, out@.len() as int) =~= old_out);
        }
    }
    proof {
        assert(all.subrange(0, n as int) =~= all);
    }
    out
}

fn map_segments<A, B, F: Fn(A) -> B>(xs: Vec<BitStringSegment<Pattern<A>, A>>, f: &F, Ghost(parent): Ghost<Pattern<A>>) -> (r: Vec<
    BitStringSegment<Pattern<B>, B>,
>)
    requires
        forall|a: A| #[trigger] f.requires((a,)),
        decreases_to!(parent => xs),
    ensures
        segments_mapped(*f, xs@, r@),
        segments_spans(r@) == segments_spans(xs@),
    decreases parent, 3nat,
{
    let ghost all = xs@;
    let n = xs.len();
    let mut rest = xs;
    let mut out: Vec<BitStringSegment<Pattern<B>, B>> = Vec::new();
    proof {
        assert(all.subrange(n as int, n as int).len() == 0);
        assert(out@.len() == 0);
    }
    while rest.len() > 0
        invariant
            segments_mapped(*f, all.subrange(rest@.len() as int, n as int), out@),
            forall|a: A| #[trigger] f.requires((a,)),
            decreases_to!(parent => all),
            rest@.len() <= n,
            n == all.len(),
            rest@ == all.subrange(0, rest@.len() as int),
            segments_spans(out@) == segments_spans(all.subrange(rest@.len() as int, n as int)),
        decreases rest@.len(),
    {
        let ghost k = rest@.len() as int;
        let x = rest.pop().unwrap();
        proof {
            assert(x == all[k - 1]);
            assert(rest@ =~= all.subrange(0, k - 1));
            assert(decreases_to!(all => all[k - 1]));
            let tail = all.subrange(k - 1, n as int);
            assert(tail[0] == x);
            assert(tail.subrange(1, tail.len() as int) =~= all.subrange(k, n as int));
        }
        let ghost old_out = out@;
        let y = map_segment(x, f, Ghost(parent));
        out.insert(0, y);
        proof {
            assert(out@[0] == y);
            assert(out@.subrange(1, out@.len() as int) =~= old_out);
        }
    }
    proof {
        assert(all.subrange(0, n as int) =~= all);
    }
    out
}

fn map_options<A, B, F: Fn(A) -> B>(xs: Vec<BitStringSegmentOption<Pattern<A>>>, f: &F, Ghost(parent): Ghost<Pattern<A>>) -> (r: Vec<
    BitStringSegmentOption<Pattern<B>>,
>)
    requires
        forall|a: A| #[trigger] f.requires((a,)),
        decreases_to!(parent => xs),
    ensures
        options_mapped(*f, xs@, r@),
        options_spans(r@) == options_spans(xs@),
    decreases parent, 1nat,
{
    let ghost all = xs@;
    let n = xs.len();
    let mut rest = xs;
    let mut out: Vec<BitStringSegmentOption<Pattern<B>>> = Vec::new();
    proof {
        assert(all.subrange(n as int, n as int).len() == 0);
        assert(out@.len() == 0);
    }
    while rest.len() > 0
        invariant
            options_mapped(*f, all.subrange(rest@.len() as int, n as int), out@),
            forall|a: A| #[trigger] f.requires((a,)),
            decreases_to!(parent => all),
            rest@.len() <= n,
            n == all.len(),
            rest@ == all.subrange(0, rest@.len() as int),
            options_spans(out@) == options_spans(all.subrange(rest@.len() as int, n as int)),
        decreases rest@.len(),
    {
        let ghost k = rest@.len() as int;
        let x = rest.pop().unwrap();
        proof {
            assert(x == all[k - 1]);
            assert(rest@ =~= all.subrange(0, k - 1));
            assert(decreases_to!(all => all[k - 1]));
            let tail = all.subrange(k - 1, n as int);
            assert(tail[0] == x);
            assert(tail.subrange(1, tail.len() as int) =~= all.subrange(k, n as int));
        }
        let ghost old_out = out@;
        let y = map_option(x, f, Ghost(parent));
        out.insert(0, y);
        proof {
            assert(out@[0] == y);
            assert(out@.subrange(1, out@.len() as int) =~= old_out);
        }
    }
    proof {
        assert(all.subrange(0, n as int) =~= all);
    }
    out
}

/// Whether `p` lies within `outer` and each pattern below it lies within
/// its parent's span, through list elements and tail, constructor
/// arguments and tuple elements.
pub open spec fn nested_within(p: TypedPattern, outer: SrcSpan) -> bool
    decreases p, 1nat,
{
    outer.covers(p.location_spec()) && match p {
        Pattern::Assign { pattern, .. } => nested_within(*pattern, p.location_spec()),
        Pattern::List { elements, tail, .. } => all_nested_within(elements@, p.location_spec())
            && match tail {
            Some(t) => nested_within(*t, p.location_spec()),
            None => true,
        },
        Pattern::Constructor { arguments, .. } => args_nested_within(arguments@, p.location_spec()),
        Pattern::Tuple { elems, .. } => all_nested_within(elems@, p.location_spec()),
        _ => true,
    }
}

pub open spec fn all_nested_within(xs: Seq<TypedPattern>, outer: SrcSpan) -> bool
    decreases xs, 0nat,
{
    xs.len() > 0 ==> nested_within(xs[0], outer) && all_nested_within(
        xs.subrange(1, xs.len() as int),
        outer,
    )
}

pub open spec fn args_nested_within(xs: Seq<CallArg<TypedPattern>>, outer: SrcSpan) -> bool
    decreases xs, 0nat,
{
    xs.len() > 0 ==> nested_within(xs[0].value, outer) && args_nested_within(
        xs.subrange(1, xs.len() as int),
        outer,
    )
}

/// Whether the span of `p` or of any pattern below it holds offset `i`.
pub open spec fn held_anywhere(p: TypedPattern, i: int) -> bool
    decreases p, 1nat,
{
    p.location_spec().contains_spec(i) || match p {
        Pattern::Assign { pattern, .. } => held_anywhere(*pattern, i),
        Pattern::List { elements, tail, .. } => held_anywhere_in(elements@, i) || match tail {
            Some(t) => held_anywhere(*t, i),
            None => false,
        },
        Pattern::Constructor { arguments, .. } => held_anywhere_in_args(arguments@, i),
        Pattern::Tuple { elems, .. } => held_anywhere_in(elems@, i),
        _ => false,
    }
}

pub open spec fn held_anywhere_in(xs: Seq<TypedPattern>, i: int) -> bool
    decreases xs, 0nat,
{
    xs.len() > 0 && (held_anywhere(xs[0], i) || held_anywhere_in(xs.subrange(1, xs.len() as int), i))
}

pub open spec fn held_anywhere_in_args(xs: Seq<CallArg<TypedPattern>>, i: int) -> bool
    decreases xs, 0nat,
{
    xs.len() > 0 && (held_anywhere(xs[0].value, i) || held_anywhere_in_args(
        xs.subrange(1, xs.len() as int),
        i,
    ))
}

/// When every child's span lies within its parent's, a lookup that stops at
/// a pattern whose span does not hold the offset misses nothing: no pattern
/// below it holds the offset either.
pub proof fn lemma_nested_spans_make_pruning_exact(p: TypedPattern, outer: SrcSpan, i: int)
    requires
        nested_within(p, outer),
        !outer.contains_spec(i),
    ensures
        !held_anywhere(p, i),
    decreases p, 1nat,
{
    let here = p.location_spec();
    match p {
        Pattern::Assign { pattern, .. } => lemma_nested_spans_make_pruning_exact(*pattern, here, i),
        Pattern::List { elements, tail, .. } => {
            lemma_nested_seq(elements@, here, i, p);
            match tail {
                Some(t) => lemma_nested_spans_make_pruning_exact(*t, here, i),
                None => {},
            }
        },
        Pattern::Constructor { arguments, .. } => lemma_nested_args(arguments@, here, i, p),
        Pattern::Tuple { elems, .. } => lemma_nested_seq(elems@, here, i, p),
        _ => {},
    }
}

proof fn lemma_nested_seq(xs: Seq<TypedPattern>, outer: SrcSpan, i: int, parent: TypedPattern)
    requires
        decreases_to!(parent => xs),
        all_nested_within(xs, outer),
        !outer.contains_spec(i),
    ensures
        !held_anywhere_in(xs, i),
    decreases parent, 0nat, xs.len(),
{
    if xs.len() > 0 {
        assert(decreases_to!(xs => xs[0]));
        lemma_nested_spans_make_pruning_exact(xs[0], outer, i);
        let rest = xs.subrange(1, xs.len() as int);
        assert(decreases_to!(xs => rest));
        lemma_nested_seq(rest, outer, i, parent);
    }
}

proof fn lemma_nested_args(xs: Seq<CallArg<TypedPattern>>, outer: SrcSpan, i: int, parent: TypedPattern)
    requires
        decreases_to!(parent => xs),
        args_nested_within(xs, outer),
        !outer.contains_spec(i),
    ensures
        !held_anywhere_in_args(xs, i),
    decreases parent, 0nat, xs.len(),
{
    if xs.len() > 0 {
        assert(decreases_to!(xs => xs[0]));
        lemma_nested_spans_make_pruning_exact(xs[0].value, outer, i);
        let rest = xs.subrange(1, xs.len() as int);
        assert(decreases_to!(xs => rest));
        lemma_nested_args(rest, outer, i, parent);
    }
}

/// For a pattern whose spans nest, lookup finds nothing exactly when no
/// pattern in it holds the offset.
pub proof fn lemma_nested_lookup_complete(p: TypedPattern, i: int)
    requires
        nested_within(p, p.location_spec()),
    ensures
        p.find_spec(i) is None <==> !held_anywhere(p, i),
{
    lemma_pattern_lookup(p, i);
    if !p.location_spec().contains_spec(i) {
        lemma_nested_spans_make_pruning_exact(p, p.location_spec(), i);
    }
}

} // verus!
