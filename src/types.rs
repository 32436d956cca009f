use vstd::prelude::*;
use crate::span::SrcSpan;
use std::sync::Arc;

verus! {

broadcast use vstd::std_specs::vec::group_vec_axioms;

/// A resolved type, as the inference engine hands it out. Nodes of the
/// resolved phase hold it behind a shared, immutable `Arc` handle.
#[derive(Debug, Clone, PartialEq, Eq)]
pub enum Type {
    /// A named type applied to arguments, such as `List(Int)`.
    App { module: String, name: String, args: Vec<Arc<Type>> },
    /// A function type.
    Fn { args: Vec<Arc<Type>>, retrn: Arc<Type> },
    /// A type variable, by its identifier.
    Var { id: u64 },
    /// A tuple of types.
    Tuple { elems: Vec<Arc<Type>> },
}

/// The module that defines the built-in types.
pub open spec fn prelude_module() -> Seq<char> {
    "gleam"@
}

/// Whether `t` is the built-in type called `name`.
pub open spec fn is_prelude_type(t: Type, name: Seq<char>) -> bool {
    t matches Type::App { module, name: n, args } && module@ == prelude_module() && n@ == name
        && args@.len() == 0
}

fn prelude_type(name: &str) -> (r: Arc<Type>)
    ensures
        is_prelude_type(*r, name@),
{
    Arc::new(Type::App { module: "gleam".to_owned(), name: name.to_owned(), args: Vec::new() })
}

pub fn int_type() -> (r: Arc<Type>)
    ensures
        is_prelude_type(*r, "Int"@),
{
    prelude_type("Int")
}

pub fn float_type() -> (r: Arc<Type>)
    ensures
        is_prelude_type(*r, "Float"@),
{
    prelude_type("Float")
}

pub fn string_type() -> (r: Arc<Type>)
    ensures
        is_prelude_type(*r, "String"@),
{
    prelude_type("String")
}

pub fn bit_string_type() -> (r: Arc<Type>)
    ensures
        is_prelude_type(*r, "BitString"@),
{
    prelude_type("BitString")
}

pub fn bool_type() -> (r: Arc<Type>)
    ensures
        is_prelude_type(*r, "Bool"@),
{
    prelude_type("Bool")
}

/// The tuple type of the given element types.
pub fn tuple_type(elems: Vec<Arc<Type>>) -> (r: Arc<Type>)
    ensures
        *r == (Type::Tuple { elems }),
{
    Arc::new(Type::Tuple { elems })
}

/// A type annotation as written in source.
#[derive(Debug, PartialEq, Eq)]
pub enum TypeAst {
    Constructor { location: SrcSpan, module: Option<String>, name: String, arguments: Vec<TypeAst> },
    Fn { location: SrcSpan, arguments: Vec<TypeAst>, return_: Box<TypeAst> },
    Var { location: SrcSpan, name: String },
    Tuple { location: SrcSpan, elems: Vec<TypeAst> },
    Hole { location: SrcSpan, name: String },
}

/// Equality of optional names by their text.
pub open spec fn same_opt_name(a: Option<String>, b: Option<String>) -> bool {
    match (a, b) {
        (Some(x), Some(y)) => x@ == y@,
        (None, None) => true,
        _ => false,
    }
}

fn eq_opt_name(a: &Option<String>, b: &Option<String>) -> (r: bool)
    ensures
        r == same_opt_name(*a, *b),
{
    match (a, b) {
        (Some(x), Some(y)) => x.eq(y),
        (None, None) => true,
        _ => false,
    }
}

impl TypeAst {
    pub open spec fn location_spec(self) -> SrcSpan {
        match self {
            TypeAst::Fn { location, .. }
            | TypeAst::Var { location, .. }
            | TypeAst::Hole { location, .. }
            | TypeAst::Tuple { location, .. }
            | TypeAst::Constructor { location, .. } => location,
        }
    }

    /// Two annotations are logically equal when they denote the same type as
    /// written, wherever they stand in the source.
    pub open spec fn logically_equal(self, other: TypeAst) -> bool
        decreases self,
    {
        match (self, other) {
            (
                TypeAst::Constructor { module, name, arguments, .. },
                TypeAst::Constructor { module: o_module, name: o_name, arguments: o_arguments, .. },
            ) => same_opt_name(module, o_module) && name@ == o_name@ && all_logically_equal(
                arguments@,
                o_arguments@,
            ),
            (
                TypeAst::Fn { arguments, return_, .. },
                TypeAst::Fn { arguments: o_arguments, return_: o_return_, .. },
            ) => all_logically_equal(arguments@, o_arguments@) && return_.logically_equal(*o_return_),
            (TypeAst::Var { name, .. }, TypeAst::Var { name: o_name, .. }) => name@ == o_name@,
            (TypeAst::Tuple { elems, .. }, TypeAst::Tuple { elems: o_elems, .. }) => all_logically_equal(
                elems@,
                o_elems@,
            ),
            (TypeAst::Hole { name, .. }, TypeAst::Hole { name: o_name, .. }) => name@ == o_name@,
            _ => false,
        }
    }

    pub fn location(&self) -> (r: SrcSpan)
        ensures
            r == self.location_spec(),
    {
        match self {
            TypeAst::Fn { location, .. }
            | TypeAst::Var { location, .. }
            | TypeAst::Hole { location, .. }
            | TypeAst::Tuple { location, .. }
            | TypeAst::Constructor { location, .. } => *location,
        }
    }

    fn all_logically_equal(xs: &Vec<TypeAst>, ys: &Vec<TypeAst>, Ghost(parent): Ghost<TypeAst>) -> (r:
        bool)
        requires
            decreases_to!(parent => xs),
        ensures
            r == all_logically_equal(xs@, ys@),
        decreases parent, 0nat,
    {
        if xs.len() != ys.len() {
            proof {
                lemma_all_logically_equal_len(xs@, ys@);
            }
            return false;
        }
        let n = xs.len();
        let mut i: usize = 0;
        proof {
            assert(xs@.subrange(0, n as int) =~= xs@);
            assert(ys@.subrange(0, n as int) =~= ys@);
        }
        while i < n
            invariant
                i <= n,
                n == xs@.len(),
                xs@.len() == ys@.len(),
                decreases_to!(parent => xs),
                all_logically_equal(xs@, ys@) == all_logically_equal(
                    xs@.subrange(i as int, n as int),
                    ys@.subrange(i as int, n as int),
                ),
            decreases n - i,
        {
            proof {
                assert(decreases_to!(xs => xs@[i as int]));
                let a = xs@.subrange(i as int, n as int);
                let b = ys@.subrange(i as int, n as int);
                assert(a.subrange(1, a.len() as int) =~= xs@.subrange(i + 1, n as int));
                assert(b.subrange(1, b.len() as int) =~= ys@.subrange(i + 1, n as int));
                assert(a[0] == xs@[i as int]);
                assert(b[0] == ys@[i as int]);
            }
            if !xs[i].is_logically_equal(&ys[i]) {
                return false;
            }
            i = i + 1;
        }
        proof {
            assert(xs@.subrange(n as int, n as int).len() == 0);
            assert(ys@.subrange(n as int, n as int).len() == 0);
        }
        true
    }

    pub fn is_logically_equal(&self, other: &TypeAst) -> (r: bool)
        ensures
            r == self.logically_equal(*other),
        decreases *self, 1nat,
    {
        match self {
            TypeAst::Constructor { module, name, arguments, .. } => match other {
                TypeAst::Constructor {
                    module: o_module,
                    name: o_name,
                    arguments: o_arguments,
                    ..
                } => {
                    let same_module = eq_opt_name(module, o_module);
                    let same_name = name.eq(o_name);
                    let same_arguments = Self::all_logically_equal(
                        arguments,
                        o_arguments,
                        Ghost(*self),
                    );
                    same_module && same_name && same_arguments
                },
                _ => false,
            },
            TypeAst::Fn { arguments, return_, .. } => match other {
                TypeAst::Fn { arguments: o_arguments, return_: o_return_, .. } => {
                    Self::all_logically_equal(arguments, o_arguments, Ghost(*self))
                        && return_.is_logically_equal(o_return_)
                },
                _ => false,
            },
            TypeAst::Var { name, .. } => match other {
                TypeAst::Var { name: o_name, .. } => name.eq(o_name),
                _ => false,
            },
            TypeAst::Tuple { elems, .. } => match other {
                TypeAst::Tuple { elems: o_elems, .. } => {
                    Self::all_logically_equal(elems, o_elems, Ghost(*self))
                },
                _ => false,
            },
            TypeAst::Hole { name, .. } => match other {
                TypeAst::Hole { name: o_name, .. } => name.eq(o_name),
                _ => false,
            },
        }
    }
}

/// Pointwise logical equality of two sequences of annotations of equal length.
pub open spec fn all_logically_equal(xs: Seq<TypeAst>, ys: Seq<TypeAst>) -> bool
    decreases xs,
{
    if xs.len() == 0 {
        ys.len() == 0
    } else {
        ys.len() != 0 && xs[0].logically_equal(ys[0]) && all_logically_equal(
            xs.subrange(1, xs.len() as int),
            ys.subrange(1, ys.len() as int),
        )
    }
}

proof fn lemma_all_logically_equal_len(xs: Seq<TypeAst>, ys: Seq<TypeAst>)
    ensures
        all_logically_equal(xs, ys) ==> xs.len() == ys.len(),
    decreases xs.len(),
{
    if xs.len() != 0 && ys.len() != 0 {
        lemma_all_logically_equal_len(xs.subrange(1, xs.len() as int), ys.subrange(1, ys.len() as int));
    }
}

} // verus!
