use vstd::prelude::*;
use vstd::string::StrSliceExecFns;
use crate::expr::{first_in_statements, held_in_statement, lemma_statement_lookup, Arg, Statement, TypedStatement};
use crate::located::{found_innermost, or_else, Located};
use crate::guard::Constant;
use crate::ops::Layer;
use crate::span::SrcSpan;
use crate::types::{Type, TypeAst};
use std::sync::Arc;
use vec1::Vec1;

verus! {

/// The code generator a module is compiled for.
#[derive(Debug, Clone, Copy, PartialEq, Eq, Structural)]
pub enum Target {
    Erlang,
    JavaScript,
}

/// An argument of an external function declaration.
#[derive(Debug, PartialEq, Eq)]
pub struct ExternalFnArg<T> {
    pub location: SrcSpan,
    pub label: Option<String>,
    pub annotation: TypeAst,
    pub type_: T,
}

/// A function implemented in the target language.
#[derive(Debug, PartialEq, Eq)]
pub struct ExternalFunction<T> {
    pub location: SrcSpan,
    pub public: bool,
    pub arguments: Vec<ExternalFnArg<T>>,
    pub name: String,
    pub return_: TypeAst,
    pub return_type: T,
    pub module: String,
    pub fun: String,
    pub documentation: Option<String>,
}

/// The non-empty vector of the `vec1` crate, held opaque.
#[verifier::external_type_specification]
#[verifier::external_body]
#[verifier::reject_recursive_types(I)]
pub struct ExVec1<I>(vec1::Vec1<I>);

/// The statements of a resolved function body, in order.
pub uninterp spec fn typed_body(v: Vec1<TypedStatement>) -> Seq<TypedStatement>;

/// Relies on `Vec1::as_vec`: it borrows the vector that holds the items,
/// which a `Vec1` never lets become empty.
#[verifier::external_body]
fn typed_body_vec(v: &Vec1<TypedStatement>) -> (r: &Vec<TypedStatement>)
    ensures
        r@ == typed_body(*v),
        r@.len() > 0,
{
    v.as_vec()
}

/// A function definition. Its body is never empty.
#[derive(Debug, PartialEq, Eq)]
#[verifier::reject_recursive_types(T)]
#[verifier::reject_recursive_types(R)]
pub struct Function<T, R> {
    pub location: SrcSpan,
    pub end_position: u32,
    pub name: String,
    pub arguments: Vec<Arg<T>>,
    pub body: Vec1<Statement<T, R>>,
    pub public: bool,
    pub return_annotation: Option<TypeAst>,
    pub return_type: T,
    pub documentation: Option<String>,
}

/// A name imported unqualified from another module.
#[derive(Debug, Clone, PartialEq, Eq)]
pub struct UnqualifiedImport {
    pub location: SrcSpan,
    pub name: String,
    pub as_name: Option<String>,
    pub layer: Layer,
}

/// An import of another module; `package` is the phase's package slot.
#[derive(Debug, Clone, PartialEq, Eq)]
pub struct Import<P> {
    pub documentation: Option<String>,
    pub location: SrcSpan,
    pub module: String,
    pub as_name: Option<String>,
    pub unqualified: Vec<UnqualifiedImport>,
    pub package: P,
}

/// A named constant at module level.
#[derive(Debug, PartialEq, Eq)]
pub struct ModuleConstant<T, R> {
    pub documentation: Option<String>,
    pub location: SrcSpan,
    pub public: bool,
    pub name: String,
    pub annotation: Option<TypeAst>,
    pub value: Box<Constant<T, R>>,
    pub type_: T,
}

/// A field of a record constructor.
#[derive(Debug, PartialEq, Eq)]
pub struct RecordConstructorArg<T> {
    pub label: Option<String>,
    pub ast: TypeAst,
    pub location: SrcSpan,
    pub type_: T,
    pub doc: Option<String>,
}

/// One constructor of a custom type.
#[derive(Debug, PartialEq, Eq)]
pub struct RecordConstructor<T> {
    pub location: SrcSpan,
    pub name: String,
    pub arguments: Vec<RecordConstructorArg<T>>,
    pub documentation: Option<String>,
}

/// A custom type with its constructors.
#[derive(Debug, PartialEq, Eq)]
pub struct CustomType<T> {
    pub location: SrcSpan,
    pub name: String,
    pub parameters: Vec<String>,
    pub public: bool,
    pub constructors: Vec<RecordConstructor<T>>,
    pub documentation: Option<String>,
    /// An opaque type hides its constructors from other modules.
    pub opaque: bool,
    pub typed_parameters: Vec<T>,
}

/// A type defined in the target language, known only by name.
#[derive(Debug, Clone, PartialEq, Eq)]
pub struct ExternalType {
    pub location: SrcSpan,
    pub public: bool,
    pub name: String,
    pub arguments: Vec<String>,
    pub documentation: Option<String>,
}

/// A new name for an existing type.
#[derive(Debug, PartialEq, Eq)]
pub struct TypeAlias<T> {
    pub location: SrcSpan,
    pub alias: String,
    pub parameters: Vec<String>,
    pub type_ast: TypeAst,
    pub type_: T,
    pub public: bool,
    pub documentation: Option<String>,
}

/// A top-level statement of a module. `T` is the type slot, `R` the record
/// tag slot and `P` the package slot of the phase.
#[derive(Debug, PartialEq, Eq)]
#[verifier::reject_recursive_types(T)]
#[verifier::reject_recursive_types(R)]
pub enum ModuleStatement<T, R, P> {
    Function(Function<T, R>),
    TypeAlias(TypeAlias<T>),
    CustomType(CustomType<T>),
    ExternalFunction(ExternalFunction<T>),
    ExternalType(ExternalType),
    Import(Import<P>),
    ModuleConstant(ModuleConstant<T, R>),
}

pub type TypedModuleStatement = ModuleStatement<Arc<Type>, String, String>;

pub type UntypedModuleStatement = ModuleStatement<(), (), ()>;

impl<A> crate::expr::Arg<A> {
    pub fn set_type<B>(self, t: B) -> (r: Arg<B>)
        ensures
            r.type_ == t,
            r.names == self.names,
            r.location == self.location,
            r.annotation == self.annotation,
    {
        Arg { type_: t, names: self.names, location: self.location, annotation: self.annotation }
    }

    pub fn get_variable_name(&self) -> (r: Option<&String>)
        ensures
            match self.names {
                crate::pattern::ArgNames::Named { name }
                | crate::pattern::ArgNames::NamedLabelled { name, .. } => r == Some(&name),
                _ => r is None,
            },
    {
        self.names.get_variable_name()
    }
}

impl<A> ExternalFnArg<A> {
    pub fn set_type<B>(self, t: B) -> (r: ExternalFnArg<B>)
        ensures
            r.type_ == t,
            r.location == self.location,
            r.label == self.label,
            r.annotation == self.annotation,
    {
        ExternalFnArg {
            location: self.location,
            label: self.label,
            annotation: self.annotation,
            type_: t,
        }
    }
}

impl<T> RecordConstructor<T> {
    pub fn put_doc(&mut self, new_doc: String)
        ensures
            final(self).documentation == Some(new_doc),
            final(self).location == old(self).location,
            final(self).name == old(self).name,
            final(self).arguments == old(self).arguments,
    {
        self.documentation = Some(new_doc);
    }
}

impl<T> RecordConstructorArg<T> {
    pub fn put_doc(&mut self, new_doc: String)
        ensures
            final(self).doc == Some(new_doc),
            final(self).label == old(self).label,
            final(self).ast == old(self).ast,
            final(self).location == old(self).location,
            final(self).type_ == old(self).type_,
    {
        self.doc = Some(new_doc);
    }
}

/// Where the final segment of a `/`-separated module path begins: just
/// after the last `/`, or at the start when there is none.
pub open spec fn last_segment_start(path: Seq<char>) -> int
    decreases path.len(),
{
    if path.len() == 0 {
        0
    } else if path.last() == '/' {
        path.len() as int
    } else {
        last_segment_start(path.drop_last())
    }
}

/// The final segment of a `/`-separated module path.
pub open spec fn last_segment(path: Seq<char>) -> Seq<char> {
    path.subrange(last_segment_start(path), path.len() as int)
}

impl<P> Import<P> {
    /// The name that the imported module is bound to: the alias, or else the
    /// final segment of the module path.
    pub open spec fn variable_name_spec(self) -> Seq<char> {
        match self.as_name {
            Some(a) => a@,
            None => last_segment(self.module@),
        }
    }

    pub fn variable_name(&self) -> (r: String)
        requires
            self.as_name is Some || last_segment(self.module@).len() > 0,
        ensures
            r@ == self.variable_name_spec(),
    {
        match &self.as_name {
            Some(a) => a.clone(),
            None => {
                let path = self.module.as_str();
                let n = path.unicode_len();
                let mut k: usize = n;
                proof {
                    assert(path@.subrange(0, n as int) =~= path@);
                }
                while k > 0 && path.get_char(k - 1) != '/'
                    invariant
                        k <= n,
                        n == path@.len(),
                        last_segment_start(path@) == last_segment_start(path@.subrange(0, k as int)),
                    decreases k,
                {
                    proof {
                        let pre = path@.subrange(0, k as int);
                        assert(pre.drop_last() =~= path@.subrange(0, k - 1));
                    }
                    k = k - 1;
                }
                proof {
                    assert(path@.subrange(0, n as int) =~= path@);
                    if k > 0 {
                        assert(path@.subrange(0, k as int).last() == '/');
                    }
                }
                path.substring_char(k, n).to_owned()
            },
        }
    }
}

impl UnqualifiedImport {
    pub fn variable_name(&self) -> (r: &str)
        ensures
            r@ == match self.as_name {
                Some(a) => a@,
                None => self.name@,
            },
    {
        match &self.as_name {
            Some(a) => a.as_str(),
            None => self.name.as_str(),
        }
    }

    pub fn is_value(&self) -> (r: bool)
        ensures
            r == (self.layer is Value),
    {
        self.layer.is_value()
    }
}

impl<A, B, C> ModuleStatement<A, B, C> {
    pub open spec fn location_spec(self) -> SrcSpan {
        match self {
            ModuleStatement::Function(f) => f.location,
            ModuleStatement::Import(i) => i.location,
            ModuleStatement::TypeAlias(t) => t.location,
            ModuleStatement::CustomType(c) => c.location,
            ModuleStatement::ExternalFunction(f) => f.location,
            ModuleStatement::ExternalType(t) => t.location,
            ModuleStatement::ModuleConstant(c) => c.location,
        }
    }

    /// The statement with its documentation set to `doc`; imports carry no
    /// documentation and stay as they are.
    pub open spec fn with_doc(self, doc: String) -> Self {
        match self {
            ModuleStatement::Import(i) => ModuleStatement::Import(i),
            ModuleStatement::Function(f) => ModuleStatement::Function(
                Function { documentation: Some(doc), ..f },
            ),
            ModuleStatement::TypeAlias(t) => ModuleStatement::TypeAlias(
                TypeAlias { documentation: Some(doc), ..t },
            ),
            ModuleStatement::CustomType(c) => ModuleStatement::CustomType(
                CustomType { documentation: Some(doc), ..c },
            ),
            ModuleStatement::ExternalFunction(f) => ModuleStatement::ExternalFunction(
                ExternalFunction { documentation: Some(doc), ..f },
            ),
            ModuleStatement::ExternalType(t) => ModuleStatement::ExternalType(
                ExternalType { documentation: Some(doc), ..t },
            ),
            ModuleStatement::ModuleConstant(c) => ModuleStatement::ModuleConstant(
                ModuleConstant { documentation: Some(doc), ..c },
            ),
        }
    }

    pub fn location(&self) -> (r: SrcSpan)
        ensures
            r == self.location_spec(),
    {
        match self {
            ModuleStatement::Function(Function { location, .. })
            | ModuleStatement::Import(Import { location, .. })
            | ModuleStatement::TypeAlias(TypeAlias { location, .. })
            | ModuleStatement::CustomType(CustomType { location, .. })
            | ModuleStatement::ExternalFunction(ExternalFunction { location, .. })
            | ModuleStatement::ExternalType(ExternalType { location, .. })
            | ModuleStatement::ModuleConstant(ModuleConstant { location, .. }) => *location,
        }
    }

    pub fn put_doc(&mut self, new_doc: String)
        ensures
            *final(self) == old(self).with_doc(new_doc),
    {
        match self {
            ModuleStatement::Import(_) => (),
            ModuleStatement::Function(s) => {
                s.documentation = Some(new_doc);
            },
            ModuleStatement::TypeAlias(s) => {
                s.documentation = Some(new_doc);
            },
            ModuleStatement::CustomType(s) => {
                s.documentation = Some(new_doc);
            },
            ModuleStatement::ExternalFunction(s) => {
                s.documentation = Some(new_doc);
            },
            ModuleStatement::ExternalType(s) => {
                s.documentation = Some(new_doc);
            },
            ModuleStatement::ModuleConstant(s) => {
                s.documentation = Some(new_doc);
            },
        }
    }
}

/// A function of a module, defined in the language or in the target.
#[derive(Debug)]
pub enum ModuleFunction {
    Internal(Function<(), ()>),
    External(ExternalFunction<()>),
}

impl ModuleFunction {
    pub fn name(&self) -> (r: &String)
        ensures
            match *self {
                ModuleFunction::Internal(f) => *r == f.name,
                ModuleFunction::External(f) => *r == f.name,
            },
    {
        match self {
            ModuleFunction::Internal(f) => &f.name,
            ModuleFunction::External(f) => &f.name,
        }
    }

    pub fn location(&self) -> (r: SrcSpan)
        ensures
            match *self {
                ModuleFunction::Internal(f) => r == f.location,
                ModuleFunction::External(f) => r == f.location,
            },
    {
        match self {
            ModuleFunction::Internal(f) => f.location,
            ModuleFunction::External(f) => f.location,
        }
    }
}

/// What inference records of a module as a whole.
#[derive(Debug, Clone, PartialEq, Eq)]
pub struct ModuleInterface {
    pub name: String,
    pub package: String,
}

/// A module: its name, documentation lines, the phase's module-level
/// information and its top-level statements (grouped by target before
/// inference, flat after it).
#[derive(Debug, PartialEq, Eq)]
pub struct Module<Info, Statements> {
    pub name: String,
    pub documentation: Vec<String>,
    pub type_info: Info,
    pub statements: Vec<Statements>,
}

pub type TypedModule = Module<ModuleInterface, TypedModuleStatement>;

pub type UntypedModule = Module<(), TargetGroup>;

/// Statements compiled for every target, or only for one.
#[derive(Debug, PartialEq, Eq)]
pub enum TargetGroup {
    Any(Vec<UntypedModuleStatement>),
    Only(Target, Vec<UntypedModuleStatement>),
}

impl TargetGroup {
    pub open spec fn is_for_spec(self, target: Target) -> bool {
        match self {
            TargetGroup::Any(_) => true,
            TargetGroup::Only(t, _) => t == target,
        }
    }

    pub open spec fn statements_spec(self) -> Seq<UntypedModuleStatement> {
        match self {
            TargetGroup::Any(s) => s@,
            TargetGroup::Only(_, s) => s@,
        }
    }

    pub fn is_for(&self, target: Target) -> (r: bool)
        ensures
            r == self.is_for_spec(target),
    {
        match self {
            TargetGroup::Any(_) => true,
            TargetGroup::Only(t, _) => *t == target,
        }
    }

    pub fn statements(self) -> (r: Vec<UntypedModuleStatement>)
        ensures
            r@ == self.statements_spec(),
    {
        match self {
            TargetGroup::Any(s) => s,
            TargetGroup::Only(_, s) => s,
        }
    }

    pub fn statements_ref(&self) -> (r: &[UntypedModuleStatement])
        ensures
            r@ == self.statements_spec(),
    {
        match self {
            TargetGroup::Any(s) => s.as_slice(),
            TargetGroup::Only(_, s) => s.as_slice(),
        }
    }

    pub fn len(&self) -> (r: usize)
        ensures
            r == self.statements_spec().len(),
    {
        self.statements_ref().len()
    }

    pub fn is_empty(&self) -> (r: bool)
        ensures
            r == (self.statements_spec().len() == 0),
    {
        self.len() == 0
    }
}

/// The statements of the groups that apply to `target`, in source order.
pub open spec fn selected_statements(groups: Seq<TargetGroup>, target: Target) -> Seq<
    UntypedModuleStatement,
>
    decreases groups.len(),
{
    if groups.len() == 0 {
        seq![]
    } else {
        let rest = selected_statements(groups.drop_last(), target);
        if groups.last().is_for_spec(target) {
            rest + groups.last().statements_spec()
        } else {
            rest
        }
    }
}

/// The module path and span of each import among `stmts`, in order.
pub open spec fn import_paths_in(stmts: Seq<UntypedModuleStatement>) -> Seq<(Seq<char>, SrcSpan)>
    decreases stmts.len(),
{
    if stmts.len() == 0 {
        seq![]
    } else {
        let rest = import_paths_in(stmts.drop_last());
        match stmts.last() {
            ModuleStatement::Import(i) => rest.push((i.module@, i.location)),
            _ => rest,
        }
    }
}

/// A list of dependencies seen through the text of their paths.
pub open spec fn dependencies_view(r: Seq<(String, SrcSpan)>) -> Seq<(Seq<char>, SrcSpan)> {
    r.map_values(|p: (String, SrcSpan)| (p.0@, p.1))
}

pub proof fn lemma_selected_statements_append(a: Seq<TargetGroup>, b: Seq<TargetGroup>, target: Target)
    ensures
        selected_statements(a + b, target) == selected_statements(a, target) + selected_statements(
            b,
            target,
        ),
    decreases b.len(),
{
    if b.len() == 0 {
        assert(a + b =~= a);
        assert(selected_statements(a, target) + seq![] =~= selected_statements(a, target));
    } else {
        assert((a + b).drop_last() =~= a + b.drop_last());
        assert((a + b).last() == b.last());
        lemma_selected_statements_append(a, b.drop_last(), target);
        let sa = selected_statements(a, target);
        let sb = selected_statements(b.drop_last(), target);
        assert(sa + sb + b.last().statements_spec() =~= sa + (sb + b.last().statements_spec()));
    }
}

impl UntypedModule {
    pub fn dependencies(&self, target: Target) -> (r: Vec<(String, SrcSpan)>)
        ensures
            dependencies_view(r@) == import_paths_in(selected_statements(self.statements@, target)),
    {
        let groups = &self.statements;
        let n = groups.len();
        let mut r: Vec<(String, SrcSpan)> = Vec::new();
        let mut g: usize = 0;
        while g < n
            invariant
                g <= n,
                n == groups@.len(),
                dependencies_view(r@) == import_paths_in(
                    selected_statements(groups@.subrange(0, g as int), target),
                ),
            decreases n - g,
        {
            let group = &groups[g];
            let ghost before = selected_statements(groups@.subrange(0, g as int), target);
            proof {
                assert(groups@.subrange(0, g + 1).drop_last() =~= groups@.subrange(0, g as int));
            }
            if group.is_for(target) {
                let stmts = group.statements_ref();
                let m = stmts.len();
                let mut j: usize = 0;
                proof {
                    assert(before + stmts@.subrange(0, 0) =~= before);
                }
                while j < m
                    invariant
                        j <= m,
                        m == stmts@.len(),
                        dependencies_view(r@) == import_paths_in(before + stmts@.subrange(0, j as int)),
                    decreases m - j,
                {
                    let ghost old_r = r@;
                    proof {
                        let cur = before + stmts@.subrange(0, j + 1);
                        assert(cur.drop_last() =~= before + stmts@.subrange(0, j as int));
                        assert(cur.last() == stmts@[j as int]);
                    }
                    match &stmts[j] {
                        ModuleStatement::Import(i) => {
                            r.push((i.module.clone(), i.location));
                            proof {
                                assert(dependencies_view(r@) =~= dependencies_view(old_r).push(
                                    (i.module@, i.location),
                                ));
                            }
                        },
                        _ => {},
                    }
                    j = j + 1;
                }
                proof {
                    assert(stmts@.subrange(0, m as int) =~= stmts@);
                }
            }
            g = g + 1;
        }
        proof {
            assert(groups@.subrange(0, n as int) =~= groups@);
        }
        r
    }

    pub fn iter_statements(&self, target: Target) -> (r: Vec<&UntypedModuleStatement>)
        ensures
            r@.map_values(|s: &UntypedModuleStatement| *s) == selected_statements(
                self.statements@,
                target,
            ),
    {
        let groups = &self.statements;
        let n = groups.len();
        let mut r: Vec<&UntypedModuleStatement> = Vec::new();
        let mut g: usize = 0;
        while g < n
            invariant
                g <= n,
                n == groups@.len(),
                r@.map_values(|s: &UntypedModuleStatement| *s) == selected_statements(
                    groups@.subrange(0, g as int),
                    target,
                ),
            decreases n - g,
        {
            let group = &groups[g];
            let ghost before = selected_statements(groups@.subrange(0, g as int), target);
            proof {
                assert(groups@.subrange(0, g + 1).drop_last() =~= groups@.subrange(0, g as int));
            }
            if group.is_for(target) {
                let stmts = group.statements_ref();
                let m = stmts.len();
                let mut j: usize = 0;
                proof {
                    assert(before + stmts@.subrange(0, 0) =~= before);
                }
                while j < m
                    invariant
                        j <= m,
                        m == stmts@.len(),
                        r@.map_values(|s: &UntypedModuleStatement| *s) == before + stmts@.subrange(
                            0,
                            j as int,
                        ),
                    decreases m - j,
                {
                    let ghost old_r = r@;
                    r.push(&stmts[j]);
                    proof {
                        assert(r@.map_values(|s: &UntypedModuleStatement| *s) =~= old_r.map_values(
                            |s: &UntypedModuleStatement| *s,
                        ).push(stmts@[j as int]));
                        assert(before + stmts@.subrange(0, j + 1) =~= (before + stmts@.subrange(
                            0,
                            j as int,
                        )).push(stmts@[j as int]));
                    }
                    j = j + 1;
                }
                proof {
                    assert(stmts@.subrange(0, m as int) =~= stmts@);
                }
            }
            g = g + 1;
        }
        proof {
            assert(groups@.subrange(0, n as int) =~= groups@);
        }
        r
    }

    pub fn into_iter_statements(self, target: Target) -> (r: Vec<UntypedModuleStatement>)
        ensures
            r@ == selected_statements(self.statements@, target),
    {
        let ghost all = self.statements@;
        let mut groups = self.statements;
        let mut r: Vec<UntypedModuleStatement> = Vec::new();
        proof {
            assert(seq![] + all =~= all);
        }
        while groups.len() > 0
            invariant
                selected_statements(all, target) == r@ + selected_statements(groups@, target),
            decreases groups@.len(),
        {
            let ghost rest = groups@;
            let ghost old_r = r@;
            let group = groups.remove(0);
            proof {
                assert(rest =~= seq![group] + groups@);
                lemma_selected_statements_append(seq![group], groups@, target);
                assert(seq![group].drop_last() =~= Seq::<TargetGroup>::empty());
                assert(seq![group].last() == group);
            }
            let ghost tail = selected_statements(groups@, target);
            if group.is_for(target) {
                let mut stmts = group.statements();
                let ghost s = stmts@;
                r.append(&mut stmts);
                proof {
                    assert(selected_statements(Seq::<TargetGroup>::empty(), target) == Seq::<
                        UntypedModuleStatement,
                    >::empty());
                    assert(selected_statements(seq![group], target) == Seq::<
                        UntypedModuleStatement,
                    >::empty() + s);
                    assert(Seq::<UntypedModuleStatement>::empty() + s =~= s);
                    assert(old_r + (s + tail) =~= (old_r + s) + tail);
                }
            } else {
                proof {
                    assert(selected_statements(Seq::<TargetGroup>::empty(), target) == Seq::<
                        UntypedModuleStatement,
                    >::empty());
                    assert(selected_statements(seq![group], target) == Seq::<
                        UntypedModuleStatement,
                    >::empty());
                    assert(Seq::<UntypedModuleStatement>::empty() + tail =~= tail);
                }
            }
        }
        proof {
            assert(r@ + seq![] =~= r@);
        }
        r
    }
}

impl TypedModuleStatement {
    /// The node found at offset `i`: what a function's body finds, or else the
    /// statement itself when its span holds the offset. The span of a
    /// function covers only its head, so its body is searched regardless.
    pub open spec fn find_spec(&self, i: int) -> Option<Located<'_>> {
        or_else(
            match *self {
                ModuleStatement::Function(f) => first_in_statements(typed_body(f.body), i),
                _ => None,
            },
            if self.location_spec().contains_spec(i) {
                Some(Located::ModuleStatement(self))
            } else {
                None
            },
        )
    }

    pub fn find_node(&self, byte_index: u32) -> (r: Option<Located<'_>>)
        ensures
            r == self.find_spec(byte_index as int),
    {
        if let ModuleStatement::Function(f) = self {
            let found = find_in_body(typed_body_vec(&f.body), byte_index);
            if found.is_some() {
                return found;
            }
        }
        if self.location().contains(byte_index) {
            Some(Located::ModuleStatement(self))
        } else {
            None
        }
    }
}

fn find_in_body<'a>(xs: &'a Vec<TypedStatement>, byte_index: u32) -> (r: Option<Located<'a>>)
    ensures
        r == first_in_statements(xs@, byte_index as int),
{
    let n = xs.len();
    let mut k: usize = 0;
    proof {
        assert(xs@.subrange(0, n as int) =~= xs@);
    }
    while k < n
        invariant
            k <= n,
            n == xs@.len(),
            first_in_statements(xs@, byte_index as int) == first_in_statements(
                xs@.subrange(k as int, n as int),
                byte_index as int,
            ),
        decreases n - k,
    {
        proof {
            let a = xs@.subrange(k as int, n as int);
            assert(a.subrange(1, a.len() as int) =~= xs@.subrange(k + 1, n as int));
            assert(a[0] == xs@[k as int]);
        }
        let found = xs[k].find_node(byte_index);
        if found.is_some() {
            return found;
        }
        k = k + 1;
    }
    None
}

/// The first top-level statement that finds a node at offset `i`.
pub open spec fn first_in_module_statements<'a>(xs: Seq<TypedModuleStatement>, i: int) -> Option<
    Located<'a>,
>
    decreases xs.len(),
{
    if xs.len() == 0 {
        None
    } else {
        or_else(xs[0].find_spec(i), first_in_module_statements(xs.subrange(1, xs.len() as int), i))
    }
}

impl TypedModule {
    pub fn find_node(&self, byte_index: u32) -> (r: Option<Located<'_>>)
        ensures
            r == first_in_module_statements(self.statements@, byte_index as int),
    {
        let xs = &self.statements;
        let n = xs.len();
        let mut k: usize = 0;
        proof {
            assert(xs@.subrange(0, n as int) =~= xs@);
        }
        while k < n
            invariant
                k <= n,
                xs@ == self.statements@,
                n == xs@.len(),
                first_in_module_statements(xs@, byte_index as int) == first_in_module_statements(
                    xs@.subrange(k as int, n as int),
                    byte_index as int,
                ),
            decreases n - k,
        {
            proof {
                let a = xs@.subrange(k as int, n as int);
                assert(a.subrange(1, a.len() as int) =~= xs@.subrange(k + 1, n as int));
                assert(a[0] == xs@[k as int]);
            }
            let found = xs[k].find_node(byte_index);
            if found.is_some() {
                proof {
                    let a = xs@.subrange(k as int, n as int);
                    assert(found == xs@[k as int].find_spec(byte_index as int));
                    assert(a[0] == xs@[k as int]);
                    assert(first_in_module_statements(a, byte_index as int) == or_else(
                        a[0].find_spec(byte_index as int),
                        first_in_module_statements(a.subrange(1, a.len() as int), byte_index as int),
                    ));
                }
                return found;
            }
            k = k + 1;
        }
        None
    }
}

pub type UntypedModuleConstant = ModuleConstant<(), ()>;

/// The statements of a module sorted by kind, each kind in source order.
#[derive(Debug)]
pub struct GroupedStatements {
    pub functions: Vec<Function<(), ()>>,
    pub external_functions: Vec<ExternalFunction<()>>,
    pub constants: Vec<ModuleConstant<(), ()>>,
    pub custom_types: Vec<CustomType<()>>,
    pub imports: Vec<Import<()>>,
    pub external_types: Vec<ExternalType>,
    pub type_aliases: Vec<TypeAlias<()>>,
}

/// The functions among `s`, in order.
pub open spec fn functions_in(s: Seq<UntypedModuleStatement>) -> Seq<Function<(), ()>>
    decreases s.len(),
{
    if s.len() == 0 {
        seq![]
    } else {
        match s.last() {
            ModuleStatement::Function(x) => functions_in(s.drop_last()).push(x),
            _ => functions_in(s.drop_last()),
        }
    }
}

/// The external functions among `s`, in order.
pub open spec fn external_functions_in(s: Seq<UntypedModuleStatement>) -> Seq<ExternalFunction<()>>
    decreases s.len(),
{
    if s.len() == 0 {
        seq![]
    } else {
        match s.last() {
            ModuleStatement::ExternalFunction(x) => external_functions_in(s.drop_last()).push(x),
            _ => external_functions_in(s.drop_last()),
        }
    }
}

/// The constants among `s`, in order.
pub open spec fn constants_in(s: Seq<UntypedModuleStatement>) -> Seq<ModuleConstant<(), ()>>
    decreases s.len(),
{
    if s.len() == 0 {
        seq![]
    } else {
        match s.last() {
            ModuleStatement::ModuleConstant(x) => constants_in(s.drop_last()).push(x),
            _ => constants_in(s.drop_last()),
        }
    }
}

/// The custom types among `s`, in order.
pub open spec fn custom_types_in(s: Seq<UntypedModuleStatement>) -> Seq<CustomType<()>>
    decreases s.len(),
{
    if s.len() == 0 {
        seq![]
    } else {
        match s.last() {
            ModuleStatement::CustomType(x) => custom_types_in(s.drop_last()).push(x),
            _ => custom_types_in(s.drop_last()),
        }
    }
}

/// The imports among `s`, in order.
pub open spec fn imports_in(s: Seq<UntypedModuleStatement>) -> Seq<Import<()>>
    decreases s.len(),
{
    if s.len() == 0 {
        seq![]
    } else {
        match s.last() {
            ModuleStatement::Import(x) => imports_in(s.drop_last()).push(x),
            _ => imports_in(s.drop_last()),
        }
    }
}

/// The external types among `s`, in order.
pub open spec fn external_types_in(s: Seq<UntypedModuleStatement>) -> Seq<ExternalType>
    decreases s.len(),
{
    if s.len() == 0 {
        seq![]
    } else {
        match s.last() {
            ModuleStatement::ExternalType(x) => external_types_in(s.drop_last()).push(x),
            _ => external_types_in(s.drop_last()),
        }
    }
}

/// The type aliases among `s`, in order.
pub open spec fn type_aliases_in(s: Seq<UntypedModuleStatement>) -> Seq<TypeAlias<()>>
    decreases s.len(),
{
    if s.len() == 0 {
        seq![]
    } else {
        match s.last() {
            ModuleStatement::TypeAlias(x) => type_aliases_in(s.drop_last()).push(x),
            _ => type_aliases_in(s.drop_last()),
        }
    }
}

/// The number of statements in all buckets of `s`.
pub open spec fn bucketed_len(s: Seq<UntypedModuleStatement>) -> nat {
    functions_in(s).len() + external_functions_in(s).len() + constants_in(s).len() + custom_types_in(s).len() + imports_in(s).len() + external_types_in(s).len() + type_aliases_in(s).len()
}

/// Sorting statements into buckets neither drops nor duplicates any: the
/// buckets together hold as many statements as the input. (Each bucket keeps
/// the input's order by its definition as a filter of the input.)
pub proof fn lemma_bucketing_total(s: Seq<UntypedModuleStatement>)
    ensures
        bucketed_len(s) == s.len(),
    decreases s.len(),
{
    if s.len() > 0 {
        lemma_bucketing_total(s.drop_last());
    }
}

impl Default for GroupedStatements {
    fn default() -> (r: GroupedStatements)
        ensures
            r.holds(Seq::empty()),
            r.len_spec() == 0,
    {
        GroupedStatements {
            functions: Vec::new(),
            external_functions: Vec::new(),
            constants: Vec::new(),
            custom_types: Vec::new(),
            imports: Vec::new(),
            external_types: Vec::new(),
            type_aliases: Vec::new(),
        }
    }
}

impl GroupedStatements {
    /// Whether the buckets hold exactly the statements of `s`, sorted.
    pub open spec fn holds(&self, s: Seq<UntypedModuleStatement>) -> bool {
        &&& self.functions@ == functions_in(s)
        &&& self.external_functions@ == external_functions_in(s)
        &&& self.constants@ == constants_in(s)
        &&& self.custom_types@ == custom_types_in(s)
        &&& self.imports@ == imports_in(s)
        &&& self.external_types@ == external_types_in(s)
        &&& self.type_aliases@ == type_aliases_in(s)
    }

    pub open spec fn len_spec(&self) -> nat {
        self.functions@.len() + self.external_functions@.len() + self.constants@.len() + self.custom_types@.len() + self.imports@.len() + self.external_types@.len() + self.type_aliases@.len()
    }

    pub fn new(statements: Vec<UntypedModuleStatement>) -> (r: Self)
        ensures
            r.holds(statements@),
            r.len_spec() == statements@.len(),
    {
        let ghost all = statements@;
        let mut rest = statements;
        let mut this = GroupedStatements::default();
        let ghost mut k: int = 0;
        proof {
            assert(all.subrange(0, 0) =~= Seq::<UntypedModuleStatement>::empty());
            assert(all.subrange(0, all.len() as int) =~= all);
        }
        while rest.len() > 0
            invariant
                0 <= k <= all.len(),
                rest@ == all.subrange(k, all.len() as int),
                this.holds(all.subrange(0, k)),
            decreases rest@.len(),
        {
            let statement = rest.remove(0);
            proof {
                assert(statement == all[k]);
                assert(rest@ =~= all.subrange(k + 1, all.len() as int));
                assert(all.subrange(0, k + 1).drop_last() =~= all.subrange(0, k));
                assert(all.subrange(0, k + 1).last() == statement);
            }
            this.add(statement);
            proof {
                k = k + 1;
            }
        }
        proof {
            assert(all.subrange(0, k) =~= all);
            lemma_bucketing_total(all);
        }
        this
    }

    pub fn is_empty(&self) -> (r: bool)
        ensures
            r == (self.len_spec() == 0),
    {
        self.functions.len() == 0 && self.external_functions.len() == 0 && self.constants.len() == 0 && self.custom_types.len() == 0 && self.imports.len() == 0 && self.external_types.len() == 0 && self.type_aliases.len() == 0
    }

    pub fn len(&self) -> (r: usize)
        requires
            self.len_spec() <= usize::MAX,
        ensures
            r == self.len_spec(),
    {
        self.functions.len() + self.constants.len() + self.imports.len() + self.external_types.len()
            + self.custom_types.len() + self.type_aliases.len() + self.external_functions.len()
    }

    fn add(&mut self, statement: UntypedModuleStatement)
        ensures
            final(self).functions@ == match statement {
                ModuleStatement::Function(x) => old(self).functions@.push(x),
                _ => old(self).functions@,
            },
            final(self).external_functions@ == match statement {
                ModuleStatement::ExternalFunction(x) => old(self).external_functions@.push(x),
                _ => old(self).external_functions@,
            },
            final(self).constants@ == match statement {
                ModuleStatement::ModuleConstant(x) => old(self).constants@.push(x),
                _ => old(self).constants@,
            },
            final(self).custom_types@ == match statement {
                ModuleStatement::CustomType(x) => old(self).custom_types@.push(x),
                _ => old(self).custom_types@,
            },
            final(self).imports@ == match statement {
                ModuleStatement::Import(x) => old(self).imports@.push(x),
                _ => old(self).imports@,
            },
            final(self).external_types@ == match statement {
                ModuleStatement::ExternalType(x) => old(self).external_types@.push(x),
                _ => old(self).external_types@,
            },
            final(self).type_aliases@ == match statement {
                ModuleStatement::TypeAlias(x) => old(self).type_aliases@.push(x),
                _ => old(self).type_aliases@,
            },
    {
        match statement {
            ModuleStatement::Import(i) => self.imports.push(i),
            ModuleStatement::Function(f) => self.functions.push(f),
            ModuleStatement::TypeAlias(t) => self.type_aliases.push(t),
            ModuleStatement::CustomType(c) => self.custom_types.push(c),
            ModuleStatement::ExternalType(t) => self.external_types.push(t),
            ModuleStatement::ModuleConstant(c) => self.constants.push(c),
            ModuleStatement::ExternalFunction(f) => self.external_functions.push(f),
        }
    }
}

proof fn lemma_body_lookup(xs: Seq<TypedStatement>, i: int)
    ensures
        found_innermost(first_in_statements(xs, i), i),
        first_in_statements(xs, i) is None <==> forall|k: int|
            0 <= k < xs.len() ==> !held_in_statement(#[trigger] xs[k], i),
    decreases xs.len(),
{
    if xs.len() > 0 {
        let rest = xs.subrange(1, xs.len() as int);
        lemma_statement_lookup(xs[0], i);
        lemma_body_lookup(rest, i);
        assert forall|k: int| 0 <= k < rest.len() implies rest[k] == xs[k + 1] by {}
        if (forall|k: int| 0 <= k < xs.len() ==> !held_in_statement(#[trigger] xs[k], i)) {
            assert(!held_in_statement(xs[0], i));
            assert forall|k: int| 0 <= k < rest.len() implies !held_in_statement(#[trigger] rest[k], i) by {
                assert(rest[k] == xs[k + 1]);
            }
        }
        if first_in_statements(xs, i) is None {
            assert forall|k: int| 0 <= k < xs.len() implies !held_in_statement(#[trigger] xs[k], i) by {
                if k > 0 {
                    assert(xs[k] == rest[k - 1]);
                }
            }
        }
    }
}

/// Whether the span of the top-level statement holds offset `i`, or, for a
/// function, that of a statement of its body or of that statement's parts.
pub open spec fn held_in_module_statement(m: TypedModuleStatement, i: int) -> bool {
    m.location_spec().contains_spec(i) || (m matches ModuleStatement::Function(f) && exists|k: int|
        0 <= k < typed_body(f.body).len() && held_in_statement(#[trigger] typed_body(f.body)[k], i))
}

/// Looking up an offset in a resolved module finds the innermost node there,
/// and finds nothing exactly when no top-level statement, no statement of a
/// function body and no pattern or expression directly in such a statement
/// holds the offset.
pub proof fn lemma_module_lookup(statements: Seq<TypedModuleStatement>, i: int)
    ensures
        found_innermost(first_in_module_statements(statements, i), i),
        first_in_module_statements(statements, i) is None <==> forall|k: int|
            0 <= k < statements.len() ==> !held_in_module_statement(#[trigger] statements[k], i),
    decreases statements.len(),
{
    if statements.len() > 0 {
        let m = statements[0];
        match m {
            ModuleStatement::Function(f) => lemma_body_lookup(typed_body(f.body), i),
            _ => {},
        }
        assert(m.find_spec(i) is None <==> !held_in_module_statement(m, i));
        let rest = statements.subrange(1, statements.len() as int);
        lemma_module_lookup(rest, i);
        if (forall|k: int| 0 <= k < statements.len() ==> !held_in_module_statement(#[trigger] statements[k], i)) {
            assert(!held_in_module_statement(statements[0], i));
            assert forall|k: int| 0 <= k < rest.len() implies !held_in_module_statement(#[trigger] rest[k], i) by {
                assert(rest[k] == statements[k + 1]);
            }
        }
        if first_in_module_statements(statements, i) is None {
            assert forall|k: int| 0 <= k < statements.len() implies !held_in_module_statement(#[trigger] statements[k], i) by {
                if k > 0 {
                    assert(statements[k] == rest[k - 1]);
                }
            }
        }
    }
}

proof fn lemma_import_paths_append(a: Seq<UntypedModuleStatement>, b: Seq<UntypedModuleStatement>)
    ensures
        import_paths_in(a + b) == import_paths_in(a) + import_paths_in(b),
    decreases b.len(),
{
    if b.len() == 0 {
        assert(a + b =~= a);
        assert(import_paths_in(a) + seq![] =~= import_paths_in(a));
    } else {
        assert((a + b).drop_last() =~= a + b.drop_last());
        assert((a + b).last() == b.last());
        lemma_import_paths_append(a, b.drop_last());
        let pa = import_paths_in(a);
        let pb = import_paths_in(b.drop_last());
        match b.last() {
            ModuleStatement::Import(i) => {
                assert((pa + pb).push((i.module@, i.location)) =~= pa + pb.push((i.module@, i.location)));
            },
            _ => {},
        }
    }
}

/// The dependencies for a target are found group by group in source order:
/// a group for that target adds the imports among its statements, in their
/// order, and a group for another target adds nothing.
pub proof fn lemma_dependencies_by_group(groups: Seq<TargetGroup>, g: TargetGroup, target: Target)
    ensures
        import_paths_in(selected_statements(groups.push(g), target)) == import_paths_in(
            selected_statements(groups, target),
        ) + if g.is_for_spec(target) {
            import_paths_in(g.statements_spec())
        } else {
            Seq::<(Seq<char>, SrcSpan)>::empty()
        },
{
    assert(groups.push(g).drop_last() =~= groups);
    let before = selected_statements(groups, target);
    if g.is_for_spec(target) {
        lemma_import_paths_append(before, g.statements_spec());
    } else {
        assert(import_paths_in(before) + Seq::<(Seq<char>, SrcSpan)>::empty() =~= import_paths_in(
            before,
        ));
    }
}

} // verus!
