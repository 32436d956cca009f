use vstd::prelude::*;
use crate::expr::{TypedArg, TypedExpr, TypedStatement};
use crate::module::TypedModuleStatement;
use crate::pattern::TypedPattern;

verus! {

/// The innermost node found at a byte offset of a resolved module.
#[derive(Debug)]
pub enum Located<'a> {
    ModuleStatement(&'a TypedModuleStatement),
    Statement(&'a TypedStatement),
    Expression(&'a TypedExpr),
    Pattern(&'a TypedPattern),
    Arg(&'a TypedArg),
}

/// The first of two lookups that found something.
pub open spec fn or_else<'a>(a: Option<Located<'a>>, b: Option<Located<'a>>) -> Option<Located<'a>> {
    if a is Some {
        a
    } else {
        b
    }
}

/// What a lookup found is well placed: a node whose span holds `i` and which
/// finds itself again when searched at `i`, so no node below it holds the
/// offset.
pub open spec fn found_innermost(found: Option<Located<'_>>, i: int) -> bool {
    match found {
        None => true,
        Some(l) => match l {
            Located::ModuleStatement(m) => m.location_spec().contains_spec(i) && m.find_spec(i) == found,
            Located::Statement(s) => s.location_spec().contains_spec(i) && s.find_spec(i) == found,
            Located::Expression(e) => e.location_spec().contains_spec(i) && e.find_spec(i) == found,
            Located::Pattern(p) => p.location_spec().contains_spec(i) && p.find_spec(i) == found,
            Located::Arg(a) => a.location.contains_spec(i) && a.find_spec(i) == found,
        },
    }
}

} // verus!
