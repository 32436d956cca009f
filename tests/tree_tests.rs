use compiler_core::bits::{BitStringSegment, BitStringSegmentOption};
use compiler_core::expr::{Assignment, Clause, Expr, Statement, TypedExpr, TypedStatement};
use compiler_core::guard::{ClauseGuard, Constant, TypedClauseGuard};
use compiler_core::located::Located;
use compiler_core::module::{
    ExternalType, Function, GroupedStatements, Import, Module, ModuleStatement, Target,
    TargetGroup, TypedModule, TypedModuleStatement, UnqualifiedImport, UntypedModule,
    UntypedModuleStatement,
};
use compiler_core::ops::{AssignmentKind, BinOp, Layer};
use compiler_core::pattern::{AssignName, CallArg, Inferred, Pattern, TypedPattern};
use compiler_core::span::SrcSpan;
use compiler_core::types::{int_type, Type, TypeAst};
use vec1::Vec1;

fn import(module: &str, location: SrcSpan) -> UntypedModuleStatement {
    ModuleStatement::Import(Import {
        documentation: None,
        location,
        module: module.to_string(),
        as_name: None,
        unqualified: vec![],
        package: (),
    })
}

fn external_type(name: &str, location: SrcSpan) -> UntypedModuleStatement {
    ModuleStatement::ExternalType(ExternalType {
        location,
        public: true,
        name: name.to_string(),
        arguments: vec![],
        documentation: None,
    })
}

fn untyped_function(name: &str, location: SrcSpan) -> UntypedModuleStatement {
    ModuleStatement::Function(Function {
        location,
        end_position: location.end,
        name: name.to_string(),
        arguments: vec![],
        body: Vec1::new(Statement::Expression(Expr::Int {
            location,
            value: "1".to_string(),
            type_: (),
        })),
        public: false,
        return_annotation: None,
        return_type: (),
        documentation: None,
    })
}

fn sample_module() -> UntypedModule {
    Module {
        name: "sample".to_string(),
        documentation: vec![],
        type_info: (),
        statements: vec![
            TargetGroup::Any(vec![import("one", SrcSpan::new(7, 10))]),
            TargetGroup::Only(Target::Erlang, vec![import("two", SrcSpan::new(40, 43))]),
            TargetGroup::Only(Target::JavaScript, vec![import("three", SrcSpan::new(76, 81))]),
            TargetGroup::Any(vec![import("four", SrcSpan::new(104, 108))]),
        ],
    }
}

#[test]
fn module_dependencies_test() {
    let module = sample_module();
    assert_eq!(
        vec![
            ("one".to_string(), SrcSpan::new(7, 10)),
            ("two".to_string(), SrcSpan::new(40, 43)),
            ("four".to_string(), SrcSpan::new(104, 108)),
        ],
        module.dependencies(Target::Erlang)
    );
}

#[test]
fn dependencies_for_javascript_skip_erlang_only_groups() {
    let module = sample_module();
    assert_eq!(
        vec![
            ("one".to_string(), SrcSpan::new(7, 10)),
            ("three".to_string(), SrcSpan::new(76, 81)),
            ("four".to_string(), SrcSpan::new(104, 108)),
        ],
        module.dependencies(Target::JavaScript)
    );
}

#[test]
fn dependencies_are_the_imports_of_the_filtered_statements() {
    let module = sample_module();
    for target in [Target::Erlang, Target::JavaScript] {
        let by_hand: Vec<(String, SrcSpan)> = module
            .iter_statements(target)
            .into_iter()
            .filter_map(|s| match s {
                ModuleStatement::Import(i) => Some((i.module.clone(), i.location)),
                _ => None,
            })
            .collect();
        assert_eq!(by_hand, module.dependencies(target));
        assert_eq!(module.dependencies(target), module.dependencies(target));
    }
}

#[test]
fn into_iter_statements_keeps_source_order() {
    let module = sample_module();
    let statements = module.into_iter_statements(Target::JavaScript);
    let locations: Vec<SrcSpan> = statements.iter().map(|s| s.location()).collect();
    assert_eq!(
        vec![SrcSpan::new(7, 10), SrcSpan::new(76, 81), SrcSpan::new(104, 108)],
        locations
    );
}

#[test]
fn target_group_membership_and_size() {
    let any = TargetGroup::Any(vec![import("a", SrcSpan::new(0, 1))]);
    let only = TargetGroup::Only(Target::Erlang, vec![]);
    assert!(any.is_for(Target::Erlang));
    assert!(any.is_for(Target::JavaScript));
    assert!(only.is_for(Target::Erlang));
    assert!(!only.is_for(Target::JavaScript));
    assert_eq!(1, any.len());
    assert!(!any.is_empty());
    assert!(only.is_empty());
    assert_eq!(1, any.statements().len());
}

#[test]
fn bucketing_keeps_every_statement_in_order() {
    let statements = vec![
        import("a", SrcSpan::new(0, 1)),
        untyped_function("f", SrcSpan::new(2, 3)),
        external_type("T", SrcSpan::new(4, 5)),
        import("b", SrcSpan::new(6, 7)),
        untyped_function("g", SrcSpan::new(8, 9)),
    ];
    let grouped = GroupedStatements::new(statements);
    assert_eq!(5, grouped.len());
    assert!(!grouped.is_empty());
    let imports: Vec<&str> = grouped.imports.iter().map(|i| i.module.as_str()).collect();
    assert_eq!(vec!["a", "b"], imports);
    let functions: Vec<&str> = grouped.functions.iter().map(|f| f.name.as_str()).collect();
    assert_eq!(vec!["f", "g"], functions);
    assert_eq!(1, grouped.external_types.len());
    assert!(grouped.constants.is_empty());
    assert!(GroupedStatements::new(vec![]).is_empty());
}

#[test]
fn span_contains_is_half_open() {
    let span = SrcSpan::new(3, 6);
    assert!(!span.contains(2));
    assert!(span.contains(3));
    assert!(span.contains(5));
    assert!(!span.contains(6));
    assert!(!SrcSpan::new(4, 4).contains(4));
    assert_eq!(SrcSpan::new(0, 0), SrcSpan::default());
}

#[test]
fn operator_precedence_table() {
    assert_eq!(1, BinOp::Or.precedence());
    assert_eq!(2, BinOp::And.precedence());
    assert_eq!(3, BinOp::Eq.precedence());
    assert_eq!(3, BinOp::NotEq.precedence());
    assert_eq!(4, BinOp::LtEqFloat.precedence());
    assert_eq!(4, BinOp::GtInt.precedence());
    assert_eq!(5, BinOp::Concatenate.precedence());
    assert_eq!(7, BinOp::AddInt.precedence());
    assert_eq!(7, BinOp::SubFloat.precedence());
    assert_eq!(8, BinOp::MultInt.precedence());
    assert_eq!(8, BinOp::RemainderInt.precedence());
}

#[test]
fn operator_tokens_are_distinct() {
    let all = [
        BinOp::And,
        BinOp::Or,
        BinOp::Eq,
        BinOp::NotEq,
        BinOp::LtInt,
        BinOp::LtEqInt,
        BinOp::LtFloat,
        BinOp::LtEqFloat,
        BinOp::GtEqInt,
        BinOp::GtInt,
        BinOp::GtEqFloat,
        BinOp::GtFloat,
        BinOp::AddInt,
        BinOp::AddFloat,
        BinOp::SubInt,
        BinOp::SubFloat,
        BinOp::MultInt,
        BinOp::MultFloat,
        BinOp::DivInt,
        BinOp::DivFloat,
        BinOp::RemainderInt,
        BinOp::Concatenate,
    ];
    for a in all {
        for b in all {
            assert_eq!(a == b, a.name() == b.name());
            let (pa, pb) = (a.precedence(), b.precedence());
            assert!(pa <= pb || pb <= pa);
            assert_ne!(6, pa);
        }
    }
    assert_eq!("+", BinOp::AddInt.name());
    assert_eq!("+.", BinOp::AddFloat.name());
    assert_eq!("==", BinOp::Eq.name());
    assert_eq!("<>", BinOp::Concatenate.name());
}

fn int_guard(start: u32) -> TypedClauseGuard {
    ClauseGuard::Constant(Constant::Int {
        location: SrcSpan::new(start, start + 1),
        value: "1".to_string(),
    })
}

#[test]
fn guard_precedence_follows_operators() {
    let eq = ClauseGuard::Equals {
        location: SrcSpan::new(0, 6),
        left: Box::new(int_guard(0)),
        right: Box::new(int_guard(5)),
    };
    assert_eq!(BinOp::Eq.precedence(), eq.precedence());
    assert_eq!(SrcSpan::new(0, 6), eq.location());
    let or = ClauseGuard::Or {
        location: SrcSpan::new(0, 6),
        left: Box::new(int_guard(0)),
        right: Box::new(int_guard(5)),
    };
    assert_eq!(1, or.precedence());
    assert_eq!(5, int_guard(0).precedence());
    assert_eq!(SrcSpan::new(5, 6), int_guard(5).location());
    assert!(matches!(&*eq.type_(), Type::App { name, .. } if name == "Bool"));
    assert!(matches!(&*int_guard(0).type_(), Type::App { name, .. } if name == "Int"));
}

#[test]
fn bit_segment_options_read_back() {
    let size_value = Pattern::Int { location: SrcSpan::new(9, 10), value: "8".to_string() };
    let options: Vec<BitStringSegmentOption<Pattern<()>>> = vec![
        BitStringSegmentOption::Big { location: SrcSpan::new(1, 4) },
        BitStringSegmentOption::Size {
            location: SrcSpan::new(5, 11),
            value: Box::new(size_value),
            short_form: false,
        },
        BitStringSegmentOption::Unit { location: SrcSpan::new(12, 19), value: 8 },
        BitStringSegmentOption::Utf8Codepoint { location: SrcSpan::new(20, 34) },
    ];
    let segment = BitStringSegment::new(
        SrcSpan::new(0, 35),
        Pattern::Var { location: SrcSpan::new(0, 1), name: "x".to_string(), type_: () },
        options,
        (),
    );
    assert_eq!(vec!["big", "size", "unit", "utf8_codepoint"], segment.option_labels());
    assert!(segment.options[0].value().is_none());
    assert_eq!(
        Some(&Pattern::Int { location: SrcSpan::new(9, 10), value: "8".to_string() }),
        segment.options[1].value()
    );
    assert!(segment.options[2].value().is_none());
    assert_eq!(SrcSpan::new(12, 19), segment.options[2].location());
    assert_eq!("bit_string", BitStringSegmentOption::<()>::BitString { location: SrcSpan::new(0, 1) }.label());
    assert_eq!("native", BitStringSegmentOption::<()>::Native { location: SrcSpan::new(0, 1) }.label());
}

#[test]
fn import_variable_name_is_alias_or_last_segment() {
    let mut i = Import {
        documentation: None,
        location: SrcSpan::new(0, 10),
        module: "animal/cat".to_string(),
        as_name: None,
        unqualified: vec![],
        package: (),
    };
    assert_eq!("cat", i.variable_name());
    i.module = "cat".to_string();
    assert_eq!("cat", i.variable_name());
    i.as_name = Some("kitty".to_string());
    assert_eq!("kitty", i.variable_name());
}

#[test]
fn unqualified_import_names_and_layers() {
    let u = UnqualifiedImport {
        location: SrcSpan::new(0, 3),
        name: "map".to_string(),
        as_name: None,
        layer: Layer::Value,
    };
    assert_eq!("map", u.variable_name());
    assert!(u.is_value());
    let t = UnqualifiedImport {
        location: SrcSpan::new(0, 3),
        name: "Map".to_string(),
        as_name: Some("Dict".to_string()),
        layer: Layer::Type,
    };
    assert_eq!("Dict", t.variable_name());
    assert!(!t.is_value());
    assert_eq!(Layer::Value, Layer::default());
    assert!(AssignmentKind::Let.performs_exhaustiveness_check());
    assert!(!AssignmentKind::Assert.performs_exhaustiveness_check());
}

#[test]
fn documentation_is_attached_to_all_but_imports() {
    let mut f = untyped_function("f", SrcSpan::new(0, 5));
    f.put_doc("Adds one.".to_string());
    match &f {
        ModuleStatement::Function(f) => assert_eq!(Some("Adds one.".to_string()), f.documentation),
        _ => unreachable!(),
    }
    let mut i = import("a", SrcSpan::new(0, 5));
    i.put_doc("ignored".to_string());
    assert_eq!(import("a", SrcSpan::new(0, 5)), i);
    assert_eq!(SrcSpan::new(0, 5), i.location());
}

#[test]
fn type_annotations_compare_without_locations() {
    let a = TypeAst::Constructor {
        location: SrcSpan::new(0, 9),
        module: None,
        name: "List".to_string(),
        arguments: vec![TypeAst::Var { location: SrcSpan::new(5, 6), name: "a".to_string() }],
    };
    let b = TypeAst::Constructor {
        location: SrcSpan::new(20, 29),
        module: None,
        name: "List".to_string(),
        arguments: vec![TypeAst::Var { location: SrcSpan::new(25, 26), name: "a".to_string() }],
    };
    let c = TypeAst::Constructor {
        location: SrcSpan::new(0, 9),
        module: Some("list".to_string()),
        name: "List".to_string(),
        arguments: vec![TypeAst::Var { location: SrcSpan::new(5, 6), name: "a".to_string() }],
    };
    let d = TypeAst::Tuple {
        location: SrcSpan::new(0, 9),
        elems: vec![TypeAst::Var { location: SrcSpan::new(5, 6), name: "b".to_string() }],
    };
    assert!(a.is_logically_equal(&b));
    assert!(!a.is_logically_equal(&c));
    assert!(!a.is_logically_equal(&d));
    assert!(d.is_logically_equal(&d));
    assert_eq!(SrcSpan::new(20, 29), b.location());
}

fn typed_int_pattern(start: u32, end: u32) -> TypedPattern {
    Pattern::Int { location: SrcSpan::new(start, end), value: "1".to_string() }
}

fn tuple_pattern() -> TypedPattern {
    Pattern::Tuple {
        location: SrcSpan::new(0, 10),
        elems: vec![typed_int_pattern(1, 3), typed_int_pattern(5, 7)],
    }
}

#[test]
fn pattern_lookup_finds_the_innermost_node() {
    let p = tuple_pattern();
    match p.find_node(5) {
        Some(Located::Pattern(found)) => assert_eq!(SrcSpan::new(5, 7), found.location()),
        _ => panic!("expected the second element"),
    }
    match p.find_node(4) {
        Some(Located::Pattern(found)) => assert_eq!(SrcSpan::new(0, 10), found.location()),
        _ => panic!("expected the tuple itself"),
    }
    assert!(p.find_node(10).is_none());
    let arg = CallArg { label: None, location: SrcSpan::new(0, 10), value: tuple_pattern(), implicit: false };
    assert!(arg.find_node(11).is_none());
}

#[test]
fn pattern_types_and_locations() {
    let p = tuple_pattern();
    match &*p.type_() {
        Type::Tuple { elems } => {
            assert_eq!(2, elems.len());
            assert_eq!(int_type(), elems[0]);
        }
        _ => panic!("expected a tuple type"),
    }
    let assign = Pattern::Assign {
        name: "x".to_string(),
        location: SrcSpan::new(0, 15),
        pattern: Box::new(typed_int_pattern(1, 3)),
    };
    assert_eq!(SrcSpan::new(1, 3), assign.location());
    assert_eq!(int_type(), assign.type_());
    assert!(!assign.is_discard());
    assert!(assign.definition_location().is_none());
    assert!(assign.get_documentation().is_none());
}

fn typed_int(start: u32, end: u32) -> TypedExpr {
    Expr::Int { location: SrcSpan::new(start, end), value: "1".to_string(), type_: int_type() }
}

#[test]
fn expression_lookup_descends_into_operands() {
    let e = Expr::BinOp {
        location: SrcSpan::new(0, 5),
        name: BinOp::AddInt,
        left: Box::new(typed_int(0, 1)),
        right: Box::new(typed_int(4, 5)),
        type_: int_type(),
    };
    match e.find_node(4) {
        Some(Located::Expression(found)) => assert_eq!(SrcSpan::new(4, 5), found.location()),
        _ => panic!("expected the right operand"),
    }
    match e.find_node(2) {
        Some(Located::Expression(found)) => assert_eq!(SrcSpan::new(0, 5), found.location()),
        _ => panic!("expected the whole expression"),
    }
    assert!(e.find_node(5).is_none());
}

#[test]
fn module_lookup_searches_function_bodies() {
    let assignment: TypedStatement = Statement::Assignment(Assignment {
        location: SrcSpan::new(20, 30),
        value: Box::new(typed_int(28, 30)),
        pattern: Pattern::Var { location: SrcSpan::new(24, 25), name: "x".to_string(), type_: int_type() },
        kind: AssignmentKind::Let,
        annotation: None,
    });
    let function: TypedModuleStatement = ModuleStatement::Function(Function {
        location: SrcSpan::new(0, 10),
        end_position: 31,
        name: "main".to_string(),
        arguments: vec![],
        body: Vec1::new(assignment),
        public: true,
        return_annotation: None,
        return_type: int_type(),
        documentation: None,
    });
    let module: TypedModule = Module {
        name: "m".to_string(),
        documentation: vec![],
        type_info: compiler_core::module::ModuleInterface { name: "m".to_string(), package: "p".to_string() },
        statements: vec![function],
    };
    assert!(matches!(module.find_node(24), Some(Located::Pattern(_))));
    assert!(matches!(module.find_node(29), Some(Located::Expression(_))));
    assert!(matches!(module.find_node(21), Some(Located::Statement(_))));
    assert!(matches!(module.find_node(3), Some(Located::ModuleStatement(_))));
    assert!(module.find_node(15).is_none());
    assert!(module.find_node(40).is_none());
}

#[test]
fn clause_location_runs_from_first_pattern_to_result() {
    let clause = Clause {
        location: SrcSpan::new(0, 0),
        pattern: vec![typed_int_pattern(3, 4)],
        alternative_patterns: vec![],
        guard: None,
        result: typed_int(8, 12),
    };
    assert_eq!(SrcSpan::new(3, 12), clause.location());
    assert!(matches!(clause.find_node(3), Some(Located::Pattern(_))));
    assert!(matches!(clause.find_node(9), Some(Located::Expression(_))));
    assert!(clause.find_node(6).is_none());
}

#[test]
fn assign_names_convert_to_argument_names() {
    let v = AssignName::Variable("rest".to_string());
    assert_eq!("rest", v.name());
    assert_eq!(Some("rest"), v.assigned_name());
    let d = AssignName::Discard("_rest".to_string());
    assert_eq!(None, d.assigned_name());
    assert_eq!("_rest", d.name());
    let names = AssignName::Variable("x".to_string()).to_arg_names();
    assert_eq!(Some(&"x".to_string()), names.get_variable_name());
    assert_eq!(None, names.get_label());
    assert!(matches!(Inferred::<()>::default(), Inferred::Unknown));
}

fn untyped_tuple() -> Pattern<()> {
    Pattern::Tuple {
        location: SrcSpan::new(0, 20),
        elems: vec![
            Pattern::Var { location: SrcSpan::new(1, 2), name: "a".to_string(), type_: () },
            Pattern::Assign {
                name: "b".to_string(),
                location: SrcSpan::new(4, 12),
                pattern: Box::new(Pattern::Discard {
                    name: "_".to_string(),
                    location: SrcSpan::new(4, 5),
                    type_: (),
                }),
            },
            Pattern::List {
                location: SrcSpan::new(13, 19),
                elements: vec![Pattern::Int { location: SrcSpan::new(14, 15), value: "1".to_string() }],
                tail: None,
                type_: (),
            },
        ],
    }
}

#[test]
fn resolving_a_pattern_keeps_every_span() {
    let typed: TypedPattern = untyped_tuple().map_types(&|_: ()| int_type());
    let expected = Pattern::Tuple {
        location: SrcSpan::new(0, 20),
        elems: vec![
            Pattern::Var { location: SrcSpan::new(1, 2), name: "a".to_string(), type_: int_type() },
            Pattern::Assign {
                name: "b".to_string(),
                location: SrcSpan::new(4, 12),
                pattern: Box::new(Pattern::Discard {
                    name: "_".to_string(),
                    location: SrcSpan::new(4, 5),
                    type_: int_type(),
                }),
            },
            Pattern::List {
                location: SrcSpan::new(13, 19),
                elements: vec![Pattern::Int { location: SrcSpan::new(14, 15), value: "1".to_string() }],
                tail: None,
                type_: int_type(),
            },
        ],
    };
    assert_eq!(expected, typed);
    match typed.find_node(14) {
        Some(Located::Pattern(found)) => assert_eq!(SrcSpan::new(14, 15), found.location()),
        _ => panic!("expected the list element"),
    }
    assert!(typed.find_node(25).is_none());
}

#[test]
fn resolving_bit_string_patterns_keeps_options() {
    let segment = BitStringSegment::new(
        SrcSpan::new(2, 12),
        Pattern::Var { location: SrcSpan::new(2, 3), name: "x".to_string(), type_: () },
        vec![BitStringSegmentOption::Size {
            location: SrcSpan::new(4, 11),
            value: Box::new(Pattern::VarUsage { location: SrcSpan::new(9, 10), name: "n".to_string(), type_: () }),
            short_form: false,
        }],
        (),
    );
    let p: Pattern<()> = Pattern::BitString { location: SrcSpan::new(0, 14), segments: vec![segment] };
    let typed: TypedPattern = p.map_types(&|_: ()| int_type());
    match typed {
        Pattern::BitString { location, segments } => {
            assert_eq!(SrcSpan::new(0, 14), location);
            assert_eq!(SrcSpan::new(2, 12), segments[0].location);
            assert_eq!(int_type(), segments[0].type_);
            assert_eq!(vec!["size"], segments[0].option_labels());
            match segments[0].options[0].value() {
                Some(Pattern::VarUsage { location, type_, .. }) => {
                    assert_eq!(SrcSpan::new(9, 10), *location);
                    assert_eq!(int_type(), *type_);
                }
                _ => panic!("expected the size value"),
            }
        }
        _ => panic!("expected a bit string"),
    }
}

#[test]
fn statements_report_types_and_locations() {
    let expression: TypedStatement = Statement::Expression(typed_int(3, 5));
    assert!(expression.is_expression());
    assert!(expression.is_non_pipe_expression());
    assert_eq!(SrcSpan::new(3, 5), expression.location());
    assert_eq!(3, expression.start_byte_index());
    assert_eq!(int_type(), expression.type_());
    assert_eq!(SrcSpan::new(3, 5), expression.type_defining_location());
    assert!(expression.definition_location().is_none());
    let pipeline: TypedStatement = Statement::Expression(Expr::Pipeline {
        location: SrcSpan::new(0, 12),
        first: Box::new(typed_int(0, 1)),
        finally: Box::new(typed_int(5, 12)),
    });
    assert!(!pipeline.is_non_pipe_expression());
    assert_eq!(SrcSpan::new(5, 12), pipeline.type_defining_location());
    let block: TypedStatement = Statement::Expression(Expr::Block {
        location: SrcSpan::new(0, 30),
        statements: vec![Statement::Expression(typed_int(2, 4)), Statement::Expression(typed_int(20, 28))],
        type_: int_type(),
    });
    assert_eq!(SrcSpan::new(20, 28), block.type_defining_location());
}

#[test]
fn variables_point_at_their_definition() {
    let var: TypedExpr = Expr::Var {
        location: SrcSpan::new(10, 13),
        name: "add".to_string(),
        constructor: Inferred::Known(compiler_core::pattern::PatternConstructor {
            name: "add".to_string(),
            module: Some("math".to_string()),
            location: SrcSpan::new(100, 120),
            documentation: Some("Adds.".to_string()),
        }),
        type_: int_type(),
    };
    let d = var.definition_location().expect("known definition");
    assert_eq!(Some("math"), d.module);
    assert_eq!(SrcSpan::new(100, 120), d.span);
}

#[test]
fn capture_holes_are_recognised() {
    let hole = CallArg {
        label: None,
        location: SrcSpan::new(2, 3),
        value: Expr::Var {
            location: SrcSpan::new(2, 3),
            name: "_capture".to_string(),
            constructor: Inferred::Unknown,
            type_: (),
        },
        implicit: false,
    };
    assert!(hole.is_capture_hole());
    let other = CallArg {
        label: None,
        location: SrcSpan::new(2, 3),
        value: Expr::Var { location: SrcSpan::new(2, 3), name: "x".to_string(), constructor: Inferred::Unknown, type_: () },
        implicit: false,
    };
    assert!(!other.is_capture_hole());
}

#[test]
fn constructor_patterns_expose_their_definition() {
    let p: TypedPattern = Pattern::Constructor {
        location: SrcSpan::new(0, 8),
        name: "Cat".to_string(),
        arguments: vec![CallArg { label: None, location: SrcSpan::new(4, 7), value: typed_int_pattern(4, 7), implicit: false }],
        module: None,
        constructor: Inferred::Known(compiler_core::pattern::PatternConstructor {
            name: "Cat".to_string(),
            module: None,
            location: SrcSpan::new(50, 60),
            documentation: Some("A cat.".to_string()),
        }),
        with_spread: false,
        type_: int_type(),
    };
    let d = p.definition_location().expect("known constructor");
    assert_eq!(None, d.module);
    assert_eq!(SrcSpan::new(50, 60), d.span);
    assert_eq!(Some("A cat."), p.get_documentation());
    match p.find_node(5) {
        Some(Located::Pattern(found)) => assert_eq!(SrcSpan::new(4, 7), found.location()),
        _ => panic!("expected the argument"),
    }
    match p.find_node(1) {
        Some(Located::Pattern(found)) => assert_eq!(SrcSpan::new(0, 8), found.location()),
        _ => panic!("expected the constructor"),
    }
}

#[test]
fn clause_lookup_searches_alternative_patterns() {
    let clause = Clause {
        location: SrcSpan::new(0, 0),
        pattern: vec![typed_int_pattern(3, 4)],
        alternative_patterns: vec![vec![typed_int_pattern(7, 8)], vec![typed_int_pattern(10, 12)]],
        guard: None,
        result: typed_int(16, 20),
    };
    match clause.find_node(11) {
        Some(Located::Pattern(found)) => assert_eq!(SrcSpan::new(10, 12), found.location()),
        _ => panic!("expected the pattern of the second alternative"),
    }
    match clause.find_node(7) {
        Some(Located::Pattern(found)) => assert_eq!(SrcSpan::new(7, 8), found.location()),
        _ => panic!("expected the pattern of the first alternative"),
    }
    assert!(matches!(clause.find_node(17), Some(Located::Expression(_))));
    assert!(clause.find_node(14).is_none());
}

#[test]
fn default_grouped_statements_are_empty() {
    let grouped = GroupedStatements::default();
    assert!(grouped.is_empty());
    assert_eq!(0, grouped.len());
    let t = int_type();
    assert_eq!(*t, (*t).clone());
}

#[test]
fn resolving_a_constructor_pattern_keeps_its_fields() {
    let p: Pattern<()> = Pattern::Constructor {
        location: SrcSpan::new(0, 8),
        name: "Cat".to_string(),
        arguments: vec![CallArg {
            label: Some("age".to_string()),
            location: SrcSpan::new(4, 7),
            value: Pattern::Discard { name: "_".to_string(), location: SrcSpan::new(4, 5), type_: () },
            implicit: false,
        }],
        module: Some("pets".to_string()),
        constructor: Inferred::Unknown,
        with_spread: true,
        type_: (),
    };
    let typed: TypedPattern = p.map_types(&|_: ()| int_type());
    match typed {
        Pattern::Constructor { location, name, arguments, module, with_spread, type_, .. } => {
            assert_eq!(SrcSpan::new(0, 8), location);
            assert_eq!("Cat", name);
            assert_eq!(Some("pets".to_string()), module);
            assert!(with_spread);
            assert_eq!(int_type(), type_);
            assert_eq!(Some("age".to_string()), arguments[0].label);
            assert_eq!(
                Pattern::Discard { name: "_".to_string(), location: SrcSpan::new(4, 5), type_: int_type() },
                arguments[0].value
            );
        }
        _ => panic!("expected a constructor"),
    }
}
