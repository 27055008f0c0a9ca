use std::collections::HashMap;
use toycc::analyzed_expression::{
    AnalyzedBinaryOp, AnalyzedConstant, AnalyzedExpression, AnalyzedExpressionKind,
    AnalyzedFunctionCallType, AnalyzedLiteral, AssignableExpressionKind,
};
use toycc::analyzed_type::{
    check_matches_try_find_generic_args, resolve_generic_type, AnalyzedTypeId, GenericParam,
    GenericParams, StructRef,
};
use toycc::analyzer_context::{AnalyzerContext, LocalVariables};
use toycc::analyzer_error::{AnalyzerError, AnalyzerErrorKind};
use toycc::expression_analyzer::analyze_expression;
use toycc::location::{FileId, Location, SourceFile};
use toycc::parsed_expression::{
    BinaryComparisonOp, BinaryMathOp, BinaryOp, ItemId, Located, ModuleId, ParsedExpression,
    ParsedExpressionKind, ParsedGenericId, ParsedLiteral, ParsedType, ParsedTypeValue, ScopeId,
};
use toycc::resolved_functions::{ResolvedFunctionHeader, ResolvedFunctions};
use toycc::resolved_types::{ResolvedTypes, StructDefinition};
use toycc::wf_check::is_well_formed;

const TUPLE: u64 = 0;
const POINT: u64 = 1;

fn at(line: usize) -> Location {
    Location { file: Some(SourceFile { id: FileId(1) }), line, column: 1 }
}

fn e(kind: ParsedExpressionKind) -> ParsedExpression {
    Located { value: kind, location: at(1) }
}

fn e_at(line: usize, kind: ParsedExpressionKind) -> ParsedExpression {
    Located { value: kind, location: at(line) }
}

fn integer(v: i64) -> ParsedExpression {
    e(ParsedExpressionKind::Literal(ParsedLiteral::Integer(v)))
}

fn boolean(b: bool) -> ParsedExpression {
    e(ParsedExpressionKind::Literal(ParsedLiteral::Bool(b)))
}

fn name(n: &str) -> ParsedGenericId {
    ParsedGenericId {
        id: ScopeId {
            is_module_local: true,
            item_id: ItemId { module_id: ModuleId { path: vec![] }, item_name: n.to_string() },
        },
        generic_args: vec![],
    }
}

fn var(n: &str) -> ParsedExpression {
    e(ParsedExpressionKind::Variable(name(n)))
}

fn declare(n: &str, value: ParsedExpression) -> ParsedExpression {
    e(ParsedExpressionKind::Declaration {
        var_type: None,
        var_name: n.to_string(),
        value: Box::new(value),
    })
}

fn block(expressions: Vec<ParsedExpression>, returns_value: bool) -> ParsedExpression {
    e(ParsedExpressionKind::Block { expressions, returns_value })
}

fn binary(op: BinaryOp, left: ParsedExpression, right: ParsedExpression) -> ParsedExpression {
    e(ParsedExpressionKind::Binary { op, left: Box::new(left), right: Box::new(right) })
}

fn ty(value: ParsedTypeValue) -> ParsedType {
    Located { value, location: at(1) }
}

fn point_struct() -> StructDefinition {
    StructDefinition {
        id: POINT,
        name: "Point".to_string(),
        generic_params: GenericParams { params: vec![] },
        fields: vec![
            ("x".to_string(), AnalyzedTypeId::Integer(4)),
            ("y".to_string(), AnalyzedTypeId::Integer(4)),
        ],
    }
}

fn tuple_struct() -> StructDefinition {
    StructDefinition {
        id: TUPLE,
        name: "Tuple".to_string(),
        generic_params: GenericParams { params: vec![] },
        fields: vec![],
    }
}

fn add_header() -> ResolvedFunctionHeader {
    ResolvedFunctionHeader {
        id: 7,
        name: "add".to_string(),
        generic_params: GenericParams { params: vec![] },
        parameter_types: vec![
            ("a".to_string(), AnalyzedTypeId::Integer(4)),
            ("b".to_string(), AnalyzedTypeId::Integer(4)),
        ],
        return_type: AnalyzedTypeId::Integer(8),
    }
}

fn context() -> AnalyzerContext {
    AnalyzerContext {
        types: ResolvedTypes {
            structs: vec![tuple_struct(), point_struct()],
            enums: vec![],
            tuple_struct: TUPLE,
        },
        functions: ResolvedFunctions { headers: vec![add_header()] },
        local_variables: LocalVariables::new(),
        generic_params: GenericParams { params: vec![] },
        return_type: AnalyzedTypeId::Integer(4),
    }
}

fn analyze(expression: ParsedExpression) -> Result<AnalyzedExpression, AnalyzerError> {
    let mut ctx = context();
    analyze_expression(&mut ctx, &expression)
}

fn error_kind(r: Result<AnalyzedExpression, AnalyzerError>) -> AnalyzerErrorKind {
    match r {
        Ok(x) => panic!("expected an error, got {:?}", x),
        Err(err) => err.kind,
    }
}

#[test]
fn small_integer_literal_is_four_bytes() {
    let r = analyze(integer(5)).unwrap();
    assert!(matches!(r.ty, AnalyzedTypeId::Integer(4)));
    assert!(matches!(r.kind, AnalyzedExpressionKind::Literal(AnalyzedLiteral::Integer(5))));
}

#[test]
fn large_integer_literal_is_eight_bytes() {
    let r = analyze(integer(5_000_000_000)).unwrap();
    assert!(matches!(r.ty, AnalyzedTypeId::Integer(8)));
    let r = analyze(integer(-2_147_483_648)).unwrap();
    assert!(matches!(r.ty, AnalyzedTypeId::Integer(4)));
    let r = analyze(integer(-2_147_483_649)).unwrap();
    assert!(matches!(r.ty, AnalyzedTypeId::Integer(8)));
}

#[test]
fn other_literals() {
    assert!(matches!(analyze(boolean(true)).unwrap().ty, AnalyzedTypeId::Bool));
    let unit = analyze(e(ParsedExpressionKind::Literal(ParsedLiteral::Unit))).unwrap();
    assert!(matches!(unit.ty, AnalyzedTypeId::Unit));
    let c = analyze(e(ParsedExpressionKind::Literal(ParsedLiteral::Char(65)))).unwrap();
    assert!(matches!(c.ty, AnalyzedTypeId::Char));
    assert!(matches!(c.kind, AnalyzedExpressionKind::Literal(AnalyzedLiteral::Char(65))));
}

#[test]
fn string_literal_is_a_zero_terminated_char_pointer() {
    let r = analyze(e(ParsedExpressionKind::Literal(ParsedLiteral::String("hé".to_string()))))
        .unwrap();
    match r.ty {
        AnalyzedTypeId::Pointer(inner) => assert!(matches!(*inner, AnalyzedTypeId::Char)),
        other => panic!("unexpected type {:?}", other),
    }
    match r.kind {
        AnalyzedExpressionKind::ConstantPointer(AnalyzedConstant::String(bytes)) => {
            assert_eq!(bytes, vec![b'h', 0xc3, 0xa9, 0])
        },
        other => panic!("unexpected kind {:?}", other),
    }
}

#[test]
fn continue_outside_loop_is_an_error() {
    let r = analyze(e_at(3, ParsedExpressionKind::Continue));
    let err = r.unwrap_err();
    assert_eq!(err.kind, AnalyzerErrorKind::ContinueOutsideLoop);
    assert_eq!(err.location.line, 3);
    assert!(err.cause.is_none());
}

#[test]
fn break_outside_loop_is_an_error() {
    let r = analyze(e(ParsedExpressionKind::Break(Some(Box::new(integer(1))))));
    assert_eq!(error_kind(r), AnalyzerErrorKind::BreakOutsideLoop);
}

#[test]
fn break_and_continue_inside_loop() {
    let body = block(
        vec![
            e(ParsedExpressionKind::Break(Some(Box::new(integer(4))))),
            e(ParsedExpressionKind::Continue),
        ],
        false,
    );
    let r = analyze(e(ParsedExpressionKind::Loop {
        init: None,
        condition: None,
        step: None,
        loop_body: Box::new(body),
        else_expr: None,
    }))
    .unwrap();
    assert!(matches!(r.ty, AnalyzedTypeId::Integer(4)));
}

#[test]
fn conditional_loop_without_else_is_unit() {
    let r = analyze(e(ParsedExpressionKind::Loop {
        init: None,
        condition: Some(Box::new(boolean(true))),
        step: None,
        loop_body: Box::new(block(vec![], false)),
        else_expr: None,
    }))
    .unwrap();
    assert!(matches!(r.ty, AnalyzedTypeId::Unit));
}

#[test]
fn loop_condition_must_be_bool() {
    let r = analyze(e(ParsedExpressionKind::Loop {
        init: None,
        condition: Some(Box::new(integer(1))),
        step: None,
        loop_body: Box::new(block(vec![], false)),
        else_expr: None,
    }));
    assert_eq!(error_kind(r), AnalyzerErrorKind::LoopConditionNotBool);
}

#[test]
fn return_type_must_match_function() {
    let ok = analyze(e(ParsedExpressionKind::Return(Some(Box::new(integer(1)))))).unwrap();
    assert!(matches!(ok.ty, AnalyzedTypeId::Unit));
    let r = analyze(e(ParsedExpressionKind::Return(Some(Box::new(boolean(false))))));
    assert_eq!(error_kind(r), AnalyzerErrorKind::ReturnTypeMismatch);
}

#[test]
fn block_value_is_its_last_expression() {
    let r = analyze(block(vec![declare("x", integer(5)), var("x")], true)).unwrap();
    assert!(matches!(r.ty, AnalyzedTypeId::Integer(4)));
    let r = analyze(block(vec![declare("x", integer(5)), var("x")], false)).unwrap();
    assert!(matches!(r.ty, AnalyzedTypeId::Unit));
}

#[test]
fn block_variables_are_gone_after_the_block() {
    let mut ctx = context();
    let r = analyze_expression(&mut ctx, &block(vec![declare("x", boolean(true))], false));
    assert!(r.is_ok());
    assert!(ctx.local_variables.get(&"x".to_string()).is_none());
}

#[test]
fn declaration_adds_a_local_variable() {
    let mut ctx = context();
    let r = analyze_expression(&mut ctx, &declare("flag", boolean(true))).unwrap();
    assert!(matches!(r.ty, AnalyzedTypeId::Unit));
    let v = ctx.local_variables.get(&"flag".to_string()).unwrap();
    assert!(matches!(v.ty, AnalyzedTypeId::Bool));
    let read = analyze_expression(&mut ctx, &var("flag")).unwrap();
    assert!(matches!(read.ty, AnalyzedTypeId::Bool));
    match read.kind {
        AnalyzedExpressionKind::ValueOfAssignable(a) => {
            assert!(matches!(a.kind, AssignableExpressionKind::LocalVariable(ref n) if n == "flag"))
        },
        other => panic!("unexpected kind {:?}", other),
    }
}

#[test]
fn declaring_twice_in_one_scope_is_an_error() {
    let r = analyze(block(vec![declare("x", integer(1)), declare("x", integer(2))], false));
    assert_eq!(error_kind(r), AnalyzerErrorKind::VariableAlreadyDeclared);
}

#[test]
fn declared_type_must_match_value() {
    let d = e(ParsedExpressionKind::Declaration {
        var_type: Some(ty(ParsedTypeValue::Bool)),
        var_name: "x".to_string(),
        value: Box::new(integer(1)),
    });
    assert_eq!(error_kind(analyze(d)), AnalyzerErrorKind::DeclarationTypeMismatch);
    let d = e(ParsedExpressionKind::Declaration {
        var_type: Some(ty(ParsedTypeValue::Named { name: "Nope".to_string(), generic_args: vec![] })),
        var_name: "x".to_string(),
        value: Box::new(integer(1)),
    });
    assert_eq!(error_kind(analyze(d)), AnalyzerErrorKind::DeclarationTypeNotFound);
}

#[test]
fn unknown_name_is_an_error() {
    assert_eq!(error_kind(analyze(var("nowhere"))), AnalyzerErrorKind::VariableOrFunctionNotFound);
}

#[test]
fn if_checks_condition_and_branches() {
    let good = e(ParsedExpressionKind::If {
        condition: Box::new(boolean(true)),
        then_block: Box::new(integer(1)),
        else_expr: Some(Box::new(integer(2))),
    });
    assert!(matches!(analyze(good).unwrap().ty, AnalyzedTypeId::Integer(4)));
    let bad_condition = e(ParsedExpressionKind::If {
        condition: Box::new(integer(1)),
        then_block: Box::new(integer(1)),
        else_expr: Some(Box::new(integer(2))),
    });
    assert_eq!(error_kind(analyze(bad_condition)), AnalyzerErrorKind::IfConditionNotBool);
    let mismatch = e(ParsedExpressionKind::If {
        condition: Box::new(boolean(true)),
        then_block: Box::new(integer(1)),
        else_expr: Some(Box::new(boolean(false))),
    });
    assert_eq!(error_kind(analyze(mismatch)), AnalyzerErrorKind::IfBranchTypeMismatch);
    let no_else = e(ParsedExpressionKind::If {
        condition: Box::new(boolean(true)),
        then_block: Box::new(integer(1)),
        else_expr: None,
    });
    assert_eq!(error_kind(analyze(no_else)), AnalyzerErrorKind::IfWithoutElseNotUnit);
}

#[test]
fn arithmetic_keeps_the_operand_type() {
    let r = analyze(binary(BinaryOp::Math(BinaryMathOp::Add), integer(1), integer(2))).unwrap();
    assert!(matches!(r.ty, AnalyzedTypeId::Integer(4)));
    assert!(matches!(
        r.kind,
        AnalyzedExpressionKind::Binary { op: AnalyzedBinaryOp::Math(BinaryMathOp::Add), .. }
    ));
    let r = analyze(binary(BinaryOp::Math(BinaryMathOp::Add), integer(1), integer(5_000_000_000)));
    assert_eq!(error_kind(r), AnalyzerErrorKind::MathOperandMismatch);
    let r = analyze(binary(BinaryOp::Math(BinaryMathOp::Mul), boolean(true), integer(1)));
    assert_eq!(error_kind(r), AnalyzerErrorKind::MathLeftNotInteger);
}

#[test]
fn comparison_is_bool() {
    let r = analyze(binary(BinaryOp::Comparison(BinaryComparisonOp::Less), integer(1), integer(2)))
        .unwrap();
    assert!(matches!(r.ty, AnalyzedTypeId::Bool));
}

#[test]
fn assignment_to_a_literal_is_invalid() {
    let r = analyze(binary(BinaryOp::Assign, integer(1), integer(2))).unwrap_err();
    assert_eq!(r.kind, AnalyzerErrorKind::InvalidAssign);
    assert_eq!(r.cause.unwrap().kind, AnalyzerErrorKind::NotAssignable);
}

#[test]
fn assignment_to_a_variable() {
    let r = analyze(block(
        vec![declare("x", integer(1)), binary(BinaryOp::Assign, var("x"), integer(2))],
        true,
    ))
    .unwrap();
    assert!(matches!(r.ty, AnalyzedTypeId::Integer(4)));
    let r = analyze(block(
        vec![declare("x", integer(1)), binary(BinaryOp::Assign, var("x"), boolean(true))],
        true,
    ));
    assert_eq!(error_kind(r), AnalyzerErrorKind::AssignTypeMismatch);
}

#[test]
fn tuple_is_an_instance_of_the_tuple_struct() {
    let r = analyze(e(ParsedExpressionKind::Tuple(vec![integer(1), boolean(true)]))).unwrap();
    match r.ty {
        AnalyzedTypeId::StructType(StructRef { id, generic_args }) => {
            assert_eq!(id, TUPLE);
            assert_eq!(generic_args.len(), 2);
            assert!(matches!(generic_args[0], AnalyzedTypeId::Integer(4)));
            assert!(matches!(generic_args[1], AnalyzedTypeId::Bool));
        },
        other => panic!("unexpected type {:?}", other),
    }
    match r.kind {
        AnalyzedExpressionKind::StructInstance { fields } => {
            assert_eq!(fields.len(), 2);
            assert_eq!(fields[0].0, "item0");
            assert_eq!(fields[1].0, "item1");
        },
        other => panic!("unexpected kind {:?}", other),
    }
}

fn point_instance(fields: Vec<(&str, ParsedExpression)>) -> ParsedExpression {
    e(ParsedExpressionKind::StructInstance {
        struct_type: ty(ParsedTypeValue::Named { name: "Point".to_string(), generic_args: vec![] }),
        fields: fields.into_iter().map(|(n, v)| (n.to_string(), v)).collect(),
    })
}

#[test]
fn struct_instance_lists_fields_in_declaration_order() {
    let r = analyze(point_instance(vec![("y", integer(2)), ("x", integer(1))])).unwrap();
    assert!(matches!(r.ty, AnalyzedTypeId::StructType(StructRef { id: POINT, .. })));
    match r.kind {
        AnalyzedExpressionKind::StructInstance { fields } => {
            assert_eq!(fields[0].0, "x");
            assert!(matches!(fields[0].1.kind, AnalyzedExpressionKind::Literal(AnalyzedLiteral::Integer(1))));
            assert_eq!(fields[1].0, "y");
        },
        other => panic!("unexpected kind {:?}", other),
    }
}

#[test]
fn struct_instance_errors() {
    let r = analyze(point_instance(vec![("x", integer(1))]));
    assert_eq!(error_kind(r), AnalyzerErrorKind::StructFieldMissing);
    let r = analyze(point_instance(vec![("x", integer(1)), ("y", integer(2)), ("z", integer(3))]));
    assert_eq!(error_kind(r), AnalyzerErrorKind::StructHasExtraFields);
    let r = analyze(point_instance(vec![("x", integer(1)), ("y", boolean(true))]));
    assert_eq!(error_kind(r), AnalyzerErrorKind::StructFieldTypeMismatch);
}

#[test]
fn call_by_name_resolves_the_function() {
    let call = e(ParsedExpressionKind::FunctionCall {
        expr: Box::new(var("add")),
        args: vec![integer(1), integer(2)],
    });
    let r = analyze(call).unwrap();
    assert!(matches!(r.ty, AnalyzedTypeId::Integer(8)));
    match r.kind {
        AnalyzedExpressionKind::FunctionCall { call_type: AnalyzedFunctionCallType::Function(f), args } => {
            assert_eq!(f.id, 7);
            assert_eq!(args.len(), 2);
        },
        other => panic!("unexpected kind {:?}", other),
    }
    let wrong = e(ParsedExpressionKind::FunctionCall {
        expr: Box::new(var("add")),
        args: vec![integer(1)],
    });
    assert_eq!(error_kind(analyze(wrong)), AnalyzerErrorKind::FunctionNotFound);
}

#[test]
fn sizeof_is_an_int() {
    let r = analyze(e(ParsedExpressionKind::Sizeof(ty(ParsedTypeValue::Integer(8))))).unwrap();
    assert!(matches!(r.ty, AnalyzedTypeId::Integer(4)));
    let r = analyze(e(ParsedExpressionKind::Sizeof(ty(ParsedTypeValue::Named {
        name: "Nope".to_string(),
        generic_args: vec![],
    }))));
    assert_eq!(error_kind(r), AnalyzerErrorKind::SizeofTypeNotFound);
}

#[test]
fn analysis_keeps_the_location() {
    let r = analyze(e_at(9, ParsedExpressionKind::Literal(ParsedLiteral::Bool(false)))).unwrap();
    assert_eq!(r.location.line, 9);
}

fn t_params() -> GenericParams {
    GenericParams { params: vec![GenericParam { name: "T".to_string(), id: 42 }] }
}

#[test]
fn resolving_generic_types_substitutes_arguments() {
    let ty = AnalyzedTypeId::Pointer(Box::new(AnalyzedTypeId::GenericType(42)));
    let r = resolve_generic_type(&ty, &t_params(), &vec![AnalyzedTypeId::Bool]);
    match r {
        AnalyzedTypeId::Pointer(inner) => assert!(matches!(*inner, AnalyzedTypeId::Bool)),
        other => panic!("unexpected type {:?}", other),
    }
    let plain = resolve_generic_type(&AnalyzedTypeId::Char, &t_params(), &vec![AnalyzedTypeId::Bool]);
    assert!(matches!(plain, AnalyzedTypeId::Char));
}

#[test]
fn matching_binds_generic_parameters() {
    let mut map: HashMap<u64, AnalyzedTypeId> = HashMap::new();
    let r = check_matches_try_find_generic_args(
        &AnalyzedTypeId::Pointer(Box::new(AnalyzedTypeId::Integer(8))),
        &AnalyzedTypeId::Pointer(Box::new(AnalyzedTypeId::GenericType(42))),
        &mut map,
        &at(1),
    );
    assert!(r.is_ok());
    assert!(matches!(map.get(&42), Some(AnalyzedTypeId::Integer(8))));
    let again = check_matches_try_find_generic_args(
        &AnalyzedTypeId::Bool,
        &AnalyzedTypeId::GenericType(42),
        &mut map,
        &at(2),
    );
    let err = again.unwrap_err();
    assert_eq!(err.kind, AnalyzerErrorKind::AmbiguousGenericArgument);
}

#[test]
fn matching_different_plain_types_fails() {
    let mut map: HashMap<u64, AnalyzedTypeId> = HashMap::new();
    let r = check_matches_try_find_generic_args(
        &AnalyzedTypeId::Bool,
        &AnalyzedTypeId::Char,
        &mut map,
        &at(1),
    );
    assert_eq!(r.unwrap_err().kind, AnalyzerErrorKind::TypeMismatch);
    assert!(map.is_empty());
}

#[test]
fn loop_with_else_needs_a_condition() {
    let without_condition = e(ParsedExpressionKind::Loop {
        init: None,
        condition: None,
        step: None,
        loop_body: Box::new(block(vec![], false)),
        else_expr: Some(Box::new(integer(1))),
    });
    assert!(!is_well_formed(&without_condition));
    let with_condition = e(ParsedExpressionKind::Loop {
        init: None,
        condition: Some(Box::new(boolean(true))),
        step: None,
        loop_body: Box::new(block(vec![], false)),
        else_expr: Some(Box::new(integer(1))),
    });
    assert!(is_well_formed(&with_condition));
    assert!(!is_well_formed(&block(vec![integer(1), without_condition], false)));
}

#[test]
fn qualified_name_without_a_source_file() {
    let mut id = name("add");
    id.id.is_module_local = false;
    id.id.item_id.module_id.path = vec!["arith".to_string()];
    let mut function = e(ParsedExpressionKind::Variable(id));
    function.location.file = None;
    assert!(is_well_formed(&function));
    let r = analyze(function).unwrap();
    assert!(matches!(r.kind, AnalyzedExpressionKind::FunctionPointer(_)));
    let mut variant = name("Red");
    variant.id.is_module_local = false;
    variant.id.item_id.module_id.path = vec!["Color".to_string()];
    let mut enum_name = e(ParsedExpressionKind::Variable(variant));
    enum_name.location.file = None;
    assert!(is_well_formed(&enum_name));
    assert_eq!(error_kind(analyze(enum_name)), AnalyzerErrorKind::ExpectedModuleLocal);
}

#[test]
fn resolving_a_type_without_generics_changes_nothing() {
    let ty = AnalyzedTypeId::FunctionType(
        Box::new(AnalyzedTypeId::Pointer(Box::new(AnalyzedTypeId::Integer(8)))),
        vec![AnalyzedTypeId::Bool, AnalyzedTypeId::EnumType(2)],
    );
    let r = resolve_generic_type(&ty, &t_params(), &vec![AnalyzedTypeId::Char]);
    assert!(toycc::analyzed_type::types_equal(&r, &ty));
}

#[test]
fn resolving_twice_gives_the_same_type() {
    let ty = AnalyzedTypeId::StructType(StructRef {
        id: POINT,
        generic_args: vec![AnalyzedTypeId::GenericType(42), AnalyzedTypeId::Bool],
    });
    let args = vec![AnalyzedTypeId::Pointer(Box::new(AnalyzedTypeId::Char))];
    let once = resolve_generic_type(&ty, &t_params(), &args);
    let twice = resolve_generic_type(&once, &t_params(), &args);
    assert!(toycc::analyzed_type::types_equal(&once, &twice));
    assert!(matches!(once, AnalyzedTypeId::StructType(StructRef { ref generic_args, .. }) if matches!(generic_args[0], AnalyzedTypeId::Pointer(_))));
}

fn analyzed_break(v: i64) -> AnalyzedExpression {
    AnalyzedExpression {
        kind: AnalyzedExpressionKind::Break(Some(Box::new(AnalyzedExpression {
            kind: AnalyzedExpressionKind::Literal(AnalyzedLiteral::Integer(v)),
            ty: AnalyzedTypeId::Integer(4),
            location: at(1),
        }))),
        ty: AnalyzedTypeId::Unit,
        location: at(1),
    }
}

#[test]
fn found_break_type_is_accepted_when_required() {
    let body = AnalyzedExpression {
        kind: AnalyzedExpressionKind::Block {
            expressions: vec![analyzed_break(1), analyzed_break(2)],
            returns_value: false,
        },
        ty: AnalyzedTypeId::Unit,
        location: at(1),
    };
    let found = toycc::break_check::assert_break_return_type(None, &body).unwrap().unwrap();
    assert!(matches!(found, AnalyzedTypeId::Integer(4)));
    let again = toycc::break_check::assert_break_return_type(Some(&found), &body).unwrap().unwrap();
    assert!(matches!(again, AnalyzedTypeId::Integer(4)));
    let mismatch = toycc::break_check::assert_break_return_type(Some(&AnalyzedTypeId::Bool), &body);
    assert_eq!(mismatch.unwrap_err().kind, AnalyzerErrorKind::BreakTypeMismatch);
}

#[test]
fn matching_and_break_errors_report_what_clashed() {
    let mut map: HashMap<u64, AnalyzedTypeId> = HashMap::new();
    let err = check_matches_try_find_generic_args(&AnalyzedTypeId::Bool, &AnalyzedTypeId::Char, &mut map, &at(1))
        .unwrap_err();
    assert_eq!(err.details, vec!["Bool".to_string(), "Char".to_string()]);
    let _ = check_matches_try_find_generic_args(&AnalyzedTypeId::Bool, &AnalyzedTypeId::GenericType(42), &mut map, &at(1));
    let err = check_matches_try_find_generic_args(&AnalyzedTypeId::Char, &AnalyzedTypeId::GenericType(42), &mut map, &at(1))
        .unwrap_err();
    assert_eq!(err.details, vec!["42".to_string()]);
    let body = AnalyzedExpression {
        kind: AnalyzedExpressionKind::Block { expressions: vec![analyzed_break(1)], returns_value: false },
        ty: AnalyzedTypeId::Unit,
        location: at(1),
    };
    let err = toycc::break_check::assert_break_return_type(Some(&AnalyzedTypeId::Bool), &body).unwrap_err();
    assert_eq!(err.details, vec!["Integer(4)".to_string(), "Bool".to_string()]);
}
