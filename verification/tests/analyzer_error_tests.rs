use toycc::analyzed_expression::{AnalyzedExpression, AnalyzedExpressionKind, AnalyzedLiteral};
use toycc::analyzed_type::{AnalyzedTypeId, GenericParam, GenericParams};
use toycc::analyzer_context::{AnalyzerContext, LocalVariables};
use toycc::analyzer_error::{AnalyzerError, AnalyzerErrorKind};
use toycc::expression_analyzer::analyze_expression;
use toycc::location::{FileId, Location, SourceFile};
use toycc::parsed_expression::{
    BinaryComparisonOp, BinaryLogicOp, BinaryMathOp, BinaryOp, ItemId, Located, ModuleId,
    ParsedExpression, ParsedExpressionKind, ParsedGenericId, ParsedLiteral, ParsedType,
    ParsedTypeValue, ScopeId, UnaryMathOp, UnaryOp,
};
use toycc::resolved_functions::{ResolvedFunctionHeader, ResolvedFunctions};
use toycc::resolved_types::{EnumDefinition, ResolvedTypes, StructDefinition};

fn here() -> Location {
    Location { file: Some(SourceFile { id: FileId(1) }), line: 4, column: 2 }
}

fn node(kind: ParsedExpressionKind) -> ParsedExpression {
    Located { value: kind, location: here() }
}

fn num(v: i64) -> ParsedExpression {
    node(ParsedExpressionKind::Literal(ParsedLiteral::Integer(v)))
}

fn truth() -> ParsedExpression {
    node(ParsedExpressionKind::Literal(ParsedLiteral::Bool(true)))
}

fn written(value: ParsedTypeValue) -> ParsedType {
    Located { value, location: here() }
}

fn named(name: &str) -> ParsedTypeValue {
    ParsedTypeValue::Named { name: name.to_string(), generic_args: vec![] }
}

fn local(name: &str) -> ParsedGenericId {
    ParsedGenericId {
        id: ScopeId {
            is_module_local: true,
            item_id: ItemId { module_id: ModuleId { path: vec![] }, item_name: name.to_string() },
        },
        generic_args: vec![],
    }
}

fn qualified(enum_name: &str, variant: &str) -> ParsedExpression {
    node(ParsedExpressionKind::Variable(ParsedGenericId {
        id: ScopeId {
            is_module_local: false,
            item_id: ItemId {
                module_id: ModuleId { path: vec![enum_name.to_string()] },
                item_name: variant.to_string(),
            },
        },
        generic_args: vec![],
    }))
}

fn read(name: &str) -> ParsedExpression {
    node(ParsedExpressionKind::Variable(local(name)))
}

fn let_var(name: &str, value: ParsedExpression) -> ParsedExpression {
    node(ParsedExpressionKind::Declaration { var_type: None, var_name: name.to_string(), value: Box::new(value) })
}

fn seq_block(expressions: Vec<ParsedExpression>) -> ParsedExpression {
    node(ParsedExpressionKind::Block { expressions, returns_value: true })
}

fn unary(op: UnaryOp, expr: ParsedExpression) -> ParsedExpression {
    node(ParsedExpressionKind::Unary { op, expr: Box::new(expr) })
}

fn bin(op: BinaryOp, left: ParsedExpression, right: ParsedExpression) -> ParsedExpression {
    node(ParsedExpressionKind::Binary { op, left: Box::new(left), right: Box::new(right) })
}

fn looping(
    init: Option<ParsedExpression>,
    condition: Option<ParsedExpression>,
    step: Option<ParsedExpression>,
    body: ParsedExpression,
) -> ParsedExpression {
    node(ParsedExpressionKind::Loop {
        init: init.map(Box::new),
        condition: condition.map(Box::new),
        step: step.map(Box::new),
        loop_body: Box::new(body),
        else_expr: None,
    })
}

fn empty_body() -> ParsedExpression {
    node(ParsedExpressionKind::Block { expressions: vec![], returns_value: false })
}

fn identity_header() -> ResolvedFunctionHeader {
    ResolvedFunctionHeader {
        id: 11,
        name: "identity".to_string(),
        generic_params: GenericParams { params: vec![GenericParam { name: "T".to_string(), id: 5 }] },
        parameter_types: vec![("x".to_string(), AnalyzedTypeId::GenericType(5))],
        return_type: AnalyzedTypeId::GenericType(5),
    }
}

fn setting() -> AnalyzerContext {
    AnalyzerContext {
        types: ResolvedTypes {
            structs: vec![
                StructDefinition {
                    id: 0,
                    name: "Tuple".to_string(),
                    generic_params: GenericParams { params: vec![] },
                    fields: vec![],
                },
                StructDefinition {
                    id: 1,
                    name: "Point".to_string(),
                    generic_params: GenericParams { params: vec![] },
                    fields: vec![("x".to_string(), AnalyzedTypeId::Integer(4))],
                },
            ],
            enums: vec![EnumDefinition {
                id: 3,
                name: "Color".to_string(),
                file: FileId(1),
                variants: vec![("Red".to_string(), 0), ("Green".to_string(), 5)],
            }],
            tuple_struct: 0,
        },
        functions: ResolvedFunctions { headers: vec![identity_header()] },
        local_variables: LocalVariables::new(),
        generic_params: GenericParams { params: vec![] },
        return_type: AnalyzedTypeId::Unit,
    }
}

fn run(expression: ParsedExpression) -> Result<AnalyzedExpression, AnalyzerError> {
    let mut ctx = setting();
    analyze_expression(&mut ctx, &expression)
}

fn fails_with(expression: ParsedExpression, kind: AnalyzerErrorKind) {
    match run(expression) {
        Ok(x) => panic!("expected {:?}, got {:?}", kind, x),
        Err(err) => assert_eq!(err.kind, kind),
    }
}

#[test]
fn struct_instance_of_unknown_or_non_struct_type() {
    let unknown = node(ParsedExpressionKind::StructInstance { struct_type: written(named("Nope")), fields: vec![] });
    fails_with(unknown, AnalyzerErrorKind::TypeNotFound);
    let not_struct = node(ParsedExpressionKind::StructInstance { struct_type: written(ParsedTypeValue::Bool), fields: vec![] });
    fails_with(not_struct, AnalyzerErrorKind::NotAStructType);
}

#[test]
fn loop_part_type_errors() {
    fails_with(looping(Some(num(1)), None, None, empty_body()), AnalyzerErrorKind::LoopInitNotUnit);
    fails_with(looping(None, Some(truth()), Some(truth()), empty_body()), AnalyzerErrorKind::LoopStepNotUnitOrInteger);
    fails_with(looping(None, Some(truth()), None, num(1)), AnalyzerErrorKind::LoopBodyNotUnit);
    let ok = run(looping(None, Some(truth()), Some(num(1)), empty_body())).unwrap();
    assert!(matches!(ok.ty, AnalyzedTypeId::Unit));
}

#[test]
fn breaks_of_one_loop_must_agree() {
    let body = node(ParsedExpressionKind::Block {
        expressions: vec![
            node(ParsedExpressionKind::Break(Some(Box::new(num(1))))),
            node(ParsedExpressionKind::Break(Some(Box::new(truth())))),
        ],
        returns_value: false,
    });
    fails_with(looping(None, None, None, body), AnalyzerErrorKind::BreakTypeMismatch);
    let conditional = node(ParsedExpressionKind::Block {
        expressions: vec![node(ParsedExpressionKind::Break(Some(Box::new(num(1)))))],
        returns_value: false,
    });
    fails_with(looping(None, Some(truth()), None, conditional), AnalyzerErrorKind::BreakTypeMismatch);
}

#[test]
fn unary_operand_errors() {
    fails_with(unary(UnaryOp::Math(UnaryMathOp::Negate), truth()), AnalyzerErrorKind::MathUnaryNotInteger);
    fails_with(unary(UnaryOp::LogicalNot, num(1)), AnalyzerErrorKind::LogicalNotNotBool);
    fails_with(unary(UnaryOp::Dereference, num(1)), AnalyzerErrorKind::DereferenceNotPointer);
    let negated = run(unary(UnaryOp::Math(UnaryMathOp::Negate), num(3))).unwrap();
    assert!(matches!(negated.ty, AnalyzedTypeId::Integer(4)));
}

#[test]
fn borrow_increment_decrement_need_a_place() {
    let borrow = run(unary(UnaryOp::Borrow, num(1))).unwrap_err();
    assert_eq!(borrow.kind, AnalyzerErrorKind::InvalidBorrow);
    assert_eq!(borrow.cause.unwrap().kind, AnalyzerErrorKind::NotAssignable);
    fails_with(unary(UnaryOp::Increment { is_prefix: true }, num(1)), AnalyzerErrorKind::InvalidIncrement);
    fails_with(unary(UnaryOp::Decrement { is_prefix: false }, num(1)), AnalyzerErrorKind::InvalidDecrement);
    fails_with(
        seq_block(vec![let_var("b", truth()), unary(UnaryOp::Increment { is_prefix: true }, read("b"))]),
        AnalyzerErrorKind::IncrementNotInteger,
    );
    fails_with(
        seq_block(vec![let_var("b", truth()), unary(UnaryOp::Decrement { is_prefix: true }, read("b"))]),
        AnalyzerErrorKind::DecrementNotInteger,
    );
}

#[test]
fn borrow_then_dereference_gives_the_variable_type() {
    let r = run(seq_block(vec![
        let_var("n", num(7)),
        unary(UnaryOp::Dereference, unary(UnaryOp::Borrow, read("n"))),
    ]))
    .unwrap();
    assert!(matches!(r.ty, AnalyzedTypeId::Integer(4)));
}

#[test]
fn cast_errors() {
    fails_with(unary(UnaryOp::Cast(written(named("Nope"))), num(1)), AnalyzerErrorKind::CastTypeNotFound);
    let to_pointer = written(ParsedTypeValue::Pointer(Box::new(ParsedTypeValue::Char)));
    fails_with(unary(UnaryOp::Cast(to_pointer), num(1)), AnalyzerErrorKind::InvalidCast);
    let widened = run(unary(UnaryOp::Cast(written(ParsedTypeValue::Integer(8))), truth())).unwrap();
    assert!(matches!(widened.ty, AnalyzedTypeId::Integer(8)));
}

#[test]
fn member_errors() {
    fails_with(unary(UnaryOp::Member("x".to_string()), num(1)), AnalyzerErrorKind::MemberOfNonStruct);
    let point = node(ParsedExpressionKind::StructInstance {
        struct_type: written(named("Point")),
        fields: vec![("x".to_string(), num(2))],
    });
    let found = run(unary(UnaryOp::Member("x".to_string()), point)).unwrap();
    assert!(matches!(found.ty, AnalyzedTypeId::Integer(4)));
    let point = node(ParsedExpressionKind::StructInstance {
        struct_type: written(named("Point")),
        fields: vec![("x".to_string(), num(2))],
    });
    fails_with(unary(UnaryOp::Member("z".to_string()), point), AnalyzerErrorKind::MemberNotFound);
}

#[test]
fn index_errors() {
    fails_with(bin(BinaryOp::Index, num(1), truth()), AnalyzerErrorKind::IndexNotInteger);
    fails_with(bin(BinaryOp::Index, num(1), num(0)), AnalyzerErrorKind::IndexNotPointer);
    let text = node(ParsedExpressionKind::Literal(ParsedLiteral::String("ab".to_string())));
    let indexed = run(bin(BinaryOp::Index, text, num(1))).unwrap();
    assert!(matches!(indexed.ty, AnalyzedTypeId::Char));
}

#[test]
fn logical_operand_errors() {
    fails_with(bin(BinaryOp::Logical(BinaryLogicOp::And), num(1), truth()), AnalyzerErrorKind::LogicLeftNotBool);
    fails_with(bin(BinaryOp::Logical(BinaryLogicOp::Or), truth(), num(1)), AnalyzerErrorKind::LogicRightNotBool);
}

#[test]
fn comparison_operand_errors() {
    fails_with(
        bin(BinaryOp::Comparison(BinaryComparisonOp::Less), truth(), truth()),
        AnalyzerErrorKind::ComparisonNotComparable,
    );
    fails_with(
        bin(BinaryOp::Comparison(BinaryComparisonOp::Equals), num(1), truth()),
        AnalyzerErrorKind::ComparisonOperandMismatch,
    );
    let equal = run(bin(BinaryOp::Comparison(BinaryComparisonOp::Equals), truth(), truth())).unwrap();
    assert!(matches!(equal.ty, AnalyzedTypeId::Bool));
}

#[test]
fn compound_assignment_errors() {
    let add = BinaryOp::MathAssign(BinaryMathOp::Add);
    fails_with(bin(add, num(1), num(1)), AnalyzerErrorKind::InvalidMathAssign);
    fails_with(seq_block(vec![let_var("b", truth()), bin(add, read("b"), num(1))]), AnalyzerErrorKind::MathAssignNotInteger);
    fails_with(
        seq_block(vec![let_var("n", num(1)), bin(add, read("n"), num(5_000_000_000))]),
        AnalyzerErrorKind::MathAssignTypeMismatch,
    );
    let and = BinaryOp::LogicAssign(BinaryLogicOp::And);
    fails_with(bin(and, num(1), truth()), AnalyzerErrorKind::InvalidLogicAssign);
    fails_with(seq_block(vec![let_var("n", num(1)), bin(and, read("n"), truth())]), AnalyzerErrorKind::LogicAssignLeftNotBool);
    fails_with(seq_block(vec![let_var("b", truth()), bin(and, read("b"), num(1))]), AnalyzerErrorKind::LogicAssignRightNotBool);
    let fine = run(seq_block(vec![let_var("n", num(1)), bin(add, read("n"), num(2))])).unwrap();
    assert!(matches!(fine.ty, AnalyzedTypeId::Integer(4)));
}

#[test]
fn enum_variants_by_qualified_name() {
    let green = run(qualified("Color", "Green")).unwrap();
    assert!(matches!(green.ty, AnalyzedTypeId::EnumType(3)));
    assert!(matches!(green.kind, AnalyzedExpressionKind::Literal(AnalyzedLiteral::Integer(5))));
    fails_with(qualified("Color", "Blue"), AnalyzerErrorKind::EnumVariantNotFound);
    fails_with(qualified("Shade", "Red"), AnalyzerErrorKind::ExpectedModuleLocal);
}

#[test]
fn explicit_generic_arguments() {
    let mut unknown = local("identity");
    unknown.generic_args = vec![written(named("Nope"))];
    fails_with(node(ParsedExpressionKind::Variable(unknown)), AnalyzerErrorKind::GenericArgumentNotFound);
    let mut missing = local("nothing");
    missing.generic_args = vec![written(ParsedTypeValue::Bool)];
    fails_with(node(ParsedExpressionKind::Variable(missing)), AnalyzerErrorKind::FunctionNotFound);
    let mut pointer = local("identity");
    pointer.generic_args = vec![written(ParsedTypeValue::Bool)];
    let r = run(node(ParsedExpressionKind::Variable(pointer))).unwrap();
    assert!(matches!(r.kind, AnalyzedExpressionKind::FunctionPointer(_)));
    match r.ty {
        AnalyzedTypeId::FunctionType(ret, params) => {
            assert!(matches!(*ret, AnalyzedTypeId::Bool));
            assert_eq!(params.len(), 1);
        },
        other => panic!("unexpected type {:?}", other),
    }
}

#[test]
fn generic_call_infers_its_arguments() {
    let call = node(ParsedExpressionKind::FunctionCall { expr: Box::new(read("identity")), args: vec![truth()] });
    let r = run(call).unwrap();
    assert!(matches!(r.ty, AnalyzedTypeId::Bool));
}

#[test]
fn calling_a_non_function_is_an_error() {
    let call = node(ParsedExpressionKind::FunctionCall { expr: Box::new(num(1)), args: vec![] });
    fails_with(call, AnalyzerErrorKind::ExpectedCallable);
}

#[test]
fn error_location_is_where_the_error_is_found() {
    let err = run(node(ParsedExpressionKind::Continue)).unwrap_err();
    assert_eq!(err.location.line, 4);
    assert_eq!(err.location.column, 2);
}

fn details_of(expression: ParsedExpression) -> (AnalyzerErrorKind, Vec<String>) {
    let err = run(expression).unwrap_err();
    (err.kind, err.details)
}

#[test]
fn errors_report_the_types_involved() {
    let (kind, details) = details_of(bin(BinaryOp::Math(BinaryMathOp::Add), num(1), num(5_000_000_000)));
    assert_eq!(kind, AnalyzerErrorKind::MathOperandMismatch);
    assert_eq!(details, vec!["Integer(4)".to_string(), "Integer(8)".to_string()]);
    let (kind, details) = details_of(node(ParsedExpressionKind::Return(Some(Box::new(truth())))));
    assert_eq!(kind, AnalyzerErrorKind::ReturnTypeMismatch);
    assert_eq!(details, vec!["Bool".to_string(), "Unit".to_string()]);
    let (_, details) = details_of(unary(UnaryOp::Dereference, num(1)));
    assert_eq!(details, vec!["Integer(4)".to_string()]);
    let (_, details) = details_of(unary(UnaryOp::Cast(written(named("Nope"))), num(1)));
    assert_eq!(details, vec!["Named { name: \"Nope\", generic_args: [] }".to_string()]);
}

#[test]
fn errors_report_the_names_involved() {
    let (kind, details) = details_of(seq_block(vec![let_var("x", num(1)), let_var("x", num(2))]));
    assert_eq!(kind, AnalyzerErrorKind::VariableAlreadyDeclared);
    assert_eq!(details, vec!["x".to_string()]);
    let (kind, details) = details_of(read("nowhere"));
    assert_eq!(kind, AnalyzerErrorKind::VariableOrFunctionNotFound);
    assert_eq!(details, vec!["nowhere".to_string()]);
    let (kind, details) = details_of(qualified("Color", "Blue"));
    assert_eq!(kind, AnalyzerErrorKind::EnumVariantNotFound);
    assert_eq!(details, vec!["Blue".to_string()]);
    let point = node(ParsedExpressionKind::StructInstance { struct_type: written(named("Point")), fields: vec![] });
    let (kind, details) = details_of(point);
    assert_eq!(kind, AnalyzerErrorKind::StructFieldMissing);
    assert_eq!(details, vec!["x".to_string()]);
    let point = node(ParsedExpressionKind::StructInstance {
        struct_type: written(named("Point")),
        fields: vec![
            ("z".to_string(), num(1)),
            ("x".to_string(), num(2)),
            ("w".to_string(), num(3)),
            ("z".to_string(), num(4)),
        ],
    });
    let (kind, details) = details_of(point);
    assert_eq!(kind, AnalyzerErrorKind::StructHasExtraFields);
    assert_eq!(details, vec!["z".to_string(), "w".to_string()]);
    let point = node(ParsedExpressionKind::StructInstance {
        struct_type: written(named("Point")),
        fields: vec![("x".to_string(), truth())],
    });
    let (kind, details) = details_of(point);
    assert_eq!(kind, AnalyzerErrorKind::StructFieldTypeMismatch);
    assert_eq!(details, vec!["x".to_string(), "Bool".to_string(), "Integer(4)".to_string()]);
}

#[test]
fn errors_without_names_report_nothing_more() {
    let err = run(node(ParsedExpressionKind::Continue)).unwrap_err();
    assert!(err.details.is_empty());
}
