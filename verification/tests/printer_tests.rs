use toycc::analyzed_expression::{
    AnalyzedBinaryOp, AnalyzedExpression, AnalyzedExpressionKind, AnalyzedLiteral,
    AssignableExpression, AssignableExpressionKind,
};
use toycc::analyzed_printer::{print_expression, print_function_header};
use toycc::analyzed_type::{AnalyzedTypeId, GenericParam, GenericParams};
use toycc::location::{FileId, Location, SourceFile};
use toycc::module_printer::{print_function_signature, print_module, print_struct_definition};
use toycc::parsed_expression::{
    BinaryMathOp, BinaryOp, ItemId, Located, ModuleId, ParsedExpression, ParsedExpressionKind,
    ParsedGenericId, ParsedLiteral, ParsedTypeValue, ScopeId,
};
use toycc::parsed_program::{
    ParsedEnumDefinition, ParsedFunction, ParsedFunctionSignature, ParsedImport, ParsedModule,
    ParsedStructDefinition, ParsedTypeAlias,
};
use toycc::print_depth::expression_fits;
use toycc::printer::Printer;
use toycc::resolved_functions::ResolvedFunctionHeader;
use toycc::tree_depth_check::{module_fits, tree_fits};
use toycc::tree_printer;

fn at() -> Location {
    Location { file: Some(SourceFile { id: FileId(0) }), line: 1, column: 1 }
}

fn located<T>(value: T) -> Located<T> {
    Located { value, location: at() }
}

#[test]
fn empty_printer_builds_empty_text() {
    assert_eq!(Printer::new().build(), "");
}

#[test]
fn lines_are_joined_with_newlines_and_indented_by_two_spaces() {
    let mut printer = Printer::new();
    printer.add_line("a".to_string());
    printer.indent();
    printer.add_line("b".to_string());
    printer.indent();
    printer.add_line("c".to_string());
    printer.dedent();
    printer.dedent();
    printer.add_line("d".to_string());
    assert_eq!(printer.build(), "a\n  b\n    c\nd");
}

#[test]
fn single_line_has_no_newline() {
    let mut printer = Printer::new();
    printer.indent();
    printer.add_line("x".to_string());
    assert_eq!(printer.build(), "  x");
}

#[test]
fn building_twice_gives_the_same_text() {
    let mut printer = Printer::new();
    printer.add_line("one".to_string());
    let first = printer.build();
    let second = printer.build();
    assert_eq!(first, second);
    printer.add_line("two".to_string());
    assert_eq!(printer.build(), format!("{}\n{}", first, "two"));
}

#[test]
fn room_shrinks_with_indentation() {
    let mut printer = Printer::new();
    assert_eq!(printer.room(), usize::MAX);
    printer.indent();
    assert_eq!(printer.room(), usize::MAX - 1);
}

fn literal(v: i64) -> AnalyzedExpression {
    AnalyzedExpression {
        kind: AnalyzedExpressionKind::Literal(AnalyzedLiteral::Integer(v)),
        ty: AnalyzedTypeId::Integer(4),
        location: at(),
    }
}

#[test]
fn analyzed_literal_prints_type_then_value() {
    let mut printer = Printer::new();
    print_expression(&mut printer, &literal(-3));
    assert_eq!(printer.build(), "Expr type: Integer(4)\nLiteral(Integer(-3))");
}

#[test]
fn analyzed_block_indents_its_expressions() {
    let block = AnalyzedExpression {
        kind: AnalyzedExpressionKind::Block { expressions: vec![literal(1)], returns_value: true },
        ty: AnalyzedTypeId::Integer(4),
        location: at(),
    };
    assert!(expression_fits(&block, Printer::new().room()));
    let mut printer = Printer::new();
    print_expression(&mut printer, &block);
    assert_eq!(
        printer.build(),
        "Expr type: Integer(4)\nBlock (returns: true) {\n  Expr type: Integer(4)\n  Literal(Integer(1))\n}"
    );
}

#[test]
fn analyzed_binary_and_variable() {
    let variable = AnalyzedExpression {
        kind: AnalyzedExpressionKind::ValueOfAssignable(AssignableExpression {
            kind: AssignableExpressionKind::LocalVariable("x".to_string()),
            ty: AnalyzedTypeId::Integer(4),
        }),
        ty: AnalyzedTypeId::Integer(4),
        location: at(),
    };
    let sum = AnalyzedExpression {
        kind: AnalyzedExpressionKind::Binary {
            op: AnalyzedBinaryOp::Math(BinaryMathOp::Add),
            left: Box::new(variable),
            right: Box::new(literal(2)),
        },
        ty: AnalyzedTypeId::Integer(4),
        location: at(),
    };
    let mut printer = Printer::new();
    print_expression(&mut printer, &sum);
    assert_eq!(
        printer.build(),
        "Expr type: Integer(4)\nBinary(Math(Add))\n  Expr type: Integer(4)\n  ValueOfAssignable\n    LocalVariable(x)\n  Expr type: Integer(4)\n  Literal(Integer(2))"
    );
}

#[test]
fn analyzed_pointer_type_text() {
    let e = AnalyzedExpression {
        kind: AnalyzedExpressionKind::Literal(AnalyzedLiteral::Bool(true)),
        ty: AnalyzedTypeId::Pointer(Box::new(AnalyzedTypeId::Char)),
        location: at(),
    };
    let mut printer = Printer::new();
    print_expression(&mut printer, &e);
    assert_eq!(printer.build(), "Expr type: Pointer(Char)\nLiteral(Bool(true))");
}

#[test]
fn function_header_lists_parameters() {
    let header = ResolvedFunctionHeader {
        id: 7,
        name: "add".to_string(),
        generic_params: GenericParams { params: vec![GenericParam { name: "T".to_string(), id: 3 }] },
        parameter_types: vec![
            ("a".to_string(), AnalyzedTypeId::Integer(4)),
            ("b".to_string(), AnalyzedTypeId::GenericType(3)),
        ],
        return_type: AnalyzedTypeId::Unit,
    };
    let mut printer = Printer::new();
    print_function_header(&mut printer, &header);
    assert_eq!(
        printer.build(),
        "Function<GenericParams { params: [GenericParam { name: \"T\", id: 3 }] }>(7)\n  a: Integer(4)\n  b: GenericType(3)\n-> Unit"
    );
}

fn parsed(kind: ParsedExpressionKind) -> ParsedExpression {
    located(kind)
}

fn parsed_int(v: i64) -> ParsedExpression {
    parsed(ParsedExpressionKind::Literal(ParsedLiteral::Integer(v)))
}

#[test]
fn parsed_tree_of_a_block() {
    let var = ParsedGenericId {
        id: ScopeId {
            is_module_local: true,
            item_id: ItemId { module_id: ModuleId { path: vec![] }, item_name: "x".to_string() },
        },
        generic_args: vec![],
    };
    let body = parsed(ParsedExpressionKind::Block {
        expressions: vec![
            parsed(ParsedExpressionKind::Declaration {
                var_type: None,
                var_name: "x".to_string(),
                value: Box::new(parsed_int(1)),
            }),
            parsed(ParsedExpressionKind::Binary {
                op: BinaryOp::Math(BinaryMathOp::Mul),
                left: Box::new(parsed(ParsedExpressionKind::Variable(var))),
                right: Box::new(parsed_int(2)),
            }),
        ],
        returns_value: true,
    });
    assert!(tree_fits(&body, Printer::new().room()));
    let mut printer = Printer::new();
    tree_printer::print_expression(&mut printer, &body);
    assert_eq!(
        printer.build(),
        "{\n  Declaration(var, x)\n    Literal(Integer(1))\n  Binary(Math(Mul))\n    Var(x)\n    Literal(Integer(2))\n}"
    );
}

#[test]
fn parsed_struct_definition() {
    let def = ParsedStructDefinition {
        struct_name: "Point".to_string(),
        generic_params: vec![],
        fields: vec![
            ("x".to_string(), located(ParsedTypeValue::Integer(4))),
            ("next".to_string(), located(ParsedTypeValue::Pointer(Box::new(ParsedTypeValue::Named {
                name: "Point".to_string(),
                generic_args: vec![],
            })))),
        ],
    };
    let mut printer = Printer::new();
    print_struct_definition(&mut printer, &def);
    assert_eq!(
        printer.build(),
        "struct Point {\n  x: Integer(4),\n  next: Pointer(Named { name: \"Point\", generic_args: [] }),\n}"
    );
}

fn main_signature() -> ParsedFunctionSignature {
    ParsedFunctionSignature {
        function_name: "main".to_string(),
        generic_params: vec!["T".to_string()],
        params: vec![(located(ParsedTypeValue::Bool), "flag".to_string())],
        return_type: located(ParsedTypeValue::Unit),
    }
}

#[test]
fn parsed_function_signature() {
    let mut printer = Printer::new();
    print_function_signature(&mut printer, &main_signature());
    assert_eq!(printer.build(), "fn main<[\"T\"]>(\n  flag: Bool\n) -> Unit");
}

#[test]
fn parsed_module_prints_its_parts_in_order() {
    let module = ParsedModule {
        module_id: ModuleId { path: vec!["std".to_string(), "io".to_string()] },
        imports: vec![
            located(ParsedImport {
                module_id: ModuleId { path: vec!["std".to_string(), "mem".to_string()] },
                imported_objects: Some(vec!["copy".to_string(), "fill".to_string()]),
            }),
            located(ParsedImport { module_id: ModuleId { path: vec!["core".to_string()] }, imported_objects: None }),
        ],
        struct_definitions: vec![],
        type_aliases: vec![located(ParsedTypeAlias {
            alias: "Byte".to_string(),
            aliased_type: located(ParsedTypeValue::Integer(1)),
        })],
        enums: vec![located(ParsedEnumDefinition {
            enum_name: "Color".to_string(),
            variants: vec![("Red".to_string(), 0), ("Blue".to_string(), -1)],
        })],
        trait_definitions: vec![],
        trait_implementations: vec![],
        functions: vec![located(ParsedFunction {
            signature: main_signature(),
            body: parsed(ParsedExpressionKind::Continue),
        })],
    };
    assert!(module_fits(&module, Printer::new().room()));
    let mut printer = Printer::new();
    print_module(&mut printer, &module);
    assert_eq!(
        printer.build(),
        "Module(std::io)\nImport(copy, std::mem)\nImport(fill, std::mem)\nImport(*) from core\nTypeAlias(Byte, Integer(1))\nEnum(Color)\n  Red: 0\n  Blue: -1\nfn main<[\"T\"]>(\n  flag: Bool\n) -> Unit\nContinue"
    );
}

#[test]
fn indent_then_dedent_restores_the_level() {
    let mut printer = Printer::new();
    printer.indent();
    printer.dedent();
    printer.add_line("top".to_string());
    assert_eq!(printer.build(), "top");
    assert_eq!(printer.room(), usize::MAX);
}

#[test]
fn string_literal_is_printed_as_debug_text() {
    let raw = "a\"b\\c\nd\te\r\0\u{1}\u{7f}é!";
    let lit = parsed(ParsedExpressionKind::Literal(ParsedLiteral::String(raw.to_string())));
    let mut printer = Printer::new();
    tree_printer::print_expression(&mut printer, &lit);
    assert_eq!(printer.build(), format!("Literal(String({:?}))", raw));
    assert_eq!(printer.build(), "Literal(String(\"a\\\"b\\\\c\\nd\\te\\r\\0\\u{1}\\u{7f}é!\"))");
}

#[test]
fn quoted_names_are_escaped() {
    let signature = ParsedFunctionSignature {
        function_name: "f".to_string(),
        generic_params: vec!["A\"".to_string(), "B".to_string()],
        params: vec![],
        return_type: located(ParsedTypeValue::Unit),
    };
    let mut printer = Printer::new();
    print_function_signature(&mut printer, &signature);
    assert_eq!(printer.build(), format!("fn f<{:?}>(\n) -> Unit", vec!["A\"", "B"]));
}

#[test]
fn empty_module_prints_its_name_alone() {
    let module = ParsedModule {
        module_id: ModuleId { path: vec!["empty".to_string()] },
        imports: vec![],
        struct_definitions: vec![],
        type_aliases: vec![],
        enums: vec![],
        trait_definitions: vec![],
        trait_implementations: vec![],
        functions: vec![],
    };
    let mut printer = Printer::new();
    printer.indent();
    print_module(&mut printer, &module);
    assert_eq!(printer.build(), "  Module(empty)");
}
