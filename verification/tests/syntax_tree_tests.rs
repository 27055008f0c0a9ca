use toycc::location::{FileId, HasLocation, Location, SourceFile};
use toycc::syntax_tree::{
    assign_op, BinaryOp, Expression, Function, Literal, SrcExpression, SrcFunction, SrcStatement,
    StaticToken, Statement, Type,
};

fn at(line: usize, column: usize) -> Location {
    Location { file: Some(SourceFile { id: FileId(3) }), line, column }
}

#[test]
fn literal_types() {
    assert_eq!(Literal::Int(5).get_type(), Type::Int);
    assert_eq!(Literal::Long(-5).get_type(), Type::Long);
    assert_eq!(Literal::String("hi".to_string()).get_type(), Type::String);
}

#[test]
fn type_sizes() {
    assert_eq!(Type::Unit.size(), 0);
    assert_eq!(Type::Bool.size(), 1);
    assert_eq!(Type::Int.size(), 4);
    assert_eq!(Type::Long.size(), 8);
    assert_eq!(Type::String.size(), 8);
}

#[test]
fn integer_types() {
    assert!(Type::Int.is_integer());
    assert!(Type::Long.is_integer());
    assert!(!Type::Unit.is_integer());
    assert!(!Type::Bool.is_integer());
    assert!(!Type::String.is_integer());
}

#[test]
fn assignment_tokens_map_to_assignment_operators() {
    assert_eq!(assign_op(&StaticToken::Assign), Some(BinaryOp::Assign));
    assert_eq!(assign_op(&StaticToken::AddAssign), Some(BinaryOp::AddAssign));
    assert_eq!(assign_op(&StaticToken::SubAssign), Some(BinaryOp::SubAssign));
    assert_eq!(assign_op(&StaticToken::MulAssign), Some(BinaryOp::MulAssign));
    assert_eq!(assign_op(&StaticToken::DivAssign), Some(BinaryOp::DivAssign));
    assert_eq!(assign_op(&StaticToken::ModAssign), Some(BinaryOp::ModAssign));
    assert_eq!(assign_op(&StaticToken::AndAssign), Some(BinaryOp::AndAssign));
    assert_eq!(assign_op(&StaticToken::OrAssign), Some(BinaryOp::OrAssign));
    assert_eq!(assign_op(&StaticToken::XorAssign), Some(BinaryOp::XorAssign));
    assert_eq!(assign_op(&StaticToken::ShiftLeftAssign), Some(BinaryOp::ShlAssign));
    assert_eq!(assign_op(&StaticToken::ShiftRightAssign), Some(BinaryOp::ShrAssign));
}

#[test]
fn other_tokens_are_not_assignments() {
    assert_eq!(assign_op(&StaticToken::Plus), None);
    assert_eq!(assign_op(&StaticToken::ShiftLeft), None);
    assert_eq!(assign_op(&StaticToken::Caret), None);
}

#[test]
fn source_nodes_keep_their_location() {
    let expr = SrcExpression::new(Expression::Literal(Literal::Int(1)), &at(2, 7));
    assert_eq!(expr.location().line, 2);
    assert_eq!(expr.location().column, 7);
    let statement = SrcStatement::new(Statement::Expr(expr), &at(2, 3));
    assert_eq!(statement.location().column, 3);
    let function = Function {
        name: "main".to_string(),
        args: vec![],
        return_type: Some(Type::Int),
        statements: vec![statement],
    };
    let function = SrcFunction::new(function, &at(1, 1));
    assert_eq!(function.location().line, 1);
    assert_eq!(function.location().file.unwrap().id, FileId(3));
}
