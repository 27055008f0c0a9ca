use vstd::prelude::*;
use crate::analysis_spec::{
    resolve_type, spec_analyze, spec_analyze_block, spec_analyze_if, spec_analyze_opt, spec_analyze_seq, spec_analyze_assignable, spec_analyze_assignment, spec_analyze_binary,
    spec_analyze_declaration, spec_analyze_operation, spec_analyze_unary, Env, Locals,
};
use crate::analyzed_expression::{AnalyzedBinaryOp, AnalyzedLiteral, AnalyzedUnaryOp, BinaryAssignOp, KindView};
use crate::analyzed_type::TypeView;
use crate::location::Location;
use crate::parsed_expression::{
    BinaryOp, Located, ParsedExpression, ParsedExpressionKind, ParsedLiteral, ParsedType, UnaryOp,
};

verus! {

/// The parsed binary expression `left op right` written at `loc`.
pub open spec fn binary_expression(op: BinaryOp, left: ParsedExpression, right: ParsedExpression, loc: Location) -> ParsedExpression {
    Located { value: ParsedExpressionKind::Binary { op, left: Box::new(left), right: Box::new(right) }, location: loc }
}

/// The parsed unary expression `op expr` written at `loc`.
pub open spec fn unary_expression(op: UnaryOp, expr: ParsedExpression, loc: Location) -> ParsedExpression {
    Located { value: ParsedExpressionKind::Unary { op, expr: Box::new(expr) }, location: loc }
}

#[verifier::rlimit(100)]
#[verifier::spinoff_prover]
proof fn lemma_binary_dispatch(ctx: Env, l: Locals, e: ParsedExpression, in_loop: bool, hint: Option<TypeView>)
    requires
        e.value is Binary,
    ensures
        spec_analyze(ctx, l, e, in_loop, hint) == spec_analyze_binary(ctx, l, e, in_loop),
{
    reveal_with_fuel(spec_analyze, 1);
    reveal_with_fuel(spec_analyze_binary, 1);
}

#[verifier::rlimit(60)]
#[verifier::spinoff_prover]
proof fn lemma_operation_dispatch(ctx: Env, l: Locals, e: ParsedExpression, in_loop: bool)
    requires
        e.value matches ParsedExpressionKind::Binary { op, .. } && (op is Math || op is Logical || op is Comparison),
    ensures
        spec_analyze_binary(ctx, l, e, in_loop) == spec_analyze_operation(ctx, l, e, in_loop),
{
    reveal_with_fuel(spec_analyze_binary, 1);
    reveal_with_fuel(spec_analyze_operation, 1);
}

#[verifier::rlimit(60)]
#[verifier::spinoff_prover]
proof fn lemma_assignment_dispatch(ctx: Env, l: Locals, e: ParsedExpression, in_loop: bool)
    requires
        e.value matches ParsedExpressionKind::Binary { op, .. } && (op == BinaryOp::Assign || op is MathAssign
            || op is LogicAssign),
    ensures
        spec_analyze_binary(ctx, l, e, in_loop) == spec_analyze_assignment(ctx, l, e, in_loop),
{
    reveal_with_fuel(spec_analyze_binary, 1);
    reveal_with_fuel(spec_analyze_assignment, 1);
}

#[verifier::rlimit(60)]
#[verifier::spinoff_prover]
proof fn lemma_unary_dispatch(ctx: Env, l: Locals, e: ParsedExpression, in_loop: bool, hint: Option<TypeView>)
    requires
        e.value is Unary,
    ensures
        spec_analyze(ctx, l, e, in_loop, hint) == spec_analyze_unary(ctx, l, e, in_loop),
{
    reveal_with_fuel(spec_analyze, 1);
    reveal_with_fuel(spec_analyze_unary, 1);
}

/// An arithmetic, logical or comparison operation that is analyzed without error becomes
/// a binary expression with the same operator, whose operands are the left side analyzed
/// first and the right side analyzed after it. Arithmetic keeps the operands' type;
/// logical operations and comparisons give `Bool`.
#[verifier::rlimit(100)]
#[verifier::spinoff_prover]
pub proof fn law_operation_keeps_operator(
    ctx: Env,
    l: Locals,
    op: BinaryOp,
    left: ParsedExpression,
    right: ParsedExpression,
    loc: Location,
    in_loop: bool,
    hint: Option<TypeView>,
)
    requires
        op is Math || op is Logical || op is Comparison,
        spec_analyze(ctx, l, binary_expression(op, left, right, loc), in_loop, hint).0 is Ok,
    ensures
        ({
            let v = spec_analyze(ctx, l, binary_expression(op, left, right, loc), in_loop, hint).0->Ok_0;
            let (lr, l1) = spec_analyze(ctx, l, left, in_loop, None);
            let rr = spec_analyze(ctx, l1, right, in_loop, None).0;
            &&& lr is Ok
            &&& rr is Ok
            &&& v.location == loc
            &&& v.kind matches KindView::Binary { op: aop, left: lv, right: rv } && *lv == lr->Ok_0 && *rv
                == rr->Ok_0 && match op {
                BinaryOp::Math(m) => aop == AnalyzedBinaryOp::Math(m) && v.ty == lr->Ok_0.ty && v.ty
                    == rr->Ok_0.ty,
                BinaryOp::Logical(g) => aop == AnalyzedBinaryOp::Logical(g) && v.ty == TypeView::Bool,
                BinaryOp::Comparison(c) => aop == AnalyzedBinaryOp::Comparison(c) && v.ty == TypeView::Bool,
                _ => false,
            }
        }),
{
    let e = binary_expression(op, left, right, loc);
    lemma_binary_dispatch(ctx, l, e, in_loop, hint);
    lemma_operation_dispatch(ctx, l, e, in_loop);
    reveal_with_fuel(spec_analyze_operation, 1);
    reveal_with_fuel(spec_analyze, 1);
}

/// An assignment that is analyzed without error becomes an assignment with the same
/// operator, whose right side is the right side analyzed first; its type is that of the
/// place assigned to.
#[verifier::rlimit(100)]
#[verifier::spinoff_prover]
pub proof fn law_assignment_keeps_operator(
    ctx: Env,
    l: Locals,
    op: BinaryOp,
    left: ParsedExpression,
    right: ParsedExpression,
    loc: Location,
    in_loop: bool,
    hint: Option<TypeView>,
)
    requires
        op == BinaryOp::Assign || op is MathAssign || op is LogicAssign,
        spec_analyze(ctx, l, binary_expression(op, left, right, loc), in_loop, hint).0 is Ok,
    ensures
        ({
            let v = spec_analyze(ctx, l, binary_expression(op, left, right, loc), in_loop, hint).0->Ok_0;
            let (rr, l1) = spec_analyze(ctx, l, right, in_loop, None);
            let target = spec_analyze_assignable(ctx, l1, left).0;
            &&& rr is Ok
            &&& target is Ok
            &&& v.location == loc
            &&& v.kind matches KindView::Assign { op: aop, lhs, rhs } && lhs == target->Ok_0 && *rhs
                == rr->Ok_0 && v.ty == lhs.ty && lhs.ty == rr->Ok_0.ty && match op {
                BinaryOp::Assign => aop == BinaryAssignOp::Assign,
                BinaryOp::MathAssign(m) => aop == BinaryAssignOp::MathAssign(m) && lhs.ty is Integer,
                BinaryOp::LogicAssign(g) => aop == BinaryAssignOp::LogicAssign(g) && lhs.ty == TypeView::Bool,
                _ => false,
            }
        }),
{
    let e = binary_expression(op, left, right, loc);
    lemma_binary_dispatch(ctx, l, e, in_loop, hint);
    lemma_assignment_dispatch(ctx, l, e, in_loop);
    reveal_with_fuel(spec_analyze_assignment, 1);
    reveal_with_fuel(spec_analyze, 1);
    reveal_with_fuel(spec_analyze_assignable, 1);
}

/// An increment or decrement that is analyzed without error keeps whether it was written
/// before or after its operand, and has the type of the place it changes, an integer.
#[verifier::rlimit(100)]
#[verifier::spinoff_prover]
pub proof fn law_step_keeps_position(
    ctx: Env,
    l: Locals,
    op: UnaryOp,
    expr: ParsedExpression,
    loc: Location,
    in_loop: bool,
    hint: Option<TypeView>,
)
    requires
        op is Increment || op is Decrement,
        spec_analyze(ctx, l, unary_expression(op, expr, loc), in_loop, hint).0 is Ok,
    ensures
        ({
            let v = spec_analyze(ctx, l, unary_expression(op, expr, loc), in_loop, hint).0->Ok_0;
            let target = spec_analyze_assignable(ctx, l, expr).0;
            &&& target is Ok
            &&& v.location == loc
            &&& v.ty == target->Ok_0.ty
            &&& v.ty is Integer
            &&& match op {
                UnaryOp::Increment { is_prefix } => v.kind == KindView::Increment(target->Ok_0, is_prefix),
                UnaryOp::Decrement { is_prefix } => v.kind == KindView::Decrement(target->Ok_0, is_prefix),
                _ => false,
            }
        }),
{
    lemma_unary_dispatch(ctx, l, unary_expression(op, expr, loc), in_loop, hint);
    reveal_with_fuel(spec_analyze_unary, 1);
    reveal_with_fuel(spec_analyze, 1);
    reveal_with_fuel(spec_analyze_assignable, 1);
}

/// A sign, bitwise-not, logical-not or cast expression that is analyzed without error
/// keeps its operator and has the operand, analyzed, as its operand. Sign and bitwise
/// not keep the operand's integer type, logical not gives `Bool`, and a cast gives the
/// type written in it.
#[verifier::rlimit(100)]
#[verifier::spinoff_prover]
pub proof fn law_unary_keeps_operator(
    ctx: Env,
    l: Locals,
    op: UnaryOp,
    expr: ParsedExpression,
    loc: Location,
    in_loop: bool,
    hint: Option<TypeView>,
)
    requires
        op is Math || op is LogicalNot || op is Cast,
        spec_analyze(ctx, l, unary_expression(op, expr, loc), in_loop, hint).0 is Ok,
    ensures
        ({
            let v = spec_analyze(ctx, l, unary_expression(op, expr, loc), in_loop, hint).0->Ok_0;
            let operand = spec_analyze(ctx, l, expr, in_loop, None).0;
            &&& operand is Ok
            &&& v.location == loc
            &&& v.kind matches KindView::Unary { op: aop, expr: x } && *x == operand->Ok_0 && match op {
                UnaryOp::Math(m) => aop == AnalyzedUnaryOp::Math(m) && v.ty == operand->Ok_0.ty && v.ty is Integer,
                UnaryOp::LogicalNot => aop == AnalyzedUnaryOp::LogicalNot && v.ty == TypeView::Bool,
                UnaryOp::Cast(t) => aop == AnalyzedUnaryOp::Cast && resolve_type(ctx, t) == Some(v.ty),
                _ => false,
            }
        }),
{
    lemma_unary_dispatch(ctx, l, unary_expression(op, expr, loc), in_loop, hint);
    reveal_with_fuel(spec_analyze_unary, 1);
    reveal_with_fuel(spec_analyze, 1);
    reveal_with_fuel(spec_analyze_assignable, 1);
}

/// A literal keeps its value: `true` and `false`, characters and integers are analyzed
/// as literals of the same value, and the unit literal as the unit literal.
pub proof fn law_literal_keeps_value(
    ctx: Env,
    l: Locals,
    lit: ParsedLiteral,
    loc: Location,
    in_loop: bool,
    hint: Option<TypeView>,
)
    requires
        !(lit is String),
    ensures
        ({
            let (r, l1) = spec_analyze(
                ctx,
                l,
                Located { value: ParsedExpressionKind::Literal(lit), location: loc },
                in_loop,
                hint,
            );
            &&& r is Ok
            &&& l1 == l
            &&& r->Ok_0.location == loc
            &&& match lit {
                ParsedLiteral::Unit => r->Ok_0.kind == KindView::Literal(AnalyzedLiteral::Unit) && r->Ok_0.ty
                    == TypeView::Unit,
                ParsedLiteral::Bool(b) => r->Ok_0.kind == KindView::Literal(AnalyzedLiteral::Bool(b))
                    && r->Ok_0.ty == TypeView::Bool,
                ParsedLiteral::Char(c) => r->Ok_0.kind == KindView::Literal(AnalyzedLiteral::Char(c))
                    && r->Ok_0.ty == TypeView::Char,
                ParsedLiteral::Integer(n) => r->Ok_0.kind == KindView::Literal(AnalyzedLiteral::Integer(n))
                    && r->Ok_0.ty is Integer,
                _ => false,
            }
        }),
{
    reveal_with_fuel(spec_analyze, 1);
}

/// A declaration that is analyzed without error keeps the declared name, has the value
/// analyzed as its value, and leaves the name declared, in the current scope, with the
/// value's type; a declared type, when written, is the value's type.
#[verifier::rlimit(100)]
#[verifier::spinoff_prover]
pub proof fn law_declaration_keeps_name(
    ctx: Env,
    l: Locals,
    var_type: Option<ParsedType>,
    var_name: String,
    value: ParsedExpression,
    loc: Location,
    in_loop: bool,
    hint: Option<TypeView>,
)
    requires
        spec_analyze(
            ctx,
            l,
            Located {
                value: ParsedExpressionKind::Declaration { var_type, var_name, value: Box::new(value) },
                location: loc,
            },
            in_loop,
            hint,
        ).0 is Ok,
    ensures
        ({
            let (r, l2) = spec_analyze(
                ctx,
                l,
                Located {
                    value: ParsedExpressionKind::Declaration { var_type, var_name, value: Box::new(value) },
                    location: loc,
                },
                in_loop,
                hint,
            );
            let v = r->Ok_0;
            &&& v.ty == TypeView::Unit
            &&& v.location == loc
            &&& v.kind matches KindView::Declaration { var_name: n, value: x } && n == var_name@ && *x
                == spec_analyze(
                ctx,
                l,
                value,
                in_loop,
                match var_type {
                    Some(t) => resolve_type(ctx, t),
                    None => None,
                },
            ).0->Ok_0
            &&& l2.contains_key(var_name@)
            &&& l2[var_name@].ty == v.kind->Declaration_value.ty
            &&& l2[var_name@].is_current_scope
            &&& (var_type matches Some(t) ==> resolve_type(ctx, t) == Some(v.kind->Declaration_value.ty))
        }),
{
    let e = Located {
        value: ParsedExpressionKind::Declaration { var_type, var_name, value: Box::new(value) },
        location: loc,
    };
    reveal_with_fuel(spec_analyze, 1);
    reveal_with_fuel(spec_analyze_declaration, 1);
    assert(spec_analyze(ctx, l, e, in_loop, hint) == spec_analyze_declaration(ctx, l, e, in_loop));
}

#[verifier::rlimit(60)]
#[verifier::spinoff_prover]
proof fn lemma_if_dispatch(ctx: Env, l: Locals, e: ParsedExpression, in_loop: bool, hint: Option<TypeView>)
    requires
        e.value is If,
    ensures
        spec_analyze(ctx, l, e, in_loop, hint) == spec_analyze_if(ctx, l, e, in_loop),
{
    reveal_with_fuel(spec_analyze, 1);
    reveal_with_fuel(spec_analyze_if, 1);
}

#[verifier::rlimit(60)]
#[verifier::spinoff_prover]
proof fn lemma_block_dispatch(ctx: Env, l: Locals, e: ParsedExpression, in_loop: bool, hint: Option<TypeView>)
    requires
        e.value is Block,
    ensures
        spec_analyze(ctx, l, e, in_loop, hint) == spec_analyze_block(ctx, l, e, in_loop),
{
    reveal_with_fuel(spec_analyze, 1);
    reveal_with_fuel(spec_analyze_block, 1);
}

/// A conditional that is analyzed without error keeps its parts in place: the analyzed
/// condition, of type `Bool`, the then branch analyzed after it, and the else branch,
/// when written, analyzed after that. With an else branch both branches have the
/// conditional's type; without one the then branch and the conditional are of unit type.
#[verifier::rlimit(100)]
#[verifier::spinoff_prover]
pub proof fn law_if_keeps_branches(
    ctx: Env,
    l: Locals,
    condition: ParsedExpression,
    then_block: ParsedExpression,
    else_expr: Option<Box<ParsedExpression>>,
    loc: Location,
    in_loop: bool,
    hint: Option<TypeView>,
)
    requires
        spec_analyze(
            ctx,
            l,
            Located {
                value: ParsedExpressionKind::If {
                    condition: Box::new(condition),
                    then_block: Box::new(then_block),
                    else_expr,
                },
                location: loc,
            },
            in_loop,
            hint,
        ).0 is Ok,
    ensures
        ({
            let v = spec_analyze(
                ctx,
                l,
                Located {
                    value: ParsedExpressionKind::If {
                        condition: Box::new(condition),
                        then_block: Box::new(then_block),
                        else_expr,
                    },
                    location: loc,
                },
                in_loop,
                hint,
            ).0->Ok_0;
            let (c, l1) = spec_analyze(ctx, l, condition, in_loop, None);
            let (t, l2) = spec_analyze(ctx, l1, then_block, in_loop, None);
            &&& c is Ok
            &&& t is Ok
            &&& c->Ok_0.ty == TypeView::Bool
            &&& v.location == loc
            &&& v.kind matches KindView::If { condition: vc, then_block: vt, else_expr: ve } && *vc == c->Ok_0 && *vt
                == t->Ok_0 && (else_expr is None <==> ve is None) && (else_expr matches Some(x) ==> ve matches Some(
                y) && *y == spec_analyze(ctx, l2, *x, in_loop, None).0->Ok_0 && y.ty == vt.ty && v.ty == vt.ty)
                && (else_expr is None ==> v.ty == TypeView::Unit && vt.ty == TypeView::Unit)
        }),
{
    let e = Located {
        value: ParsedExpressionKind::If { condition: Box::new(condition), then_block: Box::new(then_block), else_expr },
        location: loc,
    };
    lemma_if_dispatch(ctx, l, e, in_loop, hint);
    reveal_with_fuel(spec_analyze_if, 1);
    reveal_with_fuel(spec_analyze, 1);
    reveal_with_fuel(spec_analyze_opt, 1);
}

proof fn lemma_seq_length(ctx: Env, l: Locals, s: Seq<ParsedExpression>, n: nat, in_loop: bool)
    requires
        n <= s.len(),
        spec_analyze_seq(ctx, l, s, n, in_loop).0 is Ok,
    ensures
        spec_analyze_seq(ctx, l, s, n, in_loop).0->Ok_0.len() == n,
    decreases n,
{
    reveal_with_fuel(spec_analyze_seq, 1);
    if n > 0 {
        lemma_seq_length(ctx, l, s, (n - 1) as nat, in_loop);
    }
}

/// A block that is analyzed without error keeps whether it gives a value and has one
/// analyzed expression for each written one; it gives the type of its last expression
/// when it gives a value and has one, and unit otherwise.
#[verifier::rlimit(100)]
#[verifier::spinoff_prover]
pub proof fn law_block_keeps_shape(
    ctx: Env,
    l: Locals,
    expressions: Vec<ParsedExpression>,
    returns_value: bool,
    loc: Location,
    in_loop: bool,
    hint: Option<TypeView>,
)
    requires
        spec_analyze(
            ctx,
            l,
            Located { value: ParsedExpressionKind::Block { expressions, returns_value }, location: loc },
            in_loop,
            hint,
        ).0 is Ok,
    ensures
        ({
            let v = spec_analyze(
                ctx,
                l,
                Located { value: ParsedExpressionKind::Block { expressions, returns_value }, location: loc },
                in_loop,
                hint,
            ).0->Ok_0;
            &&& v.location == loc
            &&& v.kind matches KindView::Block { expressions: vs, returns_value: r } && r == returns_value
                && vs.len() == expressions@.len() && v.ty == (if returns_value && vs.len() > 0 {
                vs.last().ty
            } else {
                TypeView::Unit
            })
        }),
{
    let e = Located { value: ParsedExpressionKind::Block { expressions, returns_value }, location: loc };
    lemma_block_dispatch(ctx, l, e, in_loop, hint);
    reveal_with_fuel(spec_analyze_block, 1);
    reveal_with_fuel(spec_analyze_seq, 1);
    lemma_seq_length(
        ctx,
        crate::analyzer_context::leave_scope(l),
        expressions@,
        expressions@.len(),
        in_loop,
    );
}

} // verus!
