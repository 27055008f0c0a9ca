use vstd::prelude::*;
use crate::escape::{append_escaped, escaped};
use vstd::string::StringExecFns;
use crate::analyzed_expression::{AnalyzedBinaryOp, AnalyzedLiteral, AnalyzedUnaryOp, BinaryAssignOp};
use crate::analyzed_type::{views_of, AnalyzedTypeId, GenericParam, GenericParams, TypeView};
use crate::parsed_expression::{BinaryComparisonOp, BinaryLogicOp, BinaryMathOp, UnaryMathOp};
use crate::resolved_functions::{FunctionRef, FunctionRefView};
use crate::text::{append_bool, append_i64, append_u64, bool_text, int_text, nat_text};

verus! {

/// The text of a type: its variant, with the parts it is made of in brackets.
pub open spec fn type_text(t: TypeView) -> Seq<char>
    decreases t,
{
    match t {
        TypeView::Unit => "Unit"@,
        TypeView::Bool => "Bool"@,
        TypeView::Char => "Char"@,
        TypeView::Integer(n) => "Integer("@ + nat_text(n as nat) + ")"@,
        TypeView::Pointer(inner) => "Pointer("@ + type_text(*inner) + ")"@,
        TypeView::StructType(id, args) => "StructType(StructRef { id: "@ + nat_text(id as nat)
            + ", generic_args: ["@ + types_text(args) + "] })"@,
        TypeView::EnumType(id) => "EnumType("@ + nat_text(id as nat) + ")"@,
        TypeView::FunctionType(ret, params) => "FunctionType("@ + type_text(*ret) + ", ["@
            + types_text(params) + "])"@,
        TypeView::GenericType(id) => "GenericType("@ + nat_text(id as nat) + ")"@,
    }
}

/// The texts of types, separated by `", "`.
pub open spec fn types_text(s: Seq<TypeView>) -> Seq<char>
    decreases s,
{
    if s.len() == 0 {
        Seq::empty()
    } else if s.len() == 1 {
        type_text(s[0])
    } else {
        types_text(s.drop_last()) + ", "@ + type_text(s.last())
    }
}

/// The text of a type, as a new string.
pub fn type_string(t: &AnalyzedTypeId) -> (s: String)
    ensures
        s@ == type_text(t@),
{
    let mut s = String::new();
    append_type(&mut s, t);
    assert(s@ =~= type_text(t@));
    s
}

/// Appends the text of a type.
pub fn append_type(out: &mut String, t: &AnalyzedTypeId)
    ensures
        final(out)@ == old(out)@ + type_text(t@),
    decreases t, 1nat,
{
    match t {
        AnalyzedTypeId::Unit => out.append("Unit"),
        AnalyzedTypeId::Bool => out.append("Bool"),
        AnalyzedTypeId::Char => out.append("Char"),
        AnalyzedTypeId::Integer(n) => {
            out.append("Integer(");
            append_u64(out, *n as u64);
            out.append(")");
        },
        AnalyzedTypeId::Pointer(inner) => {
            out.append("Pointer(");
            append_type(out, inner);
            out.append(")");
        },
        AnalyzedTypeId::StructType(struct_ref) => {
            out.append("StructType(StructRef { id: ");
            append_u64(out, struct_ref.id);
            out.append(", generic_args: [");
            append_types(out, &struct_ref.generic_args);
            out.append("] })");
        },
        AnalyzedTypeId::EnumType(id) => {
            out.append("EnumType(");
            append_u64(out, *id);
            out.append(")");
        },
        AnalyzedTypeId::FunctionType(ret, params) => {
            out.append("FunctionType(");
            append_type(out, ret);
            out.append(", [");
            append_types(out, params);
            out.append("])");
        },
        AnalyzedTypeId::GenericType(id) => {
            out.append("GenericType(");
            append_u64(out, *id);
            out.append(")");
        },
    }
    proof {
        assert(final(out)@ =~= old(out)@ + type_text(t@));
    }
}

/// Appends the texts of types, separated by `", "`.
pub fn append_types(out: &mut String, types: &Vec<AnalyzedTypeId>)
    ensures
        final(out)@ == old(out)@ + types_text(views_of(types@)),
    decreases types, 0nat,
{
    let ghost start = out@;
    let ghost vs = views_of(types@);
    proof {
        crate::analyzed_type::lemma_views_of(types@);
        assert(vs.take(0) =~= Seq::<TypeView>::empty());
    }
    let mut i: usize = 0;
    while i < types.len()
        invariant
            i <= types@.len(),
            vs == views_of(types@),
            vs.len() == types@.len(),
            forall|j: int| 0 <= j < types@.len() ==> #[trigger] vs[j] == types@[j]@,
            out@ == start + types_text(vs.take(i as int)),
        decreases types@.len() - i,
    {
        if i > 0 {
            out.append(", ");
        }
        proof {
            assert(decreases_to!(types => types@[i as int]));
        }
        append_type(out, &types[i]);
        proof {
            let t = vs.take((i + 1) as int);
            assert(t.drop_last() =~= vs.take(i as int));
            assert(t.last() == types@[i as int]@);
            if i == 0 {
                assert(t.len() == 1);
            }
            assert(out@ =~= start + types_text(t));
        }
        i += 1;
    }
    proof {
        assert(vs.take(types@.len() as int) =~= vs);
    }
}

pub open spec fn math_unary_text(op: UnaryMathOp) -> Seq<char> {
    match op {
        UnaryMathOp::Positive => "Positive"@,
        UnaryMathOp::Negate => "Negate"@,
        UnaryMathOp::BitwiseNot => "BitwiseNot"@,
    }
}

pub open spec fn math_binary_text(op: BinaryMathOp) -> Seq<char> {
    match op {
        BinaryMathOp::Add => "Add"@,
        BinaryMathOp::Sub => "Sub"@,
        BinaryMathOp::Mul => "Mul"@,
        BinaryMathOp::Div => "Div"@,
        BinaryMathOp::Mod => "Mod"@,
        BinaryMathOp::And => "And"@,
        BinaryMathOp::Or => "Or"@,
        BinaryMathOp::Xor => "Xor"@,
        BinaryMathOp::Shl => "Shl"@,
        BinaryMathOp::Shr => "Shr"@,
    }
}

pub open spec fn logic_text(op: BinaryLogicOp) -> Seq<char> {
    match op {
        BinaryLogicOp::And => "And"@,
        BinaryLogicOp::Or => "Or"@,
    }
}

pub open spec fn comparison_text(op: BinaryComparisonOp) -> Seq<char> {
    match op {
        BinaryComparisonOp::Equals => "Equals"@,
        BinaryComparisonOp::NotEquals => "NotEquals"@,
        BinaryComparisonOp::Less => "Less"@,
        BinaryComparisonOp::LessEquals => "LessEquals"@,
        BinaryComparisonOp::Greater => "Greater"@,
        BinaryComparisonOp::GreaterEquals => "GreaterEquals"@,
    }
}

pub fn append_math_unary(out: &mut String, op: UnaryMathOp)
    ensures
        final(out)@ == old(out)@ + math_unary_text(op),
{
    match op {
        UnaryMathOp::Positive => out.append("Positive"),
        UnaryMathOp::Negate => out.append("Negate"),
        UnaryMathOp::BitwiseNot => out.append("BitwiseNot"),
    }
}

pub fn append_math_binary(out: &mut String, op: BinaryMathOp)
    ensures
        final(out)@ == old(out)@ + math_binary_text(op),
{
    match op {
        BinaryMathOp::Add => out.append("Add"),
        BinaryMathOp::Sub => out.append("Sub"),
        BinaryMathOp::Mul => out.append("Mul"),
        BinaryMathOp::Div => out.append("Div"),
        BinaryMathOp::Mod => out.append("Mod"),
        BinaryMathOp::And => out.append("And"),
        BinaryMathOp::Or => out.append("Or"),
        BinaryMathOp::Xor => out.append("Xor"),
        BinaryMathOp::Shl => out.append("Shl"),
        BinaryMathOp::Shr => out.append("Shr"),
    }
}

pub fn append_logic(out: &mut String, op: BinaryLogicOp)
    ensures
        final(out)@ == old(out)@ + logic_text(op),
{
    match op {
        BinaryLogicOp::And => out.append("And"),
        BinaryLogicOp::Or => out.append("Or"),
    }
}

pub fn append_comparison(out: &mut String, op: BinaryComparisonOp)
    ensures
        final(out)@ == old(out)@ + comparison_text(op),
{
    match op {
        BinaryComparisonOp::Equals => out.append("Equals"),
        BinaryComparisonOp::NotEquals => out.append("NotEquals"),
        BinaryComparisonOp::Less => out.append("Less"),
        BinaryComparisonOp::LessEquals => out.append("LessEquals"),
        BinaryComparisonOp::Greater => out.append("Greater"),
        BinaryComparisonOp::GreaterEquals => out.append("GreaterEquals"),
    }
}

/// The text of a literal value.
pub open spec fn literal_text(l: AnalyzedLiteral) -> Seq<char> {
    match l {
        AnalyzedLiteral::Unit => "Unit"@,
        AnalyzedLiteral::Bool(b) => "Bool("@ + bool_text(b) + ")"@,
        AnalyzedLiteral::Char(c) => "Char("@ + int_text(c as int) + ")"@,
        AnalyzedLiteral::Integer(v) => "Integer("@ + int_text(v as int) + ")"@,
    }
}

pub fn append_literal(out: &mut String, l: AnalyzedLiteral)
    ensures
        final(out)@ == old(out)@ + literal_text(l),
{
    match l {
        AnalyzedLiteral::Unit => out.append("Unit"),
        AnalyzedLiteral::Bool(b) => {
            out.append("Bool(");
            append_bool(out, b);
            out.append(")");
        },
        AnalyzedLiteral::Char(c) => {
            out.append("Char(");
            append_i64(out, c as i64);
            out.append(")");
        },
        AnalyzedLiteral::Integer(v) => {
            out.append("Integer(");
            append_i64(out, v);
            out.append(")");
        },
    }
    proof {
        assert(final(out)@ =~= old(out)@ + literal_text(l));
    }
}

/// The text of a unary operator.
pub open spec fn unary_op_text(op: AnalyzedUnaryOp) -> Seq<char> {
    match op {
        AnalyzedUnaryOp::Math(m) => "Math("@ + math_unary_text(m) + ")"@,
        AnalyzedUnaryOp::LogicalNot => "LogicalNot"@,
        AnalyzedUnaryOp::Cast => "Cast"@,
    }
}

pub fn append_unary_op(out: &mut String, op: AnalyzedUnaryOp)
    ensures
        final(out)@ == old(out)@ + unary_op_text(op),
{
    match op {
        AnalyzedUnaryOp::Math(m) => {
            out.append("Math(");
            append_math_unary(out, m);
            out.append(")");
        },
        AnalyzedUnaryOp::LogicalNot => out.append("LogicalNot"),
        AnalyzedUnaryOp::Cast => out.append("Cast"),
    }
    proof {
        assert(final(out)@ =~= old(out)@ + unary_op_text(op));
    }
}

/// The text of a binary operator.
pub open spec fn binary_op_text(op: AnalyzedBinaryOp) -> Seq<char> {
    match op {
        AnalyzedBinaryOp::Math(m) => "Math("@ + math_binary_text(m) + ")"@,
        AnalyzedBinaryOp::Logical(l) => "Logical("@ + logic_text(l) + ")"@,
        AnalyzedBinaryOp::Comparison(c) => "Comparison("@ + comparison_text(c) + ")"@,
    }
}

pub fn append_binary_op(out: &mut String, op: AnalyzedBinaryOp)
    ensures
        final(out)@ == old(out)@ + binary_op_text(op),
{
    match op {
        AnalyzedBinaryOp::Math(m) => {
            out.append("Math(");
            append_math_binary(out, m);
            out.append(")");
        },
        AnalyzedBinaryOp::Logical(l) => {
            out.append("Logical(");
            append_logic(out, l);
            out.append(")");
        },
        AnalyzedBinaryOp::Comparison(c) => {
            out.append("Comparison(");
            append_comparison(out, c);
            out.append(")");
        },
    }
    proof {
        assert(final(out)@ =~= old(out)@ + binary_op_text(op));
    }
}

/// The text of an assignment operator.
pub open spec fn assign_op_text(op: BinaryAssignOp) -> Seq<char> {
    match op {
        BinaryAssignOp::Assign => "Assign"@,
        BinaryAssignOp::MathAssign(m) => "MathAssign("@ + math_binary_text(m) + ")"@,
        BinaryAssignOp::LogicAssign(l) => "LogicAssign("@ + logic_text(l) + ")"@,
    }
}

pub fn append_assign_op(out: &mut String, op: BinaryAssignOp)
    ensures
        final(out)@ == old(out)@ + assign_op_text(op),
{
    match op {
        BinaryAssignOp::Assign => out.append("Assign"),
        BinaryAssignOp::MathAssign(m) => {
            out.append("MathAssign(");
            append_math_binary(out, m);
            out.append(")");
        },
        BinaryAssignOp::LogicAssign(l) => {
            out.append("LogicAssign(");
            append_logic(out, l);
            out.append(")");
        },
    }
    proof {
        assert(final(out)@ =~= old(out)@ + assign_op_text(op));
    }
}

/// The decimal values of bytes, separated by `", "`.
pub open spec fn bytes_text(s: Seq<u8>) -> Seq<char>
    decreases s.len(),
{
    if s.len() == 0 {
        Seq::empty()
    } else if s.len() == 1 {
        nat_text(s[0] as nat)
    } else {
        bytes_text(s.drop_last()) + ", "@ + nat_text(s.last() as nat)
    }
}

pub fn append_bytes(out: &mut String, bytes: &Vec<u8>)
    ensures
        final(out)@ == old(out)@ + bytes_text(bytes@),
{
    let ghost start = out@;
    proof {
        assert(bytes@.take(0) =~= Seq::<u8>::empty());
    }
    let mut i: usize = 0;
    while i < bytes.len()
        invariant
            i <= bytes@.len(),
            out@ == start + bytes_text(bytes@.take(i as int)),
        decreases bytes@.len() - i,
    {
        if i > 0 {
            out.append(", ");
        }
        append_u64(out, bytes[i] as u64);
        proof {
            let t = bytes@.take((i + 1) as int);
            assert(t.drop_last() =~= bytes@.take(i as int));
            if i == 0 {
                assert(t.len() == 1);
            }
            assert(out@ =~= start + bytes_text(t));
        }
        i += 1;
    }
    proof {
        assert(bytes@.take(bytes@.len() as int) =~= bytes@);
    }
}

/// The text of a function reference.
pub open spec fn function_ref_text(f: FunctionRefView) -> Seq<char> {
    "FunctionRef { id: "@ + nat_text(f.id as nat) + ", generic_args: ["@ + types_text(f.generic_args)
        + "], arg_types: ["@ + types_text(f.arg_types) + "] }"@
}

pub fn append_function_ref(out: &mut String, f: &FunctionRef)
    ensures
        final(out)@ == old(out)@ + function_ref_text(f@),
{
    out.append("FunctionRef { id: ");
    append_u64(out, f.id);
    out.append(", generic_args: [");
    append_types(out, &f.generic_args);
    out.append("], arg_types: [");
    append_types(out, &f.arg_types);
    out.append("] }");
    proof {
        assert(final(out)@ =~= old(out)@ + function_ref_text(f@));
    }
}

/// The text of one generic parameter.
pub open spec fn generic_param_text(g: GenericParam) -> Seq<char> {
    "GenericParam { name: \""@ + escaped(g.name@) + "\", id: "@ + nat_text(g.id as nat) + " }"@
}

/// The texts of generic parameters, separated by `", "`.
pub open spec fn generic_params_list_text(s: Seq<GenericParam>) -> Seq<char>
    decreases s.len(),
{
    if s.len() == 0 {
        Seq::empty()
    } else if s.len() == 1 {
        generic_param_text(s[0])
    } else {
        generic_params_list_text(s.drop_last()) + ", "@ + generic_param_text(s.last())
    }
}

/// The text of a list of generic parameters.
pub open spec fn generic_params_text(g: GenericParams) -> Seq<char> {
    "GenericParams { params: ["@ + generic_params_list_text(g.params@) + "] }"@
}

pub fn append_generic_params(out: &mut String, g: &GenericParams)
    ensures
        final(out)@ == old(out)@ + generic_params_text(*g),
{
    out.append("GenericParams { params: [");
    let ghost start = out@;
    proof {
        assert(g.params@.take(0) =~= Seq::<GenericParam>::empty());
    }
    let mut i: usize = 0;
    while i < g.params.len()
        invariant
            i <= g.params@.len(),
            out@ == start + generic_params_list_text(g.params@.take(i as int)),
        decreases g.params@.len() - i,
    {
        if i > 0 {
            out.append(", ");
        }
        out.append("GenericParam { name: \"");
        append_escaped(out, &g.params[i].name);
        out.append("\", id: ");
        append_u64(out, g.params[i].id);
        out.append(" }");
        proof {
            let t = g.params@.take((i + 1) as int);
            assert(t.drop_last() =~= g.params@.take(i as int));
            if i == 0 {
                assert(t.len() == 1);
            }
            assert(out@ =~= start + generic_params_list_text(t));
        }
        i += 1;
    }
    proof {
        assert(g.params@.take(g.params@.len() as int) =~= g.params@);
    }
    out.append("] }");
    proof {
        assert(final(out)@ =~= old(out)@ + generic_params_text(*g));
    }
}

} // verus!
