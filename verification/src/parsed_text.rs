use vstd::prelude::*;
use crate::escape::{append_escaped, escaped};
use vstd::string::StringExecFns;
use crate::analyzed_text::{
    append_comparison, append_logic, append_math_binary, append_math_unary, comparison_text,
    logic_text, math_binary_text, math_unary_text,
};
use crate::parsed_expression::{
    BinaryOp, ParsedGenericId, ParsedLiteral, ParsedType, ParsedTypeValue, ScopeId, UnaryOp,
};
use crate::text::{append_bool, append_i64, append_u64, bool_text, int_text, nat_text};

verus! {

/// The text of a written type: its variant, with its parts in brackets.
pub open spec fn parsed_type_text(t: ParsedTypeValue) -> Seq<char>
    decreases t,
{
    match t {
        ParsedTypeValue::Unit => "Unit"@,
        ParsedTypeValue::Bool => "Bool"@,
        ParsedTypeValue::Char => "Char"@,
        ParsedTypeValue::Integer(n) => "Integer("@ + nat_text(n as nat) + ")"@,
        ParsedTypeValue::Pointer(inner) => "Pointer("@ + parsed_type_text(*inner) + ")"@,
        ParsedTypeValue::Named { name, generic_args } => "Named { name: \""@ + escaped(name@)
            + "\", generic_args: ["@ + parsed_types_text(generic_args@) + "] }"@,
        ParsedTypeValue::Function { return_type, params } => "Function { return_type: "@
            + parsed_type_text(*return_type) + ", params: ["@ + parsed_types_text(params@) + "] }"@,
    }
}

/// The texts of written types, separated by `", "`.
pub open spec fn parsed_types_text(s: Seq<ParsedTypeValue>) -> Seq<char>
    decreases s,
{
    if s.len() == 0 {
        Seq::empty()
    } else if s.len() == 1 {
        parsed_type_text(s[0])
    } else {
        parsed_types_text(s.drop_last()) + ", "@ + parsed_type_text(s.last())
    }
}

/// The text of a written type, as a new string.
pub fn parsed_type_string(t: &ParsedTypeValue) -> (s: String)
    ensures
        s@ == parsed_type_text(*t),
{
    let mut s = String::new();
    append_parsed_type(&mut s, t);
    assert(s@ =~= parsed_type_text(*t));
    s
}

pub fn append_parsed_type(out: &mut String, t: &ParsedTypeValue)
    ensures
        final(out)@ == old(out)@ + parsed_type_text(*t),
    decreases t, 1nat,
{
    match t {
        ParsedTypeValue::Unit => out.append("Unit"),
        ParsedTypeValue::Bool => out.append("Bool"),
        ParsedTypeValue::Char => out.append("Char"),
        ParsedTypeValue::Integer(n) => {
            out.append("Integer(");
            append_u64(out, *n as u64);
            out.append(")");
        },
        ParsedTypeValue::Pointer(inner) => {
            out.append("Pointer(");
            append_parsed_type(out, inner);
            out.append(")");
        },
        ParsedTypeValue::Named { name, generic_args } => {
            out.append("Named { name: \"");
            append_escaped(out, name);
            out.append("\", generic_args: [");
            append_parsed_types(out, generic_args);
            out.append("] }");
        },
        ParsedTypeValue::Function { return_type, params } => {
            out.append("Function { return_type: ");
            append_parsed_type(out, return_type);
            out.append(", params: [");
            append_parsed_types(out, params);
            out.append("] }");
        },
    }
    proof {
        assert(final(out)@ =~= old(out)@ + parsed_type_text(*t));
    }
}

pub fn append_parsed_types(out: &mut String, types: &Vec<ParsedTypeValue>)
    ensures
        final(out)@ == old(out)@ + parsed_types_text(types@),
    decreases types, 0nat,
{
    let ghost start = out@;
    proof {
        assert(types@.take(0) =~= Seq::<ParsedTypeValue>::empty());
    }
    let mut i: usize = 0;
    while i < types.len()
        invariant
            i <= types@.len(),
            out@ == start + parsed_types_text(types@.take(i as int)),
        decreases types@.len() - i,
    {
        if i > 0 {
            out.append(", ");
        }
        proof {
            assert(decreases_to!(types => types@[i as int]));
        }
        append_parsed_type(out, &types[i]);
        proof {
            let t = types@.take((i + 1) as int);
            assert(t.drop_last() =~= types@.take(i as int));
            if i == 0 {
                assert(t.len() == 1);
            }
            assert(out@ =~= start + parsed_types_text(t));
        }
        i += 1;
    }
    proof {
        assert(types@.take(types@.len() as int) =~= types@);
    }
}

/// The types written at the places of a list, without their places.
pub open spec fn located_types(s: Seq<ParsedType>) -> Seq<ParsedTypeValue> {
    Seq::new(s.len(), |i: int| s[i].value)
}

/// The texts of located types, separated by `", "`.
pub fn append_located_types(out: &mut String, types: &Vec<ParsedType>)
    ensures
        final(out)@ == old(out)@ + parsed_types_text(located_types(types@)),
{
    let ghost start = out@;
    let ghost vs = located_types(types@);
    proof {
        assert(vs.take(0) =~= Seq::<ParsedTypeValue>::empty());
    }
    let mut i: usize = 0;
    while i < types.len()
        invariant
            i <= types@.len(),
            vs == located_types(types@),
            out@ == start + parsed_types_text(vs.take(i as int)),
        decreases types@.len() - i,
    {
        if i > 0 {
            out.append(", ");
        }
        append_parsed_type(out, &types[i].value);
        proof {
            let t = vs.take((i + 1) as int);
            assert(t.drop_last() =~= vs.take(i as int));
            if i == 0 {
                assert(t.len() == 1);
            }
            assert(out@ =~= start + parsed_types_text(t));
        }
        i += 1;
    }
    proof {
        assert(vs.take(types@.len() as int) =~= vs);
    }
}

/// Names joined by `"::"`.
pub open spec fn path_text(s: Seq<String>) -> Seq<char>
    decreases s.len(),
{
    if s.len() == 0 {
        Seq::empty()
    } else if s.len() == 1 {
        s[0]@
    } else {
        path_text(s.drop_last()) + "::"@ + s.last()@
    }
}

pub fn append_path(out: &mut String, path: &Vec<String>)
    ensures
        final(out)@ == old(out)@ + path_text(path@),
{
    let ghost start = out@;
    proof {
        assert(path@.take(0) =~= Seq::<String>::empty());
    }
    let mut i: usize = 0;
    while i < path.len()
        invariant
            i <= path@.len(),
            out@ == start + path_text(path@.take(i as int)),
        decreases path@.len() - i,
    {
        if i > 0 {
            out.append("::");
        }
        out.append(path[i].as_str());
        proof {
            let t = path@.take((i + 1) as int);
            assert(t.drop_last() =~= path@.take(i as int));
            if i == 0 {
                assert(t.len() == 1);
            }
            assert(out@ =~= start + path_text(t));
        }
        i += 1;
    }
    proof {
        assert(path@.take(path@.len() as int) =~= path@);
    }
}

/// Names, each in double quotes, separated by `", "`.
pub open spec fn quoted_names_text(s: Seq<String>) -> Seq<char>
    decreases s.len(),
{
    if s.len() == 0 {
        Seq::empty()
    } else if s.len() == 1 {
        "\""@ + escaped(s[0]@) + "\""@
    } else {
        quoted_names_text(s.drop_last()) + ", \""@ + escaped(s.last()@) + "\""@
    }
}

/// A list of names, each in double quotes, in square brackets.
pub open spec fn name_list_text(s: Seq<String>) -> Seq<char> {
    "["@ + quoted_names_text(s) + "]"@
}

pub fn append_name_list(out: &mut String, names: &Vec<String>)
    ensures
        final(out)@ == old(out)@ + name_list_text(names@),
{
    out.append("[");
    let ghost start = out@;
    proof {
        assert(names@.take(0) =~= Seq::<String>::empty());
    }
    let mut i: usize = 0;
    while i < names.len()
        invariant
            i <= names@.len(),
            out@ == start + quoted_names_text(names@.take(i as int)),
        decreases names@.len() - i,
    {
        if i > 0 {
            out.append(", \"");
        } else {
            out.append("\"");
        }
        append_escaped(out, &names[i]);
        out.append("\"");
        proof {
            let t = names@.take((i + 1) as int);
            assert(t.drop_last() =~= names@.take(i as int));
            if i == 0 {
                assert(t.len() == 1);
            }
            assert(out@ =~= start + quoted_names_text(t));
        }
        i += 1;
    }
    proof {
        assert(names@.take(names@.len() as int) =~= names@);
    }
    out.append("]");
    proof {
        assert(final(out)@ =~= old(out)@ + name_list_text(names@));
    }
}

/// The text of a name as written: qualified by its module path unless it is local to
/// the current module.
pub open spec fn scope_text(id: ScopeId) -> Seq<char> {
    if id.is_module_local {
        id.item_id.item_name@
    } else {
        path_text(id.item_id.module_id.path@) + "::"@ + id.item_id.item_name@
    }
}

/// The text of a name with its explicit generic arguments.
pub open spec fn generic_id_text(g: ParsedGenericId) -> Seq<char> {
    scope_text(g.id) + if g.generic_args@.len() > 0 {
        "<"@ + parsed_types_text(located_types(g.generic_args@)) + ">"@
    } else {
        Seq::empty()
    }
}

/// The text of a name with its generic arguments, as a new string.
pub fn generic_id_string(g: &ParsedGenericId) -> (s: String)
    ensures
        s@ == generic_id_text(*g),
{
    let mut s = String::new();
    append_generic_id(&mut s, g);
    assert(s@ =~= generic_id_text(*g));
    s
}

pub fn append_generic_id(out: &mut String, g: &ParsedGenericId)
    ensures
        final(out)@ == old(out)@ + generic_id_text(*g),
{
    if !g.id.is_module_local {
        append_path(out, &g.id.item_id.module_id.path);
        out.append("::");
    }
    out.append(g.id.item_id.item_name.as_str());
    if g.generic_args.len() > 0 {
        out.append("<");
        append_located_types(out, &g.generic_args);
        out.append(">");
    }
    proof {
        assert(final(out)@ =~= old(out)@ + generic_id_text(*g));
    }
}

/// The text of a unary operator as written.
pub open spec fn parsed_unary_text(op: UnaryOp) -> Seq<char> {
    match op {
        UnaryOp::Math(m) => "Math("@ + math_unary_text(m) + ")"@,
        UnaryOp::LogicalNot => "LogicalNot"@,
        UnaryOp::Borrow => "Borrow"@,
        UnaryOp::Dereference => "Dereference"@,
        UnaryOp::Increment { is_prefix } => "Increment { is_prefix: "@ + bool_text(is_prefix) + " }"@,
        UnaryOp::Decrement { is_prefix } => "Decrement { is_prefix: "@ + bool_text(is_prefix) + " }"@,
        UnaryOp::Cast(t) => "Cast("@ + parsed_type_text(t.value) + ")"@,
        UnaryOp::Member(name) => "Member(\""@ + escaped(name@) + "\")"@,
    }
}

pub fn append_parsed_unary(out: &mut String, op: &UnaryOp)
    ensures
        final(out)@ == old(out)@ + parsed_unary_text(*op),
{
    match op {
        UnaryOp::Math(m) => {
            out.append("Math(");
            append_math_unary(out, *m);
            out.append(")");
        },
        UnaryOp::LogicalNot => out.append("LogicalNot"),
        UnaryOp::Borrow => out.append("Borrow"),
        UnaryOp::Dereference => out.append("Dereference"),
        UnaryOp::Increment { is_prefix } => {
            out.append("Increment { is_prefix: ");
            append_bool(out, *is_prefix);
            out.append(" }");
        },
        UnaryOp::Decrement { is_prefix } => {
            out.append("Decrement { is_prefix: ");
            append_bool(out, *is_prefix);
            out.append(" }");
        },
        UnaryOp::Cast(t) => {
            out.append("Cast(");
            append_parsed_type(out, &t.value);
            out.append(")");
        },
        UnaryOp::Member(name) => {
            out.append("Member(\"");
            append_escaped(out, name);
            out.append("\")");
        },
    }
    proof {
        assert(final(out)@ =~= old(out)@ + parsed_unary_text(*op));
    }
}

/// The text of a binary operator as written.
pub open spec fn parsed_binary_text(op: BinaryOp) -> Seq<char> {
    match op {
        BinaryOp::Index => "Index"@,
        BinaryOp::Math(m) => "Math("@ + math_binary_text(m) + ")"@,
        BinaryOp::Logical(l) => "Logical("@ + logic_text(l) + ")"@,
        BinaryOp::Comparison(c) => "Comparison("@ + comparison_text(c) + ")"@,
        BinaryOp::Assign => "Assign"@,
        BinaryOp::MathAssign(m) => "MathAssign("@ + math_binary_text(m) + ")"@,
        BinaryOp::LogicAssign(l) => "LogicAssign("@ + logic_text(l) + ")"@,
    }
}

pub fn append_parsed_binary(out: &mut String, op: BinaryOp)
    ensures
        final(out)@ == old(out)@ + parsed_binary_text(op),
{
    match op {
        BinaryOp::Index => out.append("Index"),
        BinaryOp::Math(m) => {
            out.append("Math(");
            append_math_binary(out, m);
            out.append(")");
        },
        BinaryOp::Logical(l) => {
            out.append("Logical(");
            append_logic(out, l);
            out.append(")");
        },
        BinaryOp::Comparison(c) => {
            out.append("Comparison(");
            append_comparison(out, c);
            out.append(")");
        },
        BinaryOp::Assign => out.append("Assign"),
        BinaryOp::MathAssign(m) => {
            out.append("MathAssign(");
            append_math_binary(out, m);
            out.append(")");
        },
        BinaryOp::LogicAssign(l) => {
            out.append("LogicAssign(");
            append_logic(out, l);
            out.append(")");
        },
    }
    proof {
        assert(final(out)@ =~= old(out)@ + parsed_binary_text(op));
    }
}

/// The text of a literal as written.
pub open spec fn parsed_literal_text(l: ParsedLiteral) -> Seq<char> {
    match l {
        ParsedLiteral::Unit => "Unit"@,
        ParsedLiteral::Bool(b) => "Bool("@ + bool_text(b) + ")"@,
        ParsedLiteral::Char(c) => "Char("@ + int_text(c as int) + ")"@,
        ParsedLiteral::Integer(v) => "Integer("@ + int_text(v as int) + ")"@,
        ParsedLiteral::String(s) => "String(\""@ + escaped(s@) + "\")"@,
    }
}

pub fn append_parsed_literal(out: &mut String, l: &ParsedLiteral)
    ensures
        final(out)@ == old(out)@ + parsed_literal_text(*l),
{
    match l {
        ParsedLiteral::Unit => out.append("Unit"),
        ParsedLiteral::Bool(b) => {
            out.append("Bool(");
            append_bool(out, *b);
            out.append(")");
        },
        ParsedLiteral::Char(c) => {
            out.append("Char(");
            append_i64(out, *c as i64);
            out.append(")");
        },
        ParsedLiteral::Integer(v) => {
            out.append("Integer(");
            append_i64(out, *v);
            out.append(")");
        },
        ParsedLiteral::String(s) => {
            out.append("String(\"");
            append_escaped(out, s);
            out.append("\")");
        },
    }
    proof {
        assert(final(out)@ =~= old(out)@ + parsed_literal_text(*l));
    }
}

} // verus!
