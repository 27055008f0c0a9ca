use vstd::prelude::*;
use vstd::string::StringExecFns;
use crate::analyzed_print_spec::larger;
use crate::parsed_expression::{ParsedExpression, ParsedExpressionKind};
use crate::parsed_text::{
    append_generic_id, append_parsed_binary, append_parsed_literal, append_parsed_type,
    append_parsed_unary,
};
use crate::printer::Printer;
use crate::text::text;
use crate::tree_print_spec::{
    tree_all_depth, tree_all_lines, tree_depth, tree_fields_depth, tree_fields_lines,
    tree_inner_depth, tree_lines, tree_opt_depth, tree_opt_lines,
};
use crate::tree_printer::print_expression;

verus! {

proof fn lemma_all_depth(s: Seq<ParsedExpression>, i: int)
    requires
        0 <= i < s.len(),
    ensures
        tree_depth(s[i]) <= tree_all_depth(s),
    decreases s.len(),
{
    if i < s.len() - 1 {
        lemma_all_depth(s.drop_last(), i);
    }
}

proof fn lemma_fields_depth(s: Seq<(String, ParsedExpression)>, i: int)
    requires
        0 <= i < s.len(),
    ensures
        tree_depth(s[i].1) <= tree_fields_depth(s),
    decreases s.len(),
{
    if i < s.len() - 1 {
        lemma_fields_depth(s.drop_last(), i);
    }
}

/// Prints expressions one after the other.
pub fn print_all(printer: &mut Printer, expressions: &Vec<ParsedExpression>)
    requires
        old(printer).has_room(tree_all_depth(expressions@)),
    ensures
        final(printer).lines() == old(printer).lines() + tree_all_lines(expressions@, old(printer).level()),
        final(printer).level() == old(printer).level(),
    decreases expressions, 0nat,
{
    let ghost start = printer.lines();
    let ghost k = printer.level();
    let ghost s = expressions@;
    proof {
        assert(s.take(0) =~= Seq::<ParsedExpression>::empty());
        assert(start + tree_all_lines(s.take(0), k) =~= start);
    }
    let mut i: usize = 0;
    while i < expressions.len()
        invariant
            i <= expressions@.len(),
            s == expressions@,
            k == printer.level(),
            k + tree_all_depth(s) <= usize::MAX,
            printer.lines() == start + tree_all_lines(s.take(i as int), k),
        decreases expressions@.len() - i,
    {
        proof {
            lemma_all_depth(s, i as int);
            assert(decreases_to!(expressions => expressions@[i as int]));
        }
        print_expression(printer, &expressions[i]);
        proof {
            let t = s.take((i + 1) as int);
            assert(t.drop_last() =~= s.take(i as int));
            assert(printer.lines() =~= start + tree_all_lines(t, k));
        }
        i += 1;
    }
    proof {
        assert(s.take(expressions@.len() as int) =~= s);
    }
}

/// Prints a part when there is one, at the current level.
pub fn print_optional(printer: &mut Printer, x: &Option<Box<ParsedExpression>>)
    requires
        old(printer).has_room(tree_inner_depth(*x)),
    ensures
        final(printer).lines() == old(printer).lines() + tree_opt_lines(*x, old(printer).level()),
        final(printer).level() == old(printer).level(),
    decreases x, 2nat,
{
    match x {
        Some(inner) => {
            print_expression(printer, inner);
        },
        None => {
            assert(printer.lines() =~= old(printer).lines() + tree_opt_lines(*x, old(printer).level()));
        },
    }
}

/// Prints a part when there is one, one level deeper.
pub fn print_nested_optional(printer: &mut Printer, x: &Option<Box<ParsedExpression>>)
    requires
        old(printer).has_room(tree_opt_depth(*x)),
    ensures
        final(printer).lines() == old(printer).lines() + tree_opt_lines(*x, old(printer).level() + 1),
        final(printer).level() == old(printer).level(),
    decreases x, 2nat,
{
    match x {
        Some(inner) => {
            printer.indent();
            print_expression(printer, inner);
            printer.dedent();
        },
        None => {
            assert(printer.lines() =~= old(printer).lines() + tree_opt_lines(*x, old(printer).level() + 1));
        },
    }
}

/// Prints struct fields: each field's name, then its value.
pub fn print_fields(printer: &mut Printer, fields: &Vec<(String, ParsedExpression)>)
    requires
        old(printer).has_room(tree_fields_depth(fields@)),
    ensures
        final(printer).lines() == old(printer).lines() + tree_fields_lines(fields@, old(printer).level()),
        final(printer).level() == old(printer).level(),
    decreases fields, 0nat,
{
    let ghost start = printer.lines();
    let ghost k = printer.level();
    let ghost s = fields@;
    proof {
        assert(s.take(0) =~= Seq::<(String, ParsedExpression)>::empty());
        assert(start + tree_fields_lines(s.take(0), k) =~= start);
    }
    let mut i: usize = 0;
    while i < fields.len()
        invariant
            i <= fields@.len(),
            s == fields@,
            k == printer.level(),
            k + tree_fields_depth(s) <= usize::MAX,
            printer.lines() == start + tree_fields_lines(s.take(i as int), k),
        decreases fields@.len() - i,
    {
        proof {
            lemma_fields_depth(s, i as int);
            assert(decreases_to!(fields => fields@[i as int].1));
        }
        let mut line = fields[i].0.clone();
        line.append(": ");
        printer.add_line(line);
        print_expression(printer, &fields[i].1);
        proof {
            let t = s.take((i + 1) as int);
            assert(t.drop_last() =~= s.take(i as int));
            assert(printer.lines() =~= start + tree_fields_lines(t, k));
        }
        i += 1;
    }
    proof {
        assert(s.take(fields@.len() as int) =~= s);
    }
}

} // verus!
