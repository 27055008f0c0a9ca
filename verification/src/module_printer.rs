use vstd::prelude::*;
use vstd::string::StringExecFns;
use crate::analyzed_print_spec::larger;
use crate::parsed_expression::Located;
use crate::parsed_program::{
    ParsedEnumDefinition, ParsedFunction, ParsedFunctionSignature, ParsedImport, ParsedModule,
    ParsedStructDefinition, ParsedTraitDefinition, ParsedTraitImplementation, ParsedTypeAlias,
};
use crate::parsed_text::{append_generic_id, append_name_list, append_parsed_type, append_path};
use crate::printer::Printer;
use crate::text::{append_i64, text};
use crate::tree_print_spec::{
    alias_line, aliases_lines, enum_lines, enums_lines, function_depth, function_lines,
    functions_depth, functions_lines, import_lines, imports_lines, module_depth, module_lines,
    signature_lines, signatures_lines, struct_lines, structs_lines, trait_definition_lines,
    trait_definitions_lines, trait_impl_lines, trait_impls_depth, trait_impls_lines,
};
use crate::tree_printer::print_expression;

verus! {

proof fn lemma_functions_depth(s: Seq<Located<ParsedFunction>>, i: int)
    requires
        0 <= i < s.len(),
    ensures
        function_depth(s[i].value) <= functions_depth(s),
    decreases s.len(),
{
    if i < s.len() - 1 {
        lemma_functions_depth(s.drop_last(), i);
    }
}

proof fn lemma_trait_impls_depth(s: Seq<Located<ParsedTraitImplementation>>, i: int)
    requires
        0 <= i < s.len(),
    ensures
        1 + functions_depth(s[i].value.functions@) <= trait_impls_depth(s),
    decreases s.len(),
{
    if i < s.len() - 1 {
        lemma_trait_impls_depth(s.drop_last(), i);
    }
}

/// Prints a function signature: name and generic parameters, each parameter one level
/// deeper, then the return type.
pub fn print_function_signature(printer: &mut Printer, signature: &ParsedFunctionSignature)
    requires
        old(printer).has_room(1),
    ensures
        final(printer).lines() == old(printer).lines() + signature_lines(*signature, old(printer).level()),
        final(printer).level() == old(printer).level(),
{
    let ghost start = printer.lines();
    let ghost k = printer.level();
    let mut line = text("fn ");
    line.append(signature.function_name.as_str());
    line.append("<");
    append_name_list(&mut line, &signature.generic_params);
    line.append(">(");
    printer.add_line(line);
    printer.indent();
    let ghost first = printer.lines();
    let ghost params = Seq::new(
        signature.params@.len(),
        |i: int| (k + 1, signature.params@[i].1@ + ": "@ + crate::parsed_text::parsed_type_text(signature.params@[i].0.value)),
    );
    let mut i: usize = 0;
    while i < signature.params.len()
        invariant
            i <= signature.params@.len(),
            printer.level() == k + 1,
            params == Seq::new(
                signature.params@.len(),
                |i: int| (k + 1, signature.params@[i].1@ + ": "@ + crate::parsed_text::parsed_type_text(signature.params@[i].0.value)),
            ),
            printer.lines() == first + params.take(i as int),
        decreases signature.params@.len() - i,
    {
        let mut line = signature.params[i].1.clone();
        line.append(": ");
        append_parsed_type(&mut line, &signature.params[i].0.value);
        printer.add_line(line);
        proof {
            assert(params.take((i + 1) as int) =~= params.take(i as int).push(params[i as int]));
        }
        i += 1;
    }
    printer.dedent();
    let mut last = text(") -> ");
    append_parsed_type(&mut last, &signature.return_type.value);
    printer.add_line(last);
    proof {
        assert(params.take(signature.params@.len() as int) =~= params);
        assert(printer.lines() =~= start + signature_lines(*signature, k));
    }
}

/// Prints a function: its signature, then its body.
pub fn print_function(printer: &mut Printer, function: &ParsedFunction)
    requires
        old(printer).has_room(function_depth(*function)),
    ensures
        final(printer).lines() == old(printer).lines() + function_lines(*function, old(printer).level()),
        final(printer).level() == old(printer).level(),
{
    print_function_signature(printer, &function.signature);
    print_expression(printer, &function.body);
    proof {
        assert(printer.lines() =~= old(printer).lines() + function_lines(*function, old(printer).level()));
    }
}

/// Prints functions one after the other.
fn print_functions(printer: &mut Printer, functions: &Vec<Located<ParsedFunction>>)
    requires
        old(printer).has_room(functions_depth(functions@)),
    ensures
        final(printer).lines() == old(printer).lines() + functions_lines(functions@, old(printer).level()),
        final(printer).level() == old(printer).level(),
{
    let ghost start = printer.lines();
    let ghost k = printer.level();
    let ghost s = functions@;
    proof {
        assert(s.take(0) =~= Seq::<Located<ParsedFunction>>::empty());
        assert(start + functions_lines(s.take(0), k) =~= start);
    }
    let mut i: usize = 0;
    while i < functions.len()
        invariant
            i <= functions@.len(),
            s == functions@,
            k == printer.level(),
            k + functions_depth(s) <= usize::MAX,
            printer.lines() == start + functions_lines(s.take(i as int), k),
        decreases functions@.len() - i,
    {
        proof {
            lemma_functions_depth(s, i as int);
        }
        print_function(printer, &functions[i].value);
        proof {
            let t = s.take((i + 1) as int);
            assert(t.drop_last() =~= s.take(i as int));
            assert(printer.lines() =~= start + functions_lines(t, k));
        }
        i += 1;
    }
    proof {
        assert(s.take(functions@.len() as int) =~= s);
    }
}

/// Prints a struct declaration: its name, then each field one level deeper.
pub fn print_struct_definition(printer: &mut Printer, struct_def: &ParsedStructDefinition)
    requires
        old(printer).has_room(1),
    ensures
        final(printer).lines() == old(printer).lines() + struct_lines(*struct_def, old(printer).level()),
        final(printer).level() == old(printer).level(),
{
    let ghost start = printer.lines();
    let ghost k = printer.level();
    let mut line = text("struct ");
    line.append(struct_def.struct_name.as_str());
    line.append(" {");
    printer.add_line(line);
    printer.indent();
    let ghost first = printer.lines();
    let ghost fields = Seq::new(
        struct_def.fields@.len(),
        |i: int| (k + 1, struct_def.fields@[i].0@ + ": "@ + crate::parsed_text::parsed_type_text(struct_def.fields@[i].1.value) + ","@),
    );
    let mut i: usize = 0;
    while i < struct_def.fields.len()
        invariant
            i <= struct_def.fields@.len(),
            printer.level() == k + 1,
            fields == Seq::new(
                struct_def.fields@.len(),
                |i: int| (k + 1, struct_def.fields@[i].0@ + ": "@ + crate::parsed_text::parsed_type_text(struct_def.fields@[i].1.value) + ","@),
            ),
            printer.lines() == first + fields.take(i as int),
        decreases struct_def.fields@.len() - i,
    {
        let mut line = struct_def.fields[i].0.clone();
        line.append(": ");
        append_parsed_type(&mut line, &struct_def.fields[i].1.value);
        line.append(",");
        printer.add_line(line);
        proof {
            assert(fields.take((i + 1) as int) =~= fields.take(i as int).push(fields[i as int]));
        }
        i += 1;
    }
    printer.dedent();
    printer.add_line(text("}"));
    proof {
        assert(fields.take(struct_def.fields@.len() as int) =~= fields);
        assert(printer.lines() =~= start + struct_lines(*struct_def, k));
    }
}

/// Prints a trait declaration: its name and generics, then each signature one level
/// deeper.
pub fn print_trait_definition(printer: &mut Printer, trait_def: &ParsedTraitDefinition)
    requires
        old(printer).has_room(2),
    ensures
        final(printer).lines() == old(printer).lines() + trait_definition_lines(*trait_def, old(printer).level()),
        final(printer).level() == old(printer).level(),
{
    let ghost start = printer.lines();
    let ghost k = printer.level();
    let mut line = text("trait ");
    line.append(trait_def.trait_name.as_str());
    line.append("<");
    append_name_list(&mut line, &trait_def.generics);
    line.append("> {");
    printer.add_line(line);
    printer.indent();
    let ghost first = printer.lines();
    let ghost s = trait_def.functions@;
    proof {
        assert(s.take(0) =~= Seq::<Located<ParsedFunctionSignature>>::empty());
        assert(first + signatures_lines(s.take(0), k + 1) =~= first);
    }
    let mut i: usize = 0;
    while i < trait_def.functions.len()
        invariant
            i <= trait_def.functions@.len(),
            s == trait_def.functions@,
            printer.level() == k + 1,
            k + 2 <= usize::MAX,
            printer.lines() == first + signatures_lines(s.take(i as int), k + 1),
        decreases trait_def.functions@.len() - i,
    {
        print_function_signature(printer, &trait_def.functions[i].value);
        proof {
            let t = s.take((i + 1) as int);
            assert(t.drop_last() =~= s.take(i as int));
            assert(printer.lines() =~= first + signatures_lines(t, k + 1));
        }
        i += 1;
    }
    printer.dedent();
    printer.add_line(text("}"));
    proof {
        assert(s.take(trait_def.functions@.len() as int) =~= s);
        assert(printer.lines() =~= start + trait_definition_lines(*trait_def, k));
    }
}

/// Prints a trait implementation: the trait and the type, then each function one level
/// deeper.
pub fn print_trait_impl(printer: &mut Printer, trait_impl: &ParsedTraitImplementation)
    requires
        old(printer).has_room(1 + functions_depth(trait_impl.functions@)),
    ensures
        final(printer).lines() == old(printer).lines() + trait_impl_lines(*trait_impl, old(printer).level()),
        final(printer).level() == old(printer).level(),
{
    let ghost start = printer.lines();
    let ghost k = printer.level();
    let mut line = text("impl ");
    append_generic_id(&mut line, &trait_impl.trait_id);
    line.append(" for ");
    append_parsed_type(&mut line, &trait_impl.for_type.value);
    line.append(" {");
    printer.add_line(line);
    printer.indent();
    print_functions(printer, &trait_impl.functions);
    printer.dedent();
    printer.add_line(text("}"));
    proof {
        assert(printer.lines() =~= start + trait_impl_lines(*trait_impl, k));
    }
}

/// Prints the imports of a module.
fn print_imports(printer: &mut Printer, imports: &Vec<Located<ParsedImport>>)
    ensures
        final(printer).lines() == old(printer).lines() + imports_lines(imports@, old(printer).level()),
        final(printer).level() == old(printer).level(),
{
    let ghost start = printer.lines();
    let ghost k = printer.level();
    let ghost s = imports@;
    proof {
        assert(s.take(0) =~= Seq::<Located<ParsedImport>>::empty());
        assert(start + imports_lines(s.take(0), k) =~= start);
    }
    let mut i: usize = 0;
    while i < imports.len()
        invariant
            i <= imports@.len(),
            s == imports@,
            k == printer.level(),
            printer.lines() == start + imports_lines(s.take(i as int), k),
        decreases imports@.len() - i,
    {
        let import = &imports[i].value;
        let ghost before = printer.lines();
        match &import.imported_objects {
            Some(objects) => {
                let ghost lines = import_lines(*import, k);
                let mut n: usize = 0;
                while n < objects.len()
                    invariant
                        n <= objects@.len(),
                        k == printer.level(),
                        import.imported_objects == Some(*objects),
                        lines == import_lines(*import, k),
                        printer.lines() == before + lines.take(n as int),
                    decreases objects@.len() - n,
                {
                    let mut line = text("Import(");
                    line.append(objects[n].as_str());
                    line.append(", ");
                    append_path(&mut line, &import.module_id.path);
                    line.append(")");
                    printer.add_line(line);
                    proof {
                        assert(lines.take((n + 1) as int) =~= lines.take(n as int).push(lines[n as int]));
                    }
                    n += 1;
                }
                proof {
                    assert(lines.take(objects@.len() as int) =~= lines);
                }
            },
            None => {
                let mut line = text("Import(*) from ");
                append_path(&mut line, &import.module_id.path);
                printer.add_line(line);
            },
        }
        proof {
            let t = s.take((i + 1) as int);
            assert(t.drop_last() =~= s.take(i as int));
            assert(printer.lines() =~= start + imports_lines(t, k));
        }
        i += 1;
    }
    proof {
        assert(s.take(imports@.len() as int) =~= s);
    }
}

/// Prints the struct declarations of a module.
fn print_structs(printer: &mut Printer, structs: &Vec<Located<ParsedStructDefinition>>)
    requires
        old(printer).has_room(1),
    ensures
        final(printer).lines() == old(printer).lines() + structs_lines(structs@, old(printer).level()),
        final(printer).level() == old(printer).level(),
{
    let ghost start = printer.lines();
    let ghost k = printer.level();
    let ghost s = structs@;
    proof {
        assert(s.take(0) =~= Seq::<Located<ParsedStructDefinition>>::empty());
        assert(start + structs_lines(s.take(0), k) =~= start);
    }
    let mut i: usize = 0;
    while i < structs.len()
        invariant
            i <= structs@.len(),
            s == structs@,
            k == printer.level(),
            k + 1 <= usize::MAX,
            printer.lines() == start + structs_lines(s.take(i as int), k),
        decreases structs@.len() - i,
    {
        print_struct_definition(printer, &structs[i].value);
        proof {
            let t = s.take((i + 1) as int);
            assert(t.drop_last() =~= s.take(i as int));
            assert(printer.lines() =~= start + structs_lines(t, k));
        }
        i += 1;
    }
    proof {
        assert(s.take(structs@.len() as int) =~= s);
    }
}

/// Prints the type aliases of a module.
fn print_aliases(printer: &mut Printer, aliases: &Vec<Located<ParsedTypeAlias>>)
    ensures
        final(printer).lines() == old(printer).lines() + aliases_lines(aliases@, old(printer).level()),
        final(printer).level() == old(printer).level(),
{
    let ghost start = printer.lines();
    let ghost k = printer.level();
    let ghost all = aliases_lines(aliases@, k);
    let mut i: usize = 0;
    while i < aliases.len()
        invariant
            i <= aliases@.len(),
            k == printer.level(),
            all == aliases_lines(aliases@, k),
            printer.lines() == start + all.take(i as int),
        decreases aliases@.len() - i,
    {
        let mut line = text("TypeAlias(");
        line.append(aliases[i].value.alias.as_str());
        line.append(", ");
        append_parsed_type(&mut line, &aliases[i].value.aliased_type.value);
        line.append(")");
        printer.add_line(line);
        proof {
            assert(all[i as int] == alias_line(aliases@[i as int].value, k));
            assert(all.take((i + 1) as int) =~= all.take(i as int).push(all[i as int]));
        }
        i += 1;
    }
    proof {
        assert(all.take(aliases@.len() as int) =~= all);
    }
}

/// Prints the enum declarations of a module.
fn print_enums(printer: &mut Printer, enums: &Vec<Located<ParsedEnumDefinition>>)
    requires
        old(printer).has_room(1),
    ensures
        final(printer).lines() == old(printer).lines() + enums_lines(enums@, old(printer).level()),
        final(printer).level() == old(printer).level(),
{
    let ghost start = printer.lines();
    let ghost k = printer.level();
    let ghost s = enums@;
    proof {
        assert(s.take(0) =~= Seq::<Located<ParsedEnumDefinition>>::empty());
        assert(start + enums_lines(s.take(0), k) =~= start);
    }
    let mut i: usize = 0;
    while i < enums.len()
        invariant
            i <= enums@.len(),
            s == enums@,
            k == printer.level(),
            k + 1 <= usize::MAX,
            printer.lines() == start + enums_lines(s.take(i as int), k),
        decreases enums@.len() - i,
    {
        let enum_def = &enums[i].value;
        let ghost before = printer.lines();
        let mut line = text("Enum(");
        line.append(enum_def.enum_name.as_str());
        line.append(")");
        printer.add_line(line);
        printer.indent();
        let ghost first = printer.lines();
        let ghost lines = enum_lines(*enum_def, k);
        let mut n: usize = 0;
        while n < enum_def.variants.len()
            invariant
                n <= enum_def.variants@.len(),
                printer.level() == k + 1,
                lines == enum_lines(*enum_def, k),
                printer.lines() == first + lines.subrange(1, n + 1),
            decreases enum_def.variants@.len() - n,
        {
            let mut line = enum_def.variants[n].0.clone();
            line.append(": ");
            append_i64(&mut line, enum_def.variants[n].1);
            printer.add_line(line);
            proof {
                assert(lines.subrange(1, n + 2) =~= lines.subrange(1, n + 1).push(lines[n + 1]));
            }
            n += 1;
        }
        printer.dedent();
        proof {
            assert(before.push(lines[0]) == first);
            assert(before + lines =~= first + lines.subrange(1, lines.len() as int));
            let t = s.take((i + 1) as int);
            assert(t.drop_last() =~= s.take(i as int));
            assert(printer.lines() =~= start + enums_lines(t, k));
        }
        i += 1;
    }
    proof {
        assert(s.take(enums@.len() as int) =~= s);
    }
}

/// Prints the trait declarations of a module.
fn print_traits(printer: &mut Printer, traits: &Vec<Located<ParsedTraitDefinition>>)
    requires
        old(printer).has_room(2),
    ensures
        final(printer).lines() == old(printer).lines() + trait_definitions_lines(traits@, old(printer).level()),
        final(printer).level() == old(printer).level(),
{
    let ghost start = printer.lines();
    let ghost k = printer.level();
    let ghost s = traits@;
    proof {
        assert(s.take(0) =~= Seq::<Located<ParsedTraitDefinition>>::empty());
        assert(start + trait_definitions_lines(s.take(0), k) =~= start);
    }
    let mut i: usize = 0;
    while i < traits.len()
        invariant
            i <= traits@.len(),
            s == traits@,
            k == printer.level(),
            k + 2 <= usize::MAX,
            printer.lines() == start + trait_definitions_lines(s.take(i as int), k),
        decreases traits@.len() - i,
    {
        print_trait_definition(printer, &traits[i].value);
        proof {
            let t = s.take((i + 1) as int);
            assert(t.drop_last() =~= s.take(i as int));
            assert(printer.lines() =~= start + trait_definitions_lines(t, k));
        }
        i += 1;
    }
    proof {
        assert(s.take(traits@.len() as int) =~= s);
    }
}

/// Prints the trait implementations of a module.
fn print_trait_impls(printer: &mut Printer, impls: &Vec<Located<ParsedTraitImplementation>>)
    requires
        old(printer).has_room(trait_impls_depth(impls@)),
    ensures
        final(printer).lines() == old(printer).lines() + trait_impls_lines(impls@, old(printer).level()),
        final(printer).level() == old(printer).level(),
{
    let ghost start = printer.lines();
    let ghost k = printer.level();
    let ghost s = impls@;
    proof {
        assert(s.take(0) =~= Seq::<Located<ParsedTraitImplementation>>::empty());
        assert(start + trait_impls_lines(s.take(0), k) =~= start);
    }
    let mut i: usize = 0;
    while i < impls.len()
        invariant
            i <= impls@.len(),
            s == impls@,
            k == printer.level(),
            k + trait_impls_depth(s) <= usize::MAX,
            printer.lines() == start + trait_impls_lines(s.take(i as int), k),
        decreases impls@.len() - i,
    {
        proof {
            lemma_trait_impls_depth(s, i as int);
        }
        print_trait_impl(printer, &impls[i].value);
        proof {
            let t = s.take((i + 1) as int);
            assert(t.drop_last() =~= s.take(i as int));
            assert(printer.lines() =~= start + trait_impls_lines(t, k));
        }
        i += 1;
    }
    proof {
        assert(s.take(impls@.len() as int) =~= s);
    }
}

/// Prints a module: its path, its imports, then its structs, type aliases, enums, traits,
/// trait implementations and functions.
pub fn print_module(printer: &mut Printer, module: &ParsedModule)
    requires
        old(printer).has_room(module_depth(*module)),
    ensures
        final(printer).lines() == old(printer).lines() + module_lines(*module, old(printer).level()),
        final(printer).level() == old(printer).level(),
{
    let ghost start = printer.lines();
    let ghost k = printer.level();
    let mut line = text("Module(");
    append_path(&mut line, &module.module_id.path);
    line.append(")");
    printer.add_line(line);
    print_imports(printer, &module.imports);
    print_structs(printer, &module.struct_definitions);
    print_aliases(printer, &module.type_aliases);
    print_enums(printer, &module.enums);
    print_traits(printer, &module.trait_definitions);
    print_trait_impls(printer, &module.trait_implementations);
    print_functions(printer, &module.functions);
    proof {
        assert(printer.lines() =~= start + module_lines(*module, k));
    }
}

} // verus!
