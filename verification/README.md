# toycc

Front-end pieces of a small compiler and the memory of its virtual machine, written in
Verus with their behaviour stated as contracts and proved.

## Layout

- `src/` is the verified library.
  - `syntax_tree`: the abstract syntax of the first language version (types and their
    sizes, literals, the table of assignment operators).
  - `memory`: byte-addressed memory, registers and flags of the virtual machine, with
    little-endian reads and writes; `le_value`, `le_encode` and `replace_range` are the
    model the contracts speak in, and the `law_*` proofs show that reads give back what
    writes stored.
  - `parsed_expression`, `parsed_program`, `resolved_types`, `resolved_functions`,
    `analyzed_type`, `analyzed_expression`, `analyzer_context`: the program
    representations before and after analysis.
  - `analysis_spec` defines expression analysis as a spec function (`spec_analyze`);
    `expression_analyzer::analyze_expression` and the modules it is split into
    (`*_analysis`, `analysis_steps`, `analysis_parts`, `break_check`, `callee_analysis`)
    are proved to compute exactly that. `analysis_laws`, `break_laws` and `type_laws` hold properties of the analysis.
  - `printer` is the line printer; `analyzed_print_spec` and `tree_print_spec` give the
    lines that printing an analyzed expression or a parse tree produces, and the printer
    modules are proved to produce exactly them. `text`, `escape`, `analyzed_text` and
    `parsed_text` render numbers, strings and types; `print_laws` holds properties of the
    printed lines.
  - `wf_check`, `print_depth` and `tree_depth_check` let a caller test the preconditions
    of the analyzer and of the printers.
- `tests/` exercises the library on concrete inputs.
- `app/` writes printed programs to files, prints the virtual machine's registers and
  stack, builds the assignment-operator map and reports analysis errors through `anyhow`.
