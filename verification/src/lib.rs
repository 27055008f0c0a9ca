pub mod analyzed_type;
pub mod analyzer_error;
pub mod constants;
pub mod location;
pub mod memory;
pub mod parsed_expression;
pub mod search;
pub mod syntax_tree;
pub mod resolved_types;
pub mod resolved_functions;
pub mod analyzed_expression;
pub mod analyzer_context;
pub mod text;
pub mod escape;
pub mod analysis_spec;
pub mod break_check;
pub mod analysis_steps;
pub mod expression_analyzer;
pub mod analysis_parts;
pub mod tuple_analysis;
pub mod control_flow_analysis;
pub mod declaration_analysis;
pub mod struct_analysis;
pub mod operator_analysis;
pub mod call_analysis;
pub mod assignable_analysis;
pub mod sequence_analysis;
pub mod field_analysis;
pub mod binary_analysis;
pub mod callee_analysis;
pub mod printer;
pub mod analyzed_text;
pub mod analyzed_print_spec;
pub mod analyzed_printer;
pub mod analyzed_printer_steps;
pub mod control_printer;
pub mod value_printer;
pub mod operator_printer;
pub mod parsed_text;
pub mod parsed_program;
pub mod tree_print_spec;
pub mod tree_printer;
pub mod tree_printer_steps;
pub mod tree_control_printer;
pub mod tree_value_printer;
pub mod tree_operator_printer;
pub mod module_printer;
pub mod analysis_laws;
pub mod print_depth;
pub mod tree_depth_check;
pub mod wf_check;
pub mod type_laws;
pub mod break_laws;
pub mod print_laws;
pub mod operator_laws;
