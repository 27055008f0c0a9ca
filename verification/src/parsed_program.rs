use vstd::prelude::*;
use crate::parsed_expression::{Located, ModuleId, ParsedExpression, ParsedGenericId, ParsedType};

verus! {

/// An import of some or all items of a module.
#[derive(Debug)]
pub struct ParsedImport {
    pub module_id: ModuleId,
    /// The imported items, or `None` for all of them.
    pub imported_objects: Option<Vec<String>>,
}

/// A struct declaration as written.
#[derive(Debug)]
pub struct ParsedStructDefinition {
    pub struct_name: String,
    pub generic_params: Vec<String>,
    pub fields: Vec<(String, ParsedType)>,
}

/// A type alias as written.
#[derive(Debug)]
pub struct ParsedTypeAlias {
    pub alias: String,
    pub aliased_type: ParsedType,
}

/// An enum declaration as written: its variants with their values.
#[derive(Debug)]
pub struct ParsedEnumDefinition {
    pub enum_name: String,
    pub variants: Vec<(String, i64)>,
}

/// The signature of a function as written.
#[derive(Debug)]
pub struct ParsedFunctionSignature {
    pub function_name: String,
    pub generic_params: Vec<String>,
    pub params: Vec<(ParsedType, String)>,
    pub return_type: ParsedType,
}

/// A function as written: signature and body.
#[derive(Debug)]
pub struct ParsedFunction {
    pub signature: ParsedFunctionSignature,
    pub body: ParsedExpression,
}

/// A trait declaration as written.
#[derive(Debug)]
pub struct ParsedTraitDefinition {
    pub trait_name: String,
    pub generics: Vec<String>,
    pub functions: Vec<Located<ParsedFunctionSignature>>,
}

/// An implementation of a trait for a type, as written.
#[derive(Debug)]
pub struct ParsedTraitImplementation {
    pub trait_id: ParsedGenericId,
    pub for_type: ParsedType,
    pub functions: Vec<Located<ParsedFunction>>,
}

/// A module as written: its imports and items.
#[derive(Debug)]
pub struct ParsedModule {
    pub module_id: ModuleId,
    pub imports: Vec<Located<ParsedImport>>,
    pub struct_definitions: Vec<Located<ParsedStructDefinition>>,
    pub type_aliases: Vec<Located<ParsedTypeAlias>>,
    pub enums: Vec<Located<ParsedEnumDefinition>>,
    pub trait_definitions: Vec<Located<ParsedTraitDefinition>>,
    pub trait_implementations: Vec<Located<ParsedTraitImplementation>>,
    pub functions: Vec<Located<ParsedFunction>>,
}

/// A program as written: its modules, in order.
#[derive(Debug)]
pub struct ParsedProgram {
    pub module_tree: Vec<(ModuleId, ParsedModule)>,
}

} // verus!
