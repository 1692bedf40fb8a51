use vstd::prelude::*;
use std::collections::HashMap;

verus! {

/// Options handed to the debugger backend.
#[derive(Debug, Clone)]
pub struct DebuggerOptions {
    pub evaluation_options: EvaluationOptions,
    pub step_over_properties_and_operators: bool,
    pub project_assemblies_only: bool,
    pub automatic_source_link_download: bool,
    pub debug_subprocesses: bool,
    pub symbol_search_paths: Vec<String>,
    pub source_code_mappings: Option<HashMap<String, String>>,
    pub search_microsoft_symbol_server: bool,
    pub search_nu_get_symbol_server: bool,
    pub skip_native_transitions: bool,
}

/// How the backend evaluates expressions.
#[derive(Debug, Clone)]
pub struct EvaluationOptions {
    pub evaluation_timeout: u32,
    pub member_evaluation_timeout: u32,
    pub allow_target_invoke: bool,
    pub allow_method_evaluation: bool,
    pub allow_to_string_calls: bool,
    pub flatten_hierarchy: bool,
    pub group_private_members: bool,
    pub group_static_members: bool,
    pub use_external_type_resolver: bool,
    pub integer_display_format: IntegerDisplayFormat,
    pub current_exception_tag: String,
    pub ellipsize_strings: bool,
    pub ellipsized_length: u32,
    pub chunk_raw_strings: bool,
    pub stack_frame_format: StackFrameFormat,
}

#[derive(Debug, Clone, Copy, PartialEq, Eq, Structural)]
pub enum IntegerDisplayFormat {
    Decimal,
    Hexadecimal,
}

/// What a stack frame's label shows.
#[derive(Debug, Clone, Copy, PartialEq, Eq, Structural)]
pub struct StackFrameFormat {
    pub line: bool,
    pub module: bool,
    pub parameter_names: bool,
    pub parameter_types: bool,
    pub parameter_values: bool,
    pub language: bool,
    pub external_code: Option<bool>,
}

impl StackFrameFormat {
    pub open spec fn is_default(&self) -> bool {
        &&& !self.line
        &&& self.module
        &&& !self.parameter_names
        &&& !self.parameter_types
        &&& !self.parameter_values
        &&& !self.language
        &&& self.external_code is None
    }
}

impl EvaluationOptions {
    pub open spec fn is_default(&self) -> bool {
        &&& self.evaluation_timeout == 1000
        &&& self.member_evaluation_timeout == 5000
        &&& self.allow_target_invoke
        &&& self.allow_method_evaluation
        &&& self.allow_to_string_calls
        &&& !self.flatten_hierarchy
        &&& self.group_private_members
        &&& self.group_static_members
        &&& self.use_external_type_resolver
        &&& self.integer_display_format == IntegerDisplayFormat::Decimal
        &&& self.current_exception_tag@ == "$exception"@
        &&& self.ellipsize_strings
        &&& self.ellipsized_length == 100
        &&& !self.chunk_raw_strings
        &&& self.stack_frame_format.is_default()
    }
}

impl DebuggerOptions {
    pub open spec fn is_default(&self) -> bool {
        &&& self.evaluation_options.is_default()
        &&& self.step_over_properties_and_operators
        &&& self.project_assemblies_only
        &&& self.automatic_source_link_download
        &&& !self.debug_subprocesses
        &&& self.symbol_search_paths@.len() == 0
        &&& self.source_code_mappings is None
        &&& !self.search_microsoft_symbol_server
        &&& !self.search_nu_get_symbol_server
        &&& self.skip_native_transitions
    }
}

impl Default for StackFrameFormat {
    fn default() -> (r: Self)
        ensures
            r.is_default(),
    {
        StackFrameFormat {
            line: false,
            module: true,
            parameter_names: false,
            parameter_types: false,
            parameter_values: false,
            language: false,
            external_code: None,
        }
    }
}

impl Default for EvaluationOptions {
    fn default() -> (r: Self)
        ensures
            r.is_default(),
    {
        EvaluationOptions {
            evaluation_timeout: 1000,
            member_evaluation_timeout: 5000,
            allow_target_invoke: true,
            allow_method_evaluation: true,
            allow_to_string_calls: true,
            flatten_hierarchy: false,
            group_private_members: true,
            group_static_members: true,
            use_external_type_resolver: true,
            integer_display_format: IntegerDisplayFormat::Decimal,
            current_exception_tag: String::from_str("$exception"),
            ellipsize_strings: true,
            ellipsized_length: 100,
            chunk_raw_strings: false,
            stack_frame_format: StackFrameFormat::default(),
        }
    }
}

impl Default for DebuggerOptions {
    fn default() -> (r: Self)
        ensures
            r.is_default(),
    {
        DebuggerOptions {
            evaluation_options: EvaluationOptions::default(),
            step_over_properties_and_operators: true,
            project_assemblies_only: true,
            automatic_source_link_download: true,
            debug_subprocesses: false,
            symbol_search_paths: Vec::new(),
            source_code_mappings: None,
            search_microsoft_symbol_server: false,
            search_nu_get_symbol_server: false,
            skip_native_transitions: true,
        }
    }
}

} // verus!
