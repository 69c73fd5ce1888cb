//! Maps a tree of named nodes onto typed values, collecting span-tagged
//! diagnostics instead of stopping at the first problem.

pub mod document;
pub mod field;
pub mod generate;
pub mod helpers;
pub mod mapper;
pub mod text;

pub use document::{Node, ParseDiagnostic, Parsed, Severity, Source, Span, Value};
pub use field::{finalize_array_string, parse_array_string, parse_bounded_string};
pub use generate::{generate, GenerateError, MapperPlan, TypeData, TypeDef};
pub use helpers::{get_children, get_single_argument_value};
pub use mapper::{locate_record_fields, parse_enum_variant};
