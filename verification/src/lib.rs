//! Headless, verified core of a form toolkit: typed field paths, snapshot
//! form state with dirty tracking, field metadata and layout hints,
//! cascading-select paths, the planning of generated form scaffolds (checks,
//! names, imports, section headings), the variant rules of the cascading
//! select derive, and phone-number validation.

pub mod text;
pub mod path;
pub mod components;
pub mod state;
pub mod schema;
pub mod registry;
pub mod infinite_select;
pub mod demo;
pub mod tuple_select;
pub mod imports;
pub mod codegen;
pub mod phone;
pub mod options;
pub mod infinite_select_derive;
pub mod infinite_select_source;
pub mod form_derive;
pub mod scaffold_source;
pub mod component_source;
pub mod holder_source;
pub mod form_source;
