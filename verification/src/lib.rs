//! Host-side error model and execution-context lifecycle for a sandboxed
//! script runtime.

pub mod causes;
pub mod diagnostics;
pub mod errors;
pub mod foreign;
pub mod import_map;
pub mod js_errors;
pub mod laws;
pub mod lifecycle;
pub mod logger;
pub mod msg;
pub mod numerals;
pub mod resolve_addr;
pub mod source_maps;
