//! Inspection of a running interpreter process: locate the memory-mapped
//! regions of its main executable and runtime shared library, classify
//! library filenames per runtime, apply load-time address corrections to
//! parsed symbol tables, and expose symbol lookup with a fixed precedence.

pub mod ascii;
pub mod process_info;
pub mod process_type;
pub mod python_process_type;
pub mod ruby_process_type;
pub mod symbol_table;
