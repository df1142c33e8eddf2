//! The closed set of supported language runtimes and target platforms, and
//! the per-runtime descriptor: library-filename classification, framework
//! classification, and the fixed list of symbols to resolve through a
//! secondary source on the platform whose native tables lack debug symbols.

use vstd::prelude::*;

use crate::python_process_type::python_framework_match;
use crate::python_process_type::python_framework_spec;
use crate::python_process_type::python_lib_match;
use crate::python_process_type::python_lib_spec;
use crate::ruby_process_type::ruby_framework_match;
use crate::ruby_process_type::ruby_framework_spec;
use crate::ruby_process_type::ruby_lib_match;
use crate::ruby_process_type::ruby_lib_spec;

verus! {

/// The operating systems whose memory-map and symbol-table conventions the
/// resolution algorithm distinguishes.
#[derive(Clone, Copy, Debug, PartialEq, Eq, Structural)]
pub enum Platform {
    /// ELF shared objects; library regions carry the execute permission.
    Linux,
    /// Same conventions as Linux.
    FreeBsd,
    /// Mach-O binaries; anchor-offset correction and bundle fallback apply.
    MacOs,
    /// PE binaries; case-insensitive paths, library regions matched on read
    /// permission, debug symbols resolved through a secondary source.
    Windows,
}

/// The closed set of supported interpreted-language runtimes.
#[derive(Clone, Copy, Debug, PartialEq, Eq, Structural)]
pub enum RuntimeDescriptor {
    /// The CPython runtime.
    Python,
    /// The Ruby runtime.
    Ruby,
}

/// The library-filename convention of `rt` on `platform` holds of `path`.
pub open spec fn is_lib_spec(path: Seq<char>, rt: RuntimeDescriptor, platform: Platform) -> bool {
    match rt {
        RuntimeDescriptor::Python => python_lib_spec(path, platform),
        RuntimeDescriptor::Ruby => ruby_lib_spec(path, platform),
    }
}

/// `path` is the canonical in-framework binary of `rt` (and not the duplicate
/// inside an application-wrapper bundle).
pub open spec fn is_framework_spec(path: Seq<char>, rt: RuntimeDescriptor) -> bool {
    match rt {
        RuntimeDescriptor::Python => python_framework_spec(path),
        RuntimeDescriptor::Ruby => ruby_framework_spec(path),
    }
}

impl RuntimeDescriptor {
    /// Whether `path` is a genuine shared-library filename for this runtime
    /// on `platform`.
    pub fn matches_library(&self, path: &str, platform: Platform) -> (r: bool)
        ensures
            r == is_lib_spec(path@, *self, platform),
    {
        match self {
            RuntimeDescriptor::Python => python_lib_match(path, platform),
            RuntimeDescriptor::Ruby => ruby_lib_match(path, platform),
        }
    }

    /// Whether `path` is the canonical in-framework binary for this runtime.
    pub fn is_framework(&self, path: &str) -> (r: bool)
        ensures
            r == is_framework_spec(path@, *self),
    {
        match self {
            RuntimeDescriptor::Python => python_framework_match(path),
            RuntimeDescriptor::Ruby => ruby_framework_match(path),
        }
    }

    /// The fixed list of critical global symbols to resolve individually when
    /// the native symbol table omits debug symbols.
    pub fn required_symbol_names(&self) -> (r: Vec<String>)
        ensures
            *self is Python ==> r@.len() == 3 && r@[0]@ == "_PyThreadState_Current"@ && r@[1]@
                == "interp_head"@ && r@[2]@ == "_PyRuntime"@,
            *self is Ruby ==> r@.len() == 7 && r@[0]@ == "global_symbols"@ && r@[1]@
                == "ruby_global_symbols"@ && r@[2]@ == "ruby_current_vm"@ && r@[3]@
                == "ruby_current_vm_ptr"@ && r@[4]@ == "ruby_current_thread"@ && r@[5]@
                == "ruby_current_execution_context_ptr"@ && r@[6]@ == "ruby_version"@,
    {
        match self {
            RuntimeDescriptor::Python => {
                let mut r: Vec<String> = Vec::new();
                r.push(String::from_str("_PyThreadState_Current"));
                r.push(String::from_str("interp_head"));
                r.push(String::from_str("_PyRuntime"));
                r
            },
            RuntimeDescriptor::Ruby => {
                let mut r: Vec<String> = Vec::new();
                r.push(String::from_str("global_symbols"));
                r.push(String::from_str("ruby_global_symbols"));
                r.push(String::from_str("ruby_current_vm"));
                r.push(String::from_str("ruby_current_vm_ptr"));
                r.push(String::from_str("ruby_current_thread"));
                r.push(String::from_str("ruby_current_execution_context_ptr"));
                r.push(String::from_str("ruby_version"));
                r
            },
        }
    }
}

/// The extension point for supported runtimes: a marker type that names which
/// runtime descriptor drives classification and symbol resolution.
pub trait ProcessType {
    /// The runtime this marker selects.
    spec fn spec_runtime() -> RuntimeDescriptor;

    /// The runtime descriptor value this marker selects.
    fn runtime() -> (r: RuntimeDescriptor)
        ensures
            r == Self::spec_runtime(),
    ;
}

} // verus!
