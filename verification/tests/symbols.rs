use proc_symbols::process_type::ProcessType;
use proc_symbols::process_type::RuntimeDescriptor;
use proc_symbols::python_process_type::PythonProcessType;
use proc_symbols::ruby_process_type::RubyProcessType;
use proc_symbols::symbol_table::SymbolTable;

#[test]
fn symbol_table_get_and_insert() {
    let mut table = SymbolTable::new();
    assert_eq!(table.get("a"), None);
    table.insert("a".to_string(), 1);
    table.insert("b".to_string(), 2);
    assert_eq!(table.get("a"), Some(1));
    assert_eq!(table.get("b"), Some(2));
    // inserting again overrides
    table.insert("a".to_string(), 3);
    assert_eq!(table.get("a"), Some(3));
    assert_eq!(table.get("b"), Some(2));
}

#[test]
fn symbol_table_subtract_offset() {
    let mut table = SymbolTable::new();
    table.insert("low".to_string(), 0x1000);
    table.insert("high".to_string(), 0x2000);
    table.subtract_offset(0x800);
    assert_eq!(table.get("low"), Some(0x800));
    assert_eq!(table.get("high"), Some(0x1800));
}

#[test]
fn required_symbol_names_per_runtime() {
    let py = RuntimeDescriptor::Python.required_symbol_names();
    assert_eq!(
        py,
        vec![
            "_PyThreadState_Current".to_string(),
            "interp_head".to_string(),
            "_PyRuntime".to_string(),
        ]
    );
    let rb = RuntimeDescriptor::Ruby.required_symbol_names();
    assert_eq!(rb.len(), 7);
    assert_eq!(rb[0], "global_symbols");
    assert_eq!(rb[6], "ruby_version");
}

#[test]
fn process_type_markers_name_their_runtime() {
    assert_eq!(PythonProcessType::runtime(), RuntimeDescriptor::Python);
    assert_eq!(RubyProcessType::runtime(), RuntimeDescriptor::Ruby);
}
