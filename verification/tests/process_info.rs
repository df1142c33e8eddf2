use proc_symbols::process_info::apply_anchor_offset;
use proc_symbols::process_info::bundle_fallback_info;
use proc_symbols::process_info::get_windows_symbols;
use proc_symbols::process_info::is_dockerized;
use proc_symbols::process_info::resolve_secondary_symbol;
use proc_symbols::process_info::select_binary_region;
use proc_symbols::process_info::select_framework_image;
use proc_symbols::process_info::select_library_region;
use proc_symbols::process_info::DyldImage;
use proc_symbols::process_info::MemoryRegion;
use proc_symbols::process_info::ParseOutcome;
use proc_symbols::process_info::ProcessError;
use proc_symbols::process_info::ProcessInfo;
use proc_symbols::process_info::ResolvedSymbol;
use proc_symbols::process_type::Platform;
use proc_symbols::process_type::RuntimeDescriptor;
use proc_symbols::symbol_table::BinaryInfo;
use proc_symbols::symbol_table::SymbolTable;

fn region(start: u64, size: u64, is_exec: bool, filename: Option<&str>) -> MemoryRegion {
    MemoryRegion {
        start,
        size,
        is_read: true,
        is_write: false,
        is_exec,
        filename: filename.map(|f| f.to_string()),
    }
}

fn info_with(symbols: &[(&str, u64)], bss_addr: u64, bss_size: u64) -> BinaryInfo {
    let mut table = SymbolTable::new();
    for (name, addr) in symbols {
        table.insert(name.to_string(), *addr);
    }
    BinaryInfo { symbols: table, bss_addr, bss_size }
}

#[test]
fn construction_with_zero_regions_fails() {
    let maps: Vec<MemoryRegion> = Vec::new();
    let r = select_binary_region(&maps, "/usr/bin/python3.9", Platform::Linux);
    assert_eq!(r, Err(ProcessError::NoMemoryRegions));
}

#[test]
fn binary_selection_falls_back_to_first_region() {
    let maps = vec![
        region(0x1000, 0x1000, true, None),
        region(0x2000, 0x1000, true, Some("/usr/lib/ld.so")),
    ];
    let r = select_binary_region(&maps, "/usr/bin/python3.9", Platform::Linux);
    assert_eq!(r, Ok((0, false)));
}

#[test]
fn binary_selection_needs_exec_permission() {
    let maps = vec![
        region(0x1000, 0x1000, false, Some("/usr/bin/python3.9")),
        region(0x2000, 0x1000, true, Some("/usr/bin/python3.9")),
    ];
    let r = select_binary_region(&maps, "/usr/bin/python3.9", Platform::Linux);
    assert_eq!(r, Ok((1, true)));
}

#[test]
fn binary_selection_is_case_insensitive_on_windows() {
    let maps = vec![region(0x1000, 0x1000, true, Some("C:\\Python37\\PYTHON.EXE"))];
    let r = select_binary_region(&maps, "c:\\python37\\python.exe", Platform::Windows);
    assert_eq!(r, Ok((0, true)));
    let r = select_binary_region(&maps, "c:\\python37\\python.exe", Platform::Linux);
    assert_eq!(r, Ok((0, false)));
}

#[test]
fn scenario_static_binary_without_library() {
    // regions = [{exec, path="/usr/bin/python3.9"}], exe_path matches
    let maps = vec![region(0x400000, 0x200000, true, Some("/usr/bin/python3.9"))];
    let selected = select_binary_region(&maps, "/usr/bin/python3.9", Platform::Linux);
    assert_eq!(selected, Ok((0, true)));

    // no region matches the library pattern
    let lib = select_library_region(&maps, RuntimeDescriptor::Python, Platform::Linux);
    assert_eq!(lib, None);

    // a main-binary parse failure is now fatal
    let r = ProcessInfo::new(
        "/usr/bin/python3.9".to_string(),
        maps,
        ParseOutcome::Failed,
        None,
        false,
    );
    assert!(matches!(r, Err(ProcessError::MainBinaryParseFailure)));
}

#[test]
fn scenario_shared_library_with_fallback_binary() {
    // binary resolution falls back to the first region; the library resolves
    // via the pattern match against the second region
    let maps = vec![
        region(0x1000, 0x1000, true, None),
        region(0x7f0000000000, 0x100000, true, Some("/usr/lib/libpython3.9.so.1.0")),
    ];
    let selected = select_binary_region(&maps, "/usr/bin/python3.9", Platform::Linux);
    assert_eq!(selected, Ok((0, false)));

    let lib = select_library_region(&maps, RuntimeDescriptor::Python, Platform::Linux);
    assert_eq!(lib, Some(1));

    // with a parsed library, a main-binary parse failure is tolerated
    let parsed = info_with(&[("PyRuntime", 0x7f0000001000)], 0, 0);
    let r = ProcessInfo::new(
        "/usr/bin/python3.9".to_string(),
        maps,
        ParseOutcome::Failed,
        Some(ParseOutcome::Parsed(parsed)),
        false,
    )
    .unwrap();
    assert!(r.binary.is_none());
    assert!(r.library.is_some());
    assert_eq!(r.get_symbol("PyRuntime"), Some(0x7f0000001000));
}

#[test]
fn scenario_secondary_source_zero_base() {
    // base=0, address=0x1000, region loads at 0x7f0000000000
    let resolved = resolve_secondary_symbol(0, 0x1000, 0, 0x7f0000000000);
    assert_eq!(resolved, 0x7f0000001000);
}

#[test]
fn secondary_source_nonzero_base_wins_over_module_base() {
    // a nonzero reported base is the reference base
    let resolved = resolve_secondary_symbol(0x100, 0x1100, 0xdead, 0x5000);
    assert_eq!(resolved, 0x6000);
    // a zero reported base falls back to the module's own base
    let resolved = resolve_secondary_symbol(0, 0x1100, 0x100, 0x5000);
    assert_eq!(resolved, 0x6000);
}

#[test]
fn windows_symbol_batch_is_merged_with_precedence() {
    let reports = vec![
        ResolvedSymbol { name: "interp_head".to_string(), base: 0, address: 0x200 },
        ResolvedSymbol { name: "_PyRuntime".to_string(), base: 0x1000, address: 0x1300 },
    ];
    let table = get_windows_symbols(&reports, 0, 0x7000);
    assert_eq!(table.get("interp_head"), Some(0x7200));
    assert_eq!(table.get("_PyRuntime"), Some(0x7300));
    assert_eq!(table.get("absent"), None);

    // merged entries take precedence over natively parsed ones
    let mut info = info_with(&[("interp_head", 0xbad), ("native_only", 0x42)], 0, 0);
    info.symbols.extend(&table);
    assert_eq!(info.symbols.get("interp_head"), Some(0x7200));
    assert_eq!(info.symbols.get("native_only"), Some(0x42));
    assert_eq!(info.symbols.get("_PyRuntime"), Some(0x7300));
}

#[test]
fn offset_correction_shifts_every_symbol_and_the_bss() {
    let mut info = info_with(
        &[("_mh_execute_header", 0x100001000), ("Py_Version", 0x100002000)],
        0x100003000,
        0x800,
    );
    // offset = anchor - region_start = 0x1000
    apply_anchor_offset(&mut info, 0x100000000);
    assert_eq!(info.symbols.get("_mh_execute_header"), Some(0x100000000));
    assert_eq!(info.symbols.get("Py_Version"), Some(0x100001000));
    assert_eq!(info.bss_addr, 0x100002000);
    assert_eq!(info.bss_size, 0x800);
}

#[test]
fn offset_correction_leaves_a_zero_bss_alone() {
    let mut info = info_with(&[("_mh_execute_header", 0x5000)], 0, 0x100);
    apply_anchor_offset(&mut info, 0x4000);
    assert_eq!(info.symbols.get("_mh_execute_header"), Some(0x4000));
    assert_eq!(info.bss_addr, 0);
}

#[test]
fn library_parse_failure_is_fatal() {
    let maps = vec![region(0x1000, 0x1000, true, Some("/usr/lib/libruby3.1.so"))];
    let parsed = info_with(&[("ruby_version", 0x2000)], 0, 0);
    let r = ProcessInfo::new(
        "/usr/bin/ruby".to_string(),
        maps,
        ParseOutcome::Parsed(parsed),
        Some(ParseOutcome::Failed),
        false,
    );
    assert!(matches!(r, Err(ProcessError::LibraryParseFailure)));
}

#[test]
fn get_symbol_prefers_the_binary_table() {
    let binary = info_with(&[("X", 0x1000), ("bin_only", 0x1100)], 0, 0);
    let library = info_with(&[("X", 0x2000), ("lib_only", 0x2100)], 0, 0);
    let maps = vec![region(0x1000, 0x1000, true, Some("/usr/bin/ruby"))];
    let info = ProcessInfo::new(
        "/usr/bin/ruby".to_string(),
        maps,
        ParseOutcome::Parsed(binary),
        Some(ParseOutcome::Parsed(library)),
        false,
    )
    .unwrap();
    assert_eq!(info.get_symbol("X"), Some(0x1000));
    assert_eq!(info.get_symbol("bin_only"), Some(0x1100));
    assert_eq!(info.get_symbol("lib_only"), Some(0x2100));
}

#[test]
fn get_symbol_absence_is_not_an_error() {
    let binary = info_with(&[("present", 0x1000)], 0, 0);
    let maps = vec![region(0x1000, 0x1000, true, Some("/usr/bin/ruby"))];
    let info = ProcessInfo::new(
        "/usr/bin/ruby".to_string(),
        maps,
        ParseOutcome::Parsed(binary),
        None,
        false,
    )
    .unwrap();
    assert_eq!(info.get_symbol("missing"), None);
}

#[test]
fn framework_image_selection_requires_the_data_segment() {
    let data_name = b"__DATA\0\0\0\0\0\0\0\0\0\0".to_vec();
    let text_name = b"__TEXT\0\0\0\0\0\0\0\0\0\0".to_vec();
    let images = vec![
        DyldImage {
            filename: "/System/Library/Frameworks/Python.framework/Versions/2.7/Python".to_string(),
            segment_name: text_name,
            vmaddr: 0x1000,
            vmsize: 0x100,
        },
        DyldImage {
            filename: "/System/Library/Frameworks/Python.framework/Versions/2.7/Python".to_string(),
            segment_name: data_name,
            vmaddr: 0x2000,
            vmsize: 0x200,
        },
    ];
    let selected = select_framework_image(&images, RuntimeDescriptor::Python);
    assert_eq!(selected, Some(1));

    let parsed = info_with(&[("_PyRuntime", 0x3000)], 0x9999, 0x1);
    let fallback = bundle_fallback_info(parsed, &images[1]);
    assert_eq!(fallback.bss_addr, 0x2000);
    assert_eq!(fallback.bss_size, 0x200);
    assert_eq!(fallback.symbols.get("_PyRuntime"), Some(0x3000));
}

#[test]
fn container_check_defaults_to_false_on_failure() {
    assert!(is_dockerized(Some("mnt:[1]".to_string()), Some("mnt:[2]".to_string())));
    assert!(!is_dockerized(Some("mnt:[1]".to_string()), Some("mnt:[1]".to_string())));
    assert!(!is_dockerized(None, Some("mnt:[2]".to_string())));
    assert!(!is_dockerized(Some("mnt:[1]".to_string()), None));
    assert!(!is_dockerized(None, None));
}

#[test]
fn error_messages_name_the_failing_step() {
    assert!(ProcessError::NoMemoryRegions.message().contains("memory map"));
    assert!(ProcessError::MainBinaryParseFailure.message().contains("binary"));
    assert!(ProcessError::LibraryParseFailure.message().contains("library"));
}
