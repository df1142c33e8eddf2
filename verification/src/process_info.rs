//! The address-resolution engine: selection of the main-executable and
//! runtime-library regions from a process's memory map, platform corrections
//! applied to freshly parsed symbol tables, assembly of the queryable
//! process snapshot, and symbol lookup with a fixed precedence.

use vstd::prelude::*;

use crate::ascii::seqs_ci_eq;
use crate::ascii::str_ci_eq;
use crate::ascii::str_eq;
use crate::process_type::is_framework_spec;
use crate::process_type::is_lib_spec;
use crate::process_type::Platform;
use crate::process_type::RuntimeDescriptor;
use crate::symbol_table::BinaryInfo;
use crate::symbol_table::SymbolTable;

verus! {

/// The failures construction distinguishes.
#[derive(Clone, Copy, Debug, PartialEq, Eq, Structural)]
pub enum ProcessError {
    /// The executable path could not be obtained; the process is gone or
    /// inaccessible.
    ProcessUnavailable,
    /// The memory map reported no regions at all.
    NoMemoryRegions,
    /// The main binary failed to parse and no library was found.
    MainBinaryParseFailure,
    /// A library region was matched but failed to parse.
    LibraryParseFailure,
    /// The secondary debug-symbol source failed for a queried name.
    SecondarySymbolSourceFailure,
    /// A platform-specific query (container check, bundle fallback) failed.
    PlatformQueryFailure,
}

impl ProcessError {
    /// A short description of the failure.
    pub fn message(&self) -> (r: &'static str)
        ensures
            r@.len() > 0,
    {
        proof {
            reveal_strlit("failed to get process executable name");
            reveal_strlit("no memory map regions found for process");
            reveal_strlit("failed to parse the main binary");
            reveal_strlit("failed to parse the matched runtime library");
            reveal_strlit("secondary symbol source failed");
            reveal_strlit("platform query failed");
        }
        match self {
            ProcessError::ProcessUnavailable => "failed to get process executable name",
            ProcessError::NoMemoryRegions => "no memory map regions found for process",
            ProcessError::MainBinaryParseFailure => "failed to parse the main binary",
            ProcessError::LibraryParseFailure => "failed to parse the matched runtime library",
            ProcessError::SecondarySymbolSourceFailure => "secondary symbol source failed",
            ProcessError::PlatformQueryFailure => "platform query failed",
        }
    }
}

/// One mapped virtual-address range of the inspected process: an immutable
/// snapshot of its start, size, permissions, and backing file path.
pub struct MemoryRegion {
    /// Start address of the range.
    pub start: u64,
    /// Length of the range in bytes.
    pub size: u64,
    /// Read permission.
    pub is_read: bool,
    /// Write permission.
    pub is_write: bool,
    /// Execute permission.
    pub is_exec: bool,
    /// The backing file path, if the range is file-backed.
    pub filename: Option<String>,
}

/// Whether `path` is a genuine shared-library filename for `runtime` on
/// `platform` (the classification helper applied during region scanning).
pub fn is_lib(path: &str, runtime: RuntimeDescriptor, platform: Platform) -> (r: bool)
    ensures
        r == is_lib_spec(path@, runtime, platform),
{
    runtime.matches_library(path, platform)
}

/// The region is backed by the resolved executable path (compared
/// case-insensitively on Windows) and is mapped executable.
pub open spec fn region_matches_binary(
    region: MemoryRegion,
    exe_path: Seq<char>,
    platform: Platform,
) -> bool {
    &&& region.filename is Some
    &&& if platform is Windows {
        seqs_ci_eq(region.filename->Some_0@, exe_path)
    } else {
        region.filename->Some_0@ == exe_path
    }
    &&& region.is_exec
}

/// The region is backed by a file matching the runtime's library convention,
/// with the execute permission as the predicate on Unix-like platforms and
/// the read permission on Windows.
pub open spec fn region_matches_library(
    region: MemoryRegion,
    runtime: RuntimeDescriptor,
    platform: Platform,
) -> bool {
    &&& region.filename is Some
    &&& is_lib_spec(region.filename->Some_0@, runtime, platform)
    &&& if platform is Windows {
        region.is_read
    } else {
        region.is_exec
    }
}

fn region_is_binary_match(region: &MemoryRegion, exe_path: &str, platform: Platform) -> (r: bool)
    ensures
        r == region_matches_binary(*region, exe_path@, platform),
{
    match &region.filename {
        Some(name) => {
            let name_eq = match platform {
                Platform::Windows => str_ci_eq(name.as_str(), exe_path),
                _ => str_eq(name.as_str(), exe_path),
            };
            name_eq && region.is_exec
        },
        None => false,
    }
}

fn region_is_library_match(
    region: &MemoryRegion,
    runtime: RuntimeDescriptor,
    platform: Platform,
) -> (r: bool)
    ensures
        r == region_matches_library(*region, runtime, platform),
{
    match &region.filename {
        Some(name) => {
            let perm = match platform {
                Platform::Windows => region.is_read,
                _ => region.is_exec,
            };
            perm && runtime.matches_library(name.as_str(), platform)
        },
        None => false,
    }
}

/// Select the region holding the main executable: the first region whose
/// backing file equals the resolved executable path and which is mapped
/// executable. When nothing matches, fall back to the first region (the
/// second component is then false); with no regions at all, fail.
pub fn select_binary_region(
    maps: &Vec<MemoryRegion>,
    exe_path: &str,
    platform: Platform,
) -> (r: Result<(usize, bool), ProcessError>)
    ensures
        r is Err <==> maps@.len() == 0,
        r is Err ==> r == Err::<(usize, bool), ProcessError>(ProcessError::NoMemoryRegions),
        r matches Ok(p) ==> ({
            &&& 0 <= p.0 < maps@.len()
            &&& p.1 ==> region_matches_binary(maps@[p.0 as int], exe_path@, platform) && forall|
                j: int,
            | 0 <= j < p.0 ==> !region_matches_binary(maps@[j], exe_path@, platform)
            &&& !p.1 ==> p.0 == 0 && forall|j: int|
                0 <= j < maps@.len() ==> !region_matches_binary(maps@[j], exe_path@, platform)
        }),
{
    let n = maps.len();
    let mut i: usize = 0;
    while i < n
        invariant
            n == maps@.len(),
            i <= n,
            forall|j: int| 0 <= j < i ==> !region_matches_binary(maps@[j], exe_path@, platform),
        decreases n - i,
    {
        if region_is_binary_match(&maps[i], exe_path, platform) {
            return Ok((i, true));
        }
        i = i + 1;
    }
    if n == 0 {
        Err(ProcessError::NoMemoryRegions)
    } else {
        Ok((0, false))
    }
}

/// Select the region holding the runtime's shared library: the first region
/// whose backing file matches the runtime's library-filename convention, or
/// nothing when no region matches.
pub fn select_library_region(
    maps: &Vec<MemoryRegion>,
    runtime: RuntimeDescriptor,
    platform: Platform,
) -> (r: Option<usize>)
    ensures
        r matches Some(i) ==> 0 <= i < maps@.len() && region_matches_library(
            maps@[i as int],
            runtime,
            platform,
        ) && forall|j: int| 0 <= j < i ==> !region_matches_library(maps@[j], runtime, platform),
        r is None ==> forall|j: int|
            0 <= j < maps@.len() ==> !region_matches_library(maps@[j], runtime, platform),
{
    let n = maps.len();
    let mut i: usize = 0;
    while i < n
        invariant
            n == maps@.len(),
            i <= n,
            forall|j: int| 0 <= j < i ==> !region_matches_library(maps@[j], runtime, platform),
        decreases n - i,
    {
        if region_is_library_match(&maps[i], runtime, platform) {
            return Some(i);
        }
        i = i + 1;
    }
    None
}

/// One loaded-image record reported by the dynamic linker: the image's path
/// and one segment's raw name bytes, start address, and size.
pub struct DyldImage {
    /// The image's file path.
    pub filename: String,
    /// The segment's raw name bytes.
    pub segment_name: Vec<u8>,
    /// The segment's start address.
    pub vmaddr: u64,
    /// The segment's size in bytes.
    pub vmsize: u64,
}

/// The image is the canonical in-framework binary for `runtime` and the
/// record describes its data segment (name bytes "__DATA\0").
pub open spec fn image_matches_framework(image: DyldImage, runtime: RuntimeDescriptor) -> bool {
    &&& is_framework_spec(image.filename@, runtime)
    &&& image.segment_name@.len() >= 7
    &&& image.segment_name@[0] == 95u8
    &&& image.segment_name@[1] == 95u8
    &&& image.segment_name@[2] == 68u8
    &&& image.segment_name@[3] == 65u8
    &&& image.segment_name@[4] == 84u8
    &&& image.segment_name@[5] == 65u8
    &&& image.segment_name@[6] == 0u8
}

fn image_is_framework_match(image: &DyldImage, runtime: RuntimeDescriptor) -> (r: bool)
    ensures
        r == image_matches_framework(*image, runtime),
{
    if image.segment_name.len() < 7 {
        return false;
    }
    let seg = image.segment_name[0] == 95 && image.segment_name[1] == 95 && image.segment_name[2]
        == 68 && image.segment_name[3] == 65 && image.segment_name[4] == 84
        && image.segment_name[5] == 65 && image.segment_name[6] == 0;
    seg && runtime.is_framework(image.filename.as_str())
}

/// Bundle fallback selection: the first loaded image whose path is the
/// canonical in-framework binary and whose segment record is the reserved
/// data segment.
pub fn select_framework_image(images: &Vec<DyldImage>, runtime: RuntimeDescriptor) -> (r: Option<
    usize,
>)
    ensures
        r matches Some(i) ==> 0 <= i < images@.len() && image_matches_framework(
            images@[i as int],
            runtime,
        ) && forall|j: int| 0 <= j < i ==> !image_matches_framework(images@[j], runtime),
        r is None ==> forall|j: int|
            0 <= j < images@.len() ==> !image_matches_framework(images@[j], runtime),
{
    let n = images.len();
    let mut i: usize = 0;
    while i < n
        invariant
            n == images@.len(),
            i <= n,
            forall|j: int| 0 <= j < i ==> !image_matches_framework(images@[j], runtime),
        decreases n - i,
    {
        if image_is_framework_match(&images[i], runtime) {
            return Some(i);
        }
        i = i + 1;
    }
    None
}

/// Bundle fallback assembly: the selected image's whole data segment stands
/// in for the BSS region. This is a documented approximation: true
/// section-level BSS scanning is not performed on this path.
pub fn bundle_fallback_info(parsed: BinaryInfo, image: &DyldImage) -> (r: BinaryInfo)
    ensures
        r.symbols@ == parsed.symbols@,
        r.bss_addr == image.vmaddr,
        r.bss_size == image.vmsize,
{
    BinaryInfo { symbols: parsed.symbols, bss_addr: image.vmaddr, bss_size: image.vmsize }
}

/// The anchor symbol whose parsed address, less the region start, gives the
/// load-time offset already folded into the region start.
pub open spec fn anchor_symbol_name() -> Seq<char> {
    "_mh_execute_header"@
}

/// The load-time offset to undo: the anchor's parsed address minus the
/// selected region's start address.
pub open spec fn anchor_offset(info: BinaryInfo, region_start: u64) -> int {
    info.symbols@[anchor_symbol_name()] - region_start
}

/// Main-binary correction for the platform whose loader folds a base into
/// the region start: subtract the anchor offset from every symbol address
/// and from a nonzero BSS address.
pub fn apply_anchor_offset(info: &mut BinaryInfo, region_start: u64)
    requires
        old(info).symbols@.contains_key(anchor_symbol_name()),
        old(info).symbols@[anchor_symbol_name()] >= region_start,
        forall|k: Seq<char>|
            old(info).symbols@.contains_key(k) ==> old(info).symbols@[k] >= anchor_offset(
                *old(info),
                region_start,
            ),
        old(info).bss_addr != 0 ==> old(info).bss_addr >= anchor_offset(*old(info), region_start),
    ensures
        forall|k: Seq<char>|
            final(info).symbols@.contains_key(k) <==> old(info).symbols@.contains_key(k),
        forall|k: Seq<char>| #[trigger]
            old(info).symbols@.contains_key(k) ==> final(info).symbols@[k] == old(info).symbols@[k]
                - anchor_offset(*old(info), region_start),
        old(info).bss_addr != 0 ==> final(info).bss_addr == old(info).bss_addr - anchor_offset(
            *old(info),
            region_start,
        ),
        old(info).bss_addr == 0 ==> final(info).bss_addr == 0,
        final(info).bss_size == old(info).bss_size,
{
    let anchor = info.symbols.get("_mh_execute_header").unwrap();
    let offset = anchor - region_start;
    info.symbols.subtract_offset(offset);
    if info.bss_addr != 0 {
        info.bss_addr = info.bss_addr - offset;
    }
}

/// One successful query of the secondary per-process debug-symbol source:
/// the name, the reported module base (zero when none was reported), and the
/// reported address.
pub struct ResolvedSymbol {
    /// The queried symbol name.
    pub name: String,
    /// The reported module base; zero means no base was reported.
    pub base: u64,
    /// The reported address (module-relative, or absolute against `base`).
    pub address: u64,
}

/// The corrected address of one secondary-source report: the reported
/// address, less the reference base (the reported base when nonzero, else
/// the module's own base), plus the region's load address.
pub open spec fn secondary_address(
    base: u64,
    address: u64,
    module_base: u64,
    load_address: u64,
) -> int {
    if base != 0 {
        load_address + address - base
    } else {
        load_address + address - module_base
    }
}

/// Corrects one address reported by the secondary symbol source.
pub fn resolve_secondary_symbol(base: u64, address: u64, module_base: u64, load_address: u64) -> (r:
    u64)
    requires
        load_address + address <= u64::MAX,
        secondary_address(base, address, module_base, load_address) >= 0,
    ensures
        r == secondary_address(base, address, module_base, load_address),
{
    if base != 0 {
        load_address + address - base
    } else {
        load_address + address - module_base
    }
}

/// The table of corrected addresses for a batch of secondary-source reports.
pub open spec fn resolved_map(
    rs: Seq<ResolvedSymbol>,
    module_base: u64,
    load_address: u64,
) -> Map<Seq<char>, u64>
    decreases rs.len(),
{
    if rs.len() == 0 {
        Map::empty()
    } else {
        resolved_map(rs.drop_last(), module_base, load_address).insert(
            rs.last().name@,
            secondary_address(rs.last().base, rs.last().address, module_base, load_address) as u64,
        )
    }
}

/// Builds the symbol table resolved through the secondary per-process
/// debug-symbol source; entries for names the source failed on are simply
/// omitted from `resolved` by the caller.
pub fn get_windows_symbols(resolved: &Vec<ResolvedSymbol>, module_base: u64, load_address: u64) -> (
    t: SymbolTable)
    requires
        forall|i: int|
            0 <= i < resolved@.len() ==> load_address + resolved@[i].address <= u64::MAX
                && secondary_address(
                resolved@[i].base,
                resolved@[i].address,
                module_base,
                load_address,
            ) >= 0,
    ensures
        t@ == resolved_map(resolved@, module_base, load_address),
{
    let mut t = SymbolTable::new();
    let n = resolved.len();
    let mut i: usize = 0;
    while i < n
        invariant
            n == resolved@.len(),
            i <= n,
            forall|j: int|
                0 <= j < n ==> load_address + resolved@[j].address <= u64::MAX
                    && secondary_address(
                    resolved@[j].base,
                    resolved@[j].address,
                    module_base,
                    load_address,
                ) >= 0,
            t@ == resolved_map(resolved@.take(i as int), module_base, load_address),
        decreases n - i,
    {
        let name = resolved[i].name.clone();
        let addr = resolve_secondary_symbol(
            resolved[i].base,
            resolved[i].address,
            module_base,
            load_address,
        );
        t.insert(name, addr);
        proof {
            let t1 = resolved@.take(i + 1);
            assert(t1.drop_last() =~= resolved@.take(i as int));
            assert(t1.last() == resolved@[i as int]);
        }
        i = i + 1;
    }
    proof {
        assert(resolved@.take(n as int) =~= resolved@);
    }
    t
}

/// Container check decision: the target counts as containerized exactly when
/// both mount-namespace identities were obtained and differ; any failure to
/// obtain one (absence) defaults to "not containerized".
pub fn is_dockerized(self_mount_ns: Option<String>, target_mount_ns: Option<String>) -> (r: bool)
    ensures
        r == (self_mount_ns is Some && target_mount_ns is Some && self_mount_ns->Some_0@
            != target_mount_ns->Some_0@),
{
    match (&self_mount_ns, &target_mount_ns) {
        (Some(a), Some(b)) => !str_eq(a.as_str(), b.as_str()),
        _ => false,
    }
}

/// The outcome of handing one selected region to the binary parser.
pub enum ParseOutcome {
    /// The parser produced symbol and BSS information.
    Parsed(BinaryInfo),
    /// The parser failed.
    Failed,
}

/// The information a successful parse outcome carries.
pub open spec fn outcome_info(o: ParseOutcome) -> Option<BinaryInfo> {
    match o {
        ParseOutcome::Parsed(b) => Some(b),
        ParseOutcome::Failed => None,
    }
}

/// The library outcome's information: nothing when no library region was
/// matched, else the parse's information.
pub open spec fn library_info(library: Option<ParseOutcome>) -> Option<BinaryInfo> {
    match library {
        Some(o) => outcome_info(o),
        None => None,
    }
}

/// A library region was matched but its parse failed.
pub open spec fn library_failed(library: Option<ParseOutcome>) -> bool {
    match library {
        Some(ParseOutcome::Failed) => true,
        _ => false,
    }
}

/// An immutable, queryable snapshot of a process's binary and library symbol
/// information.
pub struct ProcessInfo {
    /// Parsed information for the main executable, if available.
    pub binary: Option<BinaryInfo>,
    /// Parsed information for the runtime's shared library, if available.
    pub library: Option<BinaryInfo>,
    /// The captured memory map.
    pub maps: Vec<MemoryRegion>,
    /// The resolved executable path.
    pub path: String,
    /// Whether the target runs in a different mount namespace.
    pub dockerized: bool,
}

impl ProcessInfo {
    /// Lookup against one optional table.
    pub open spec fn table_lookup(info: Option<BinaryInfo>, name: Seq<char>) -> Option<u64> {
        match info {
            Some(b) => if b.symbols@.contains_key(name) {
                Some(b.symbols@[name])
            } else {
                None
            },
            None => None,
        }
    }

    /// What `get_symbol` denotes: the main binary's table first, then the
    /// library's, else absence.
    pub open spec fn lookup_spec(self, name: Seq<char>) -> Option<u64> {
        if Self::table_lookup(self.binary, name) is Some {
            Self::table_lookup(self.binary, name)
        } else {
            Self::table_lookup(self.library, name)
        }
    }

    /// Reconciliation and assembly of the snapshot from the parse outcomes.
    /// A matched library that failed to parse is fatal; a main-binary parse
    /// failure is fatal only when no library was resolved.
    pub fn new(
        path: String,
        maps: Vec<MemoryRegion>,
        binary: ParseOutcome,
        library: Option<ParseOutcome>,
        dockerized: bool,
    ) -> (r: Result<ProcessInfo, ProcessError>)
        ensures
            library_failed(library) ==> r == Err::<ProcessInfo, ProcessError>(
                ProcessError::LibraryParseFailure,
            ),
            (binary is Failed && library is None) ==> r == Err::<ProcessInfo, ProcessError>(
                ProcessError::MainBinaryParseFailure,
            ),
            (!library_failed(library) && !(binary is Failed && library is None)) ==> (r matches Ok(
                p,
            ) && p.binary == outcome_info(binary) && p.library == library_info(library) && p.maps
                == maps && p.path == path && p.dockerized == dockerized),
            r matches Ok(p) ==> p.binary is Some || p.library is Some,
    {
        let lib_info: Option<BinaryInfo> = match library {
            Some(ParseOutcome::Parsed(b)) => Some(b),
            Some(ParseOutcome::Failed) => {
                return Err(ProcessError::LibraryParseFailure);
            },
            None => None,
        };
        let bin_info: Option<BinaryInfo> = match binary {
            ParseOutcome::Parsed(b) => Some(b),
            ParseOutcome::Failed => None,
        };
        if bin_info.is_none() && lib_info.is_none() {
            return Err(ProcessError::MainBinaryParseFailure);
        }
        Ok(
            ProcessInfo {
                binary: bin_info,
                library: lib_info,
                maps,
                path,
                dockerized,
            },
        )
    }

    /// The memory address of the named symbol, if either table records it:
    /// the main binary's table is consulted first, then the library's.
    /// Absence is a normal outcome, not an error.
    pub fn get_symbol(&self, symbol: &str) -> (r: Option<u64>)
        ensures
            r == self.lookup_spec(symbol@),
    {
        if let Some(b) = &self.binary {
            match b.symbols.get(symbol) {
                Some(address) => {
                    return Some(address);
                },
                None => {},
            }
        }
        if let Some(l) = &self.library {
            match l.symbols.get(symbol) {
                Some(address) => {
                    return Some(address);
                },
                None => {},
            }
        }
        None
    }
}

/// Lookup precedence: a name recorded in both the binary's and the library's
/// tables resolves to the binary's address, whatever the library records.
pub proof fn lemma_get_symbol_precedence(info: ProcessInfo, name: Seq<char>)
    requires
        info.binary is Some,
        info.binary->Some_0.symbols@.contains_key(name),
    ensures
        info.lookup_spec(name) == Some(info.binary->Some_0.symbols@[name]),
{
}

/// Lookup absence: a name in neither table resolves to absence, never an
/// error, whether or not the tables themselves are present.
pub proof fn lemma_get_symbol_absence(info: ProcessInfo, name: Seq<char>)
    requires
        info.binary matches Some(b) ==> !b.symbols@.contains_key(name),
        info.library matches Some(l) ==> !l.symbols@.contains_key(name),
    ensures
        info.lookup_spec(name) is None,
{
}

} // verus!
