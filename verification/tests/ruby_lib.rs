use proc_symbols::process_info::is_lib;
use proc_symbols::process_type::Platform;
use proc_symbols::process_type::RuntimeDescriptor;

#[test]
fn test_is_lib() {
    assert!(is_lib("./libruby2.7.so", RuntimeDescriptor::Ruby, Platform::Linux));
    assert!(is_lib("/usr/lib/libruby3.1.so", RuntimeDescriptor::Ruby, Platform::Linux));
    assert!(is_lib("/usr/local/lib/libruby3.1.so", RuntimeDescriptor::Ruby, Platform::Linux));
    assert!(is_lib("/usr/lib/libruby2.6.so", RuntimeDescriptor::Ruby, Platform::Linux));

    // don't blindly match libraries with ruby in the name
    assert!(!is_lib("/usr/lib/libfoo_ruby.so", RuntimeDescriptor::Ruby, Platform::Linux));
    assert!(!is_lib(
        "/usr/lib/x86_64-linux-gnu/libfoo_ruby-27.so.1.58.0",
        RuntimeDescriptor::Ruby,
        Platform::Linux
    ));
    assert!(!is_lib("/usr/lib/libfoo_ruby-31.so", RuntimeDescriptor::Ruby, Platform::Linux));
}

#[test]
fn ruby_process_type_test_is_lib() {
    assert!(is_lib(
        "/System/Library/Frameworks/Ruby.framework/Versions/2.6/usr/lib/libruby.2.6.dylib",
        RuntimeDescriptor::Ruby,
        Platform::MacOs
    ));

    assert!(is_lib("/lib/libruby.2.6.dylib", RuntimeDescriptor::Ruby, Platform::MacOs));

    assert!(!is_lib("/libboost_ruby.dylib", RuntimeDescriptor::Ruby, Platform::MacOs));
    assert!(!is_lib("/lib/heapq.cruby-36m-darwin.dylib", RuntimeDescriptor::Ruby, Platform::MacOs));
}

#[test]
fn test_is_lib_windows() {
    assert!(is_lib(
        "C:\\Users\\test\\AppData\\Local\\Programs\\ruby\\ruby31\\ruby31.dll",
        RuntimeDescriptor::Ruby,
        Platform::Windows
    ));
    assert!(is_lib(
        "C:\\Users\\test\\AppData\\Local\\Programs\\ruby\\ruby31\\ruby31.DLL",
        RuntimeDescriptor::Ruby,
        Platform::Windows
    ));
}

#[test]
fn test_is_framework() {
    // homebrew v2
    assert!(RuntimeDescriptor::Ruby.is_framework(
        "/usr/local/Cellar/ruby@2/2.7.5_1/Frameworks/ruby.framework/Versions/2.7/Ruby"
    ));
    assert!(!RuntimeDescriptor::Ruby.is_framework(
        "/usr/local/Cellar/ruby@2/2.7.5_1/Frameworks/ruby.framework/Versions/2.7/Resources/Ruby.app/Contents/MacOS/Ruby"
    ));
}

#[test]
fn test_ruby_sonames() {
    // version-numbered sonames and the plain soname both classify on Linux
    assert!(is_lib("/usr/lib/libruby.so", RuntimeDescriptor::Ruby, Platform::Linux));
    assert!(is_lib("/usr/lib/libruby.so.2.6", RuntimeDescriptor::Ruby, Platform::Linux));
    assert!(is_lib("/usr/lib/libruby.so.2.6.1", RuntimeDescriptor::Ruby, Platform::Linux));
    // a dll.a import stub classifies on Windows
    assert!(is_lib("C:\\ruby\\ruby31.dll.a", RuntimeDescriptor::Ruby, Platform::Windows));
    // no backslash anywhere means no Windows match
    assert!(!is_lib("ruby31.dll", RuntimeDescriptor::Ruby, Platform::Windows));
}
