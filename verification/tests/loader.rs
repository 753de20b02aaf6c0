use zoisite::loader::{library_file_name, library_path, TargetOs};

#[test]
fn library_file_names() {
    assert_eq!(library_file_name(TargetOs::Linux, "zoisite_hello_plugin"), "libzoisite_hello_plugin.so");
    assert_eq!(library_file_name(TargetOs::MacOs, "zoisite_hello_plugin"), "libzoisite_hello_plugin.dylib");
    assert_eq!(library_file_name(TargetOs::Windows, "zoisite_hello_plugin"), "zoisite_hello_plugin.dll");
}

#[test]
fn library_paths() {
    assert_eq!(library_path("/work/target/debug", "hello", TargetOs::Linux), "/work/target/debug/libhello.so");
    assert_eq!(library_path("C:/lib", "hello", TargetOs::Windows), "C:/lib/hello.dll");
    assert_eq!(library_path("", "x", TargetOs::MacOs), "/libx.dylib");
}
