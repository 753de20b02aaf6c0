//! Where a plugin library is found: the file that the system's dynamic
//! loader expects for a library name, inside a given directory.
use vstd::prelude::*;

verus! {

/// The systems whose library files the loader knows how to name.
#[derive(Clone, Copy, Debug, PartialEq, Eq, Structural)]
pub enum TargetOs {
    Linux,
    MacOs,
    Windows,
}

/// The name of the file that holds the library `name` on `os`.
pub open spec fn library_file_name_of(os: TargetOs, name: Seq<char>) -> Seq<char> {
    match os {
        TargetOs::Linux => "lib"@ + name + ".so"@,
        TargetOs::MacOs => "lib"@ + name + ".dylib"@,
        TargetOs::Windows => name + ".dll"@,
    }
}

/// The file that holds the library `name` on `os`: `lib<name>.so` on
/// Linux, `lib<name>.dylib` on macOS and `<name>.dll` on Windows.
pub fn library_file_name(os: TargetOs, name: &str) -> (file_name: String)
    ensures
        file_name@ == library_file_name_of(os, name@),
        os == TargetOs::Linux ==> file_name@ == "lib"@ + name@ + ".so"@,
        os == TargetOs::MacOs ==> file_name@ == "lib"@ + name@ + ".dylib"@,
        os == TargetOs::Windows ==> file_name@ == name@ + ".dll"@,
{
    let mut file_name = String::new();
    match os {
        TargetOs::Linux => {
            file_name.append("lib");
            file_name.append(name);
            file_name.append(".so");
        },
        TargetOs::MacOs => {
            file_name.append("lib");
            file_name.append(name);
            file_name.append(".dylib");
        },
        TargetOs::Windows => {
            file_name.append(name);
            file_name.append(".dll");
        },
    }
    file_name
}

/// The path of the library `name` in the directory `path` on `os`.
pub fn library_path(path: &str, name: &str, os: TargetOs) -> (lib_path: String)
    ensures
        lib_path@ == path@ + "/"@ + library_file_name_of(os, name@),
        os == TargetOs::Linux ==> lib_path@ == path@ + "/"@ + "lib"@ + name@ + ".so"@,
        os == TargetOs::MacOs ==> lib_path@ == path@ + "/"@ + "lib"@ + name@ + ".dylib"@,
        os == TargetOs::Windows ==> lib_path@ == path@ + "/"@ + name@ + ".dll"@,
{
    let file_name = library_file_name(os, name);
    let mut lib_path = String::new();
    lib_path.append(path);
    lib_path.append("/");
    lib_path.append(file_name.as_str());
    lib_path
}

/// The file of a library holds its whole name, between the system's
/// prefix and extension: `lib` and `.so` on Linux, `lib` and `.dylib` on
/// macOS, no prefix and `.dll` on Windows; so two different names never
/// share a file.
pub proof fn lemma_library_file_keeps_name(os: TargetOs, name: Seq<char>, other: Seq<char>)
    ensures
        os == TargetOs::Linux ==> library_file_name_of(os, name) == "lib"@ + name + ".so"@,
        os == TargetOs::MacOs ==> library_file_name_of(os, name) == "lib"@ + name + ".dylib"@,
        os == TargetOs::Windows ==> library_file_name_of(os, name) == name + ".dll"@,
        library_file_name_of(os, name) == library_file_name_of(os, other) ==> name == other,
{
    let prefix: Seq<char> = if os == TargetOs::Windows { Seq::empty() } else { "lib"@ };
    let suffix: Seq<char> = match os {
        TargetOs::Linux => ".so"@,
        TargetOs::MacOs => ".dylib"@,
        TargetOs::Windows => ".dll"@,
    };
    assert(library_file_name_of(os, name) =~= prefix + name + suffix);
    assert(library_file_name_of(os, other) =~= prefix + other + suffix);
    if library_file_name_of(os, name) == library_file_name_of(os, other) {
        let whole = prefix + name + suffix;
        assert(whole.len() == prefix.len() + name.len() + suffix.len());
        assert((prefix + other + suffix).len() == prefix.len() + other.len() + suffix.len());
        assert(name =~= whole.subrange(prefix.len() as int, (prefix.len() + name.len()) as int));
        assert(other =~= (prefix + other + suffix).subrange(
            prefix.len() as int,
            (prefix.len() + other.len()) as int,
        ));
    }
}

} // verus!
