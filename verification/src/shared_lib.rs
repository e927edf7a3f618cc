//! Where the 1Password desktop app keeps the shared library that serves
//! desktop app integration, and how the library's calls report failure.
use vstd::prelude::*;

use crate::errors::{SdkError, SdkErrorView};
use crate::wire::{i32_decimal, signed_decimal_text};

verus! {

/// Whether a candidate path stands alone or below the user's home directory.
#[derive(Debug, Clone, Copy, PartialEq, Eq)]
pub enum PathBase {
    /// The path is absolute.
    Root,
    /// The path is relative to the user's home directory.
    Home,
}

/// A place where the shared library may be installed.
#[derive(Debug, Clone, PartialEq, Eq)]
pub struct LibraryLocation {
    pub base: PathBase,
    pub path: String,
}

/// Whether two strings hold the same characters.
fn same_text(a: &str, b: &str) -> (res: bool)
    ensures
        res == (a@ == b@),
{
    a.to_owned() == b.to_owned()
}

/// The file name of the shared library on an operating system, as Rust
/// names it (`std::env::consts::OS`).
pub open spec fn library_file_name_view(os: Seq<char>) -> Seq<char> {
    if os == "macos"@ {
        "libop_sdk_ipc_client.dylib"@
    } else if os == "windows"@ {
        "op_sdk_ipc_client.dll"@
    } else {
        "libop_sdk_ipc_client.so"@
    }
}

/// The places searched for the shared library on an operating system, in
/// the order they are tried; `None` where the desktop app is not supported.
pub open spec fn library_locations_view(os: Seq<char>) -> Option<Seq<(PathBase, Seq<char>)>> {
    let lib = library_file_name_view(os);
    if os == "macos"@ {
        Some(
            seq![
                (PathBase::Root, "/Applications/1Password.app/Contents/Frameworks/"@ + lib),
                (PathBase::Home, "Applications/1Password.app/Contents/Frameworks/"@ + lib),
            ],
        )
    } else if os == "linux"@ {
        Some(
            seq![
                (PathBase::Root, "/usr/bin/1password/"@ + lib),
                (PathBase::Root, "/opt/1Password/"@ + lib),
                (PathBase::Root, "/snap/bin/1password/"@ + lib),
            ],
        )
    } else if os == "windows"@ {
        Some(
            seq![
                (PathBase::Home, "AppData\\Local\\1Password\\"@ + lib),
                (PathBase::Root, "C:\\Program Files\\1Password\\app\\8\\"@ + lib),
                (PathBase::Root, "C:\\Program Files (x86)\\1Password\\app\\8\\"@ + lib),
            ],
        )
    } else {
        None
    }
}

/// The base and path of each location.
pub open spec fn locations_view(locations: Seq<LibraryLocation>) -> Seq<(PathBase, Seq<char>)> {
    Seq::new(locations.len(), |i: int| (locations[i].base, locations[i].path@))
}

/// The file name of the shared library on the operating system `os`.
pub fn library_file_name(os: &str) -> (res: String)
    ensures
        res@ == library_file_name_view(os@),
{
    if same_text(os, "macos") {
        "libop_sdk_ipc_client.dylib".to_owned()
    } else if same_text(os, "windows") {
        "op_sdk_ipc_client.dll".to_owned()
    } else {
        "libop_sdk_ipc_client.so".to_owned()
    }
}

fn location(base: PathBase, dir: &str, lib: &str) -> (res: LibraryLocation)
    ensures
        res.base == base,
        res.path@ == dir@ + lib@,
{
    let mut path = dir.to_owned();
    path.append(lib);
    LibraryLocation { base, path }
}

/// The places to search for the shared library on the operating system
/// `os`, in order; a shared library error where the desktop app is not
/// supported.
pub fn library_locations(os: &str) -> (res: Result<Vec<LibraryLocation>, SdkError>)
    ensures
        res is Ok <==> library_locations_view(os@) is Some,
        res matches Ok(locations) ==> library_locations_view(os@) == Some(
            locations_view(locations@),
        ),
        res matches Err(e) ==> e@ == SdkErrorView::SharedLib("unsupported OS: "@ + os@),
{
    let lib = library_file_name(os);
    let lib = lib.as_str();
    let mut locations: Vec<LibraryLocation> = Vec::new();
    if same_text(os, "macos") {
        locations.push(location(PathBase::Root, "/Applications/1Password.app/Contents/Frameworks/", lib));
        locations.push(location(PathBase::Home, "Applications/1Password.app/Contents/Frameworks/", lib));
    } else if same_text(os, "linux") {
        locations.push(location(PathBase::Root, "/usr/bin/1password/", lib));
        locations.push(location(PathBase::Root, "/opt/1Password/", lib));
        locations.push(location(PathBase::Root, "/snap/bin/1password/", lib));
    } else if same_text(os, "windows") {
        locations.push(location(PathBase::Home, "AppData\\Local\\1Password\\", lib));
        locations.push(location(PathBase::Root, "C:\\Program Files\\1Password\\app\\8\\", lib));
        locations.push(location(PathBase::Root, "C:\\Program Files (x86)\\1Password\\app\\8\\", lib));
    } else {
        let mut message = "unsupported OS: ".to_owned();
        message.append(os);
        return Err(SdkError::SharedLib(message));
    }
    assert(Some(locations_view(locations@)) =~= library_locations_view(os@));
    Ok(locations)
}

/// The place the shared library is loaded from: the first of the places
/// searched, in order, that exists; `exists[i]` tells whether the place `i`
/// does. `None` when none exists.
pub fn first_existing(exists: &[bool]) -> (res: Option<usize>)
    ensures
        res is None <==> forall|i: int| 0 <= i < exists@.len() ==> !exists@[i],
        res matches Some(k) ==> k < exists@.len() && exists@[k as int] && forall|i: int|
            0 <= i < k ==> !exists@[i],
{
    let n = exists.len();
    let mut i: usize = 0;
    while i < n
        invariant
            n == exists@.len(),
            i <= n,
            forall|j: int| 0 <= j < i ==> !exists@[j],
        decreases n - i,
    {
        if exists[i] {
            return Some(i);
        }
        i = i + 1;
    }
    None
}

/// The texts joined by ", ".
pub open spec fn listed(texts: Seq<Seq<char>>) -> Seq<char>
    decreases texts.len(),
{
    if texts.len() == 0 {
        Seq::empty()
    } else if texts.len() == 1 {
        texts[0]
    } else {
        listed(texts.drop_last()) + ", "@ + texts.last()
    }
}

/// The error when the shared library is in none of the places searched;
/// `searched` are those places as displayed.
pub fn library_not_found_error(searched: &[String]) -> (res: SdkError)
    ensures
        res@ == SdkErrorView::SharedLib(
            "1Password desktop application not found. Searched: "@ + listed(
                Seq::new(searched@.len(), |i: int| searched@[i]@),
            ),
        ),
{
    let ghost texts = Seq::new(searched@.len(), |i: int| searched@[i]@);
    let mut list = String::new();
    let n = searched.len();
    let mut i: usize = 0;
    while i < n
        invariant
            n == searched@.len(),
            i <= n,
            texts == Seq::new(searched@.len(), |i: int| searched@[i]@),
            list@ == listed(texts.take(i as int)),
        decreases n - i,
    {
        if i > 0 {
            list.append(", ");
        }
        list.append(searched[i].as_str());
        assert(texts.take(i + 1).drop_last() =~= texts.take(i as int));
        assert(texts.take(i + 1).last() == texts[i as int]);
        i = i + 1;
    }
    assert(texts.take(n as int) =~= texts);
    let mut message = "1Password desktop application not found. Searched: ".to_owned();
    message.append(list.as_str());
    SdkError::SharedLib(message)
}

/// What a call of the shared library returned: zero is success; any other
/// code is a shared library error that names it.
pub fn call_status(code: i32) -> (res: Result<(), SdkError>)
    ensures
        res is Ok <==> code == 0,
        res matches Err(e) ==> e@ == SdkErrorView::SharedLib(
            "shared library call failed with code "@ + signed_decimal_text(code as int),
        ),
{
    if code != 0 {
        let mut message = "shared library call failed with code ".to_owned();
        message.append(i32_decimal(code).as_str());
        Err(SdkError::SharedLib(message))
    } else {
        Ok(())
    }
}

/// The places searched on each supported system, written out in full: on
/// macOS the app bundle's `Frameworks` directory, first system-wide under
/// `/Applications`, then under the user's own `Applications`; on Linux the
/// package, `/opt` and snap installs; on Windows the user's local app data,
/// then the 64-bit and 32-bit program directories.
pub proof fn lemma_library_locations_in_full(os: Seq<char>)
    ensures
        os == "macos"@ ==> library_locations_view(os) == Some(seq![
            (PathBase::Root, "/Applications/1Password.app/Contents/Frameworks/libop_sdk_ipc_client.dylib"@),
            (PathBase::Home, "Applications/1Password.app/Contents/Frameworks/libop_sdk_ipc_client.dylib"@),
        ]),
        os == "linux"@ ==> library_locations_view(os) == Some(seq![
            (PathBase::Root, "/usr/bin/1password/libop_sdk_ipc_client.so"@),
            (PathBase::Root, "/opt/1Password/libop_sdk_ipc_client.so"@),
            (PathBase::Root, "/snap/bin/1password/libop_sdk_ipc_client.so"@),
        ]),
        os == "windows"@ ==> library_locations_view(os) == Some(seq![
            (PathBase::Home, "AppData\\Local\\1Password\\op_sdk_ipc_client.dll"@),
            (PathBase::Root, "C:\\Program Files\\1Password\\app\\8\\op_sdk_ipc_client.dll"@),
            (PathBase::Root, "C:\\Program Files (x86)\\1Password\\app\\8\\op_sdk_ipc_client.dll"@),
        ]),
{
    reveal_strlit("macos");
    reveal_strlit("linux");
    reveal_strlit("windows");
    assert("linux"@[0] != "macos"@[0]);
    assert("windows"@.len() != "macos"@.len());
    assert("windows"@.len() != "linux"@.len());
    if os == "macos"@ {
        reveal_strlit("libop_sdk_ipc_client.dylib");
        reveal_strlit("/Applications/1Password.app/Contents/Frameworks/");
        reveal_strlit("Applications/1Password.app/Contents/Frameworks/");
        reveal_strlit("/Applications/1Password.app/Contents/Frameworks/libop_sdk_ipc_client.dylib");
        reveal_strlit("Applications/1Password.app/Contents/Frameworks/libop_sdk_ipc_client.dylib");
        assert("/Applications/1Password.app/Contents/Frameworks/"@ + "libop_sdk_ipc_client.dylib"@
            =~= "/Applications/1Password.app/Contents/Frameworks/libop_sdk_ipc_client.dylib"@);
        assert("Applications/1Password.app/Contents/Frameworks/"@ + "libop_sdk_ipc_client.dylib"@
            =~= "Applications/1Password.app/Contents/Frameworks/libop_sdk_ipc_client.dylib"@);
    } else if os == "linux"@ {
        reveal_strlit("libop_sdk_ipc_client.so");
        reveal_strlit("/usr/bin/1password/");
        reveal_strlit("/opt/1Password/");
        reveal_strlit("/snap/bin/1password/");
        reveal_strlit("/usr/bin/1password/libop_sdk_ipc_client.so");
        reveal_strlit("/opt/1Password/libop_sdk_ipc_client.so");
        reveal_strlit("/snap/bin/1password/libop_sdk_ipc_client.so");
        assert("/usr/bin/1password/"@ + "libop_sdk_ipc_client.so"@
            =~= "/usr/bin/1password/libop_sdk_ipc_client.so"@);
        assert("/opt/1Password/"@ + "libop_sdk_ipc_client.so"@
            =~= "/opt/1Password/libop_sdk_ipc_client.so"@);
        assert("/snap/bin/1password/"@ + "libop_sdk_ipc_client.so"@
            =~= "/snap/bin/1password/libop_sdk_ipc_client.so"@);
    } else if os == "windows"@ {
        reveal_strlit("op_sdk_ipc_client.dll");
        reveal_strlit("AppData\\Local\\1Password\\");
        reveal_strlit("C:\\Program Files\\1Password\\app\\8\\");
        reveal_strlit("C:\\Program Files (x86)\\1Password\\app\\8\\");
        reveal_strlit("AppData\\Local\\1Password\\op_sdk_ipc_client.dll");
        reveal_strlit("C:\\Program Files\\1Password\\app\\8\\op_sdk_ipc_client.dll");
        reveal_strlit("C:\\Program Files (x86)\\1Password\\app\\8\\op_sdk_ipc_client.dll");
        assert("AppData\\Local\\1Password\\"@ + "op_sdk_ipc_client.dll"@
            =~= "AppData\\Local\\1Password\\op_sdk_ipc_client.dll"@);
        assert("C:\\Program Files\\1Password\\app\\8\\"@ + "op_sdk_ipc_client.dll"@
            =~= "C:\\Program Files\\1Password\\app\\8\\op_sdk_ipc_client.dll"@);
        assert("C:\\Program Files (x86)\\1Password\\app\\8\\"@ + "op_sdk_ipc_client.dll"@
            =~= "C:\\Program Files (x86)\\1Password\\app\\8\\op_sdk_ipc_client.dll"@);
    }
}

/// Every place searched on a supported system ends with the file name of
/// the system's shared library.
pub proof fn lemma_every_place_ends_with_the_library_name(os: Seq<char>, i: int)
    requires
        library_locations_view(os) is Some,
        0 <= i < library_locations_view(os)->0.len(),
    ensures
        ({
            let path = library_locations_view(os)->0[i].1;
            let lib = library_file_name_view(os);
            lib.len() <= path.len() && path.subrange(path.len() - lib.len(), path.len() as int) == lib
        }),
{
    let lib = library_file_name_view(os);
    let path = library_locations_view(os)->0[i].1;
    assert(path.subrange(path.len() - lib.len(), path.len() as int) =~= lib);
}

/// On macOS the system-wide place is the place under the user's home
/// directory made absolute: the same path with a leading `/`.
pub proof fn lemma_mac_system_place_is_the_home_place_from_root()
    ensures
        ({
            let places = library_locations_view("macos"@)->0;
            &&& places.len() == 2
            &&& places[0].0 == PathBase::Root
            &&& places[1].0 == PathBase::Home
            &&& places[0].1 == seq!['/'] + places[1].1
        }),
{
    reveal_strlit("/Applications/1Password.app/Contents/Frameworks/");
    reveal_strlit("Applications/1Password.app/Contents/Frameworks/");
    let lib = library_file_name_view("macos"@);
    assert("/Applications/1Password.app/Contents/Frameworks/"@ + lib
        =~= seq!['/'] + ("Applications/1Password.app/Contents/Frameworks/"@ + lib));
}

} // verus!
