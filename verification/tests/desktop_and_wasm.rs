use onepassword_sdk::permissions;
use onepassword_sdk::shared_lib::{
    call_status, library_file_name, library_locations, library_not_found_error, PathBase,
};
use onepassword_sdk::wasm_core::allowed_hosts;
use onepassword_sdk::SdkError;

#[test]
fn library_names_follow_the_platform() {
    assert_eq!(library_file_name("macos"), "libop_sdk_ipc_client.dylib");
    assert_eq!(library_file_name("windows"), "op_sdk_ipc_client.dll");
    assert_eq!(library_file_name("linux"), "libop_sdk_ipc_client.so");
}

#[test]
fn linux_locations_are_absolute() {
    let locations = library_locations("linux").unwrap();
    let paths: Vec<&str> = locations.iter().map(|l| l.path.as_str()).collect();
    assert_eq!(
        paths,
        vec![
            "/usr/bin/1password/libop_sdk_ipc_client.so",
            "/opt/1Password/libop_sdk_ipc_client.so",
            "/snap/bin/1password/libop_sdk_ipc_client.so",
        ]
    );
    assert!(locations.iter().all(|l| l.base == PathBase::Root));
}

#[test]
fn macos_and_windows_search_the_home_directory() {
    let mac = library_locations("macos").unwrap();
    assert_eq!(mac.len(), 2);
    assert_eq!(mac[1].base, PathBase::Home);
    assert_eq!(mac[1].path, "Applications/1Password.app/Contents/Frameworks/libop_sdk_ipc_client.dylib");
    let win = library_locations("windows").unwrap();
    assert_eq!(win[0].base, PathBase::Home);
    assert_eq!(win[0].path, "AppData\\Local\\1Password\\op_sdk_ipc_client.dll");
    assert_eq!(win[2].path, "C:\\Program Files (x86)\\1Password\\app\\8\\op_sdk_ipc_client.dll");
}

#[test]
fn unsupported_platforms_are_refused() {
    match library_locations("freebsd") {
        Err(SdkError::SharedLib(m)) => assert_eq!(m, "unsupported OS: freebsd"),
        _ => panic!("expected SharedLib error"),
    }
}

#[test]
fn not_found_error_lists_the_places_searched() {
    let searched = vec!["/a".to_string(), "/b".to_string()];
    match library_not_found_error(&searched) {
        SdkError::SharedLib(m) => {
            assert_eq!(m, "1Password desktop application not found. Searched: /a, /b")
        }
        _ => panic!("expected SharedLib error"),
    }
}

#[test]
fn call_status_reports_nonzero_codes() {
    assert!(call_status(0).is_ok());
    match call_status(-3) {
        Err(SdkError::SharedLib(m)) => assert_eq!(m, "shared library call failed with code -3"),
        _ => panic!("expected SharedLib error"),
    }
}

#[test]
fn wasm_core_may_reach_only_1password_hosts() {
    let hosts = allowed_hosts();
    assert_eq!(hosts.len(), 12);
    assert_eq!(hosts[0], "*.1password.com");
    assert!(hosts.iter().all(|h| h.starts_with("*.")));
}

#[test]
fn permission_bits_are_distinct() {
    assert_eq!(permissions::READ_ITEMS | permissions::CREATE_ITEMS, 160);
    assert_eq!(permissions::NO_ACCESS, 0);
    assert_eq!(permissions::PRINT_ITEMS, 1 << 23);
}

#[test]
fn the_first_existing_place_is_used() {
    assert_eq!(onepassword_sdk::shared_lib::first_existing(&[false, true, true]), Some(1));
    assert_eq!(onepassword_sdk::shared_lib::first_existing(&[true, false]), Some(0));
    assert_eq!(onepassword_sdk::shared_lib::first_existing(&[false, false]), None);
    assert_eq!(onepassword_sdk::shared_lib::first_existing(&[]), None);
}
