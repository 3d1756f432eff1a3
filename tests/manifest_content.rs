use native_messaging::install::manifest::{
    check_manifest_text, ensure_absolute_path, family_of, host_manifest, validate_manifest, AllowList,
    Family, ManifestShape,
};
use native_messaging::install::paths::{InstallError, Os};

fn origins() -> Vec<String> {
    vec!["chrome-extension://aaaaaaaaaaaaaaaaaaaaaaaaaaaaaaaa/".to_string()]
}

fn extensions() -> Vec<String> {
    vec!["native-test@example.com".to_string()]
}

#[test]
fn manifest_shapes_match_expectations() {
    let chrome = host_manifest("chromium", "com.example.host", "desc", "/abs/path", &origins(), &extensions())
        .unwrap();
    assert_eq!(chrome.name, "com.example.host");
    assert_eq!(chrome.description, "desc");
    assert_eq!(chrome.path, "/abs/path");
    assert_eq!(chrome.ty, "stdio");
    assert!(matches!(&chrome.allowed, AllowList::Origins(v) if *v == origins()));

    let firefox = host_manifest("firefox", "com.example.host", "desc", "/abs/path", &origins(), &extensions())
        .unwrap();
    assert_eq!(firefox.ty, "stdio");
    assert!(matches!(&firefox.allowed, AllowList::Extensions(v) if *v == extensions()));
}

#[test]
fn unknown_family_is_refused() {
    let r = host_manifest("webkit", "h", "d", "/p", &origins(), &extensions());
    assert_eq!(r.unwrap_err(), InstallError::UnknownFamily);
    assert_eq!(family_of("chromium"), Some(Family::Chromium));
    assert_eq!(family_of("firefox"), Some(Family::Firefox));
    assert_eq!(family_of("Firefox"), None);
}

#[test]
fn install_rejects_relative_exe_path_on_unix() {
    assert_eq!(
        ensure_absolute_path("relative/path/to/host", Os::Linux),
        Err(InstallError::RelativeExePath)
    );
    assert_eq!(ensure_absolute_path("relative/path/to/host", Os::MacOs), Err(InstallError::RelativeExePath));
    assert_eq!(ensure_absolute_path("/abs/host", Os::Linux), Ok(()));
    assert_eq!(ensure_absolute_path("host.exe", Os::Windows), Ok(()));
}

fn chrome_shape() -> ManifestShape {
    ManifestShape {
        is_object: true,
        name: Some("com.example.host".to_string()),
        ty: Some("stdio".to_string()),
        path: Some("/abs/path".to_string()),
        has_origins: true,
        origins_is_array: true,
        has_extensions: false,
        extensions_is_array: false,
    }
}

#[test]
fn validation_of_shapes() {
    let s = chrome_shape();
    assert!(validate_manifest(&s, "chromium", "com.example.host", Os::Linux));
    assert!(!validate_manifest(&s, "chromium", "com.example.other", Os::Linux));
    assert!(!validate_manifest(&s, "firefox", "com.example.host", Os::Linux));
    assert!(!validate_manifest(&s, "other", "com.example.host", Os::Linux));

    let mut both = chrome_shape();
    both.has_extensions = true;
    both.extensions_is_array = true;
    assert!(!validate_manifest(&both, "chromium", "com.example.host", Os::Linux));

    let mut relative = chrome_shape();
    relative.path = Some("rel/path".to_string());
    assert!(!validate_manifest(&relative, "chromium", "com.example.host", Os::Linux));
    assert!(validate_manifest(&relative, "chromium", "com.example.host", Os::Windows));

    let mut wrong_type = chrome_shape();
    wrong_type.ty = Some("socket".to_string());
    assert!(!validate_manifest(&wrong_type, "chromium", "com.example.host", Os::Linux));
}

#[test]
fn validation_of_manifest_text() {
    let chrome = r#"{"name":"com.example.host","description":"desc","path":"/abs/path","type":"stdio","allowed_origins":["chrome-extension://aaaaaaaaaaaaaaaaaaaaaaaaaaaaaaaa/"]}"#;
    assert_eq!(check_manifest_text(chrome, "chromium", "com.example.host", Os::Linux), Ok(true));
    assert_eq!(check_manifest_text(chrome, "firefox", "com.example.host", Os::Linux), Ok(false));

    let firefox = r#"{"name":"com.example.host","description":"desc","path":"/abs/path","type":"stdio","allowed_extensions":["native-test@example.com"]}"#;
    assert_eq!(check_manifest_text(firefox, "firefox", "com.example.host", Os::Linux), Ok(true));

    let origins_not_array = r#"{"name":"h","path":"/p","type":"stdio","allowed_origins":"x"}"#;
    assert_eq!(check_manifest_text(origins_not_array, "chromium", "h", Os::Linux), Ok(false));

    assert_eq!(check_manifest_text("[1,2]", "chromium", "h", Os::Linux), Ok(false));
    assert_eq!(
        check_manifest_text("{not json", "chromium", "h", Os::Linux),
        Err(InstallError::InvalidManifestJson)
    );
}

#[test]
fn manifest_text_members_of_wrong_kind() {
    let name_not_string = r#"{"name":7,"path":"/p","type":"stdio","allowed_origins":[]}"#;
    assert_eq!(check_manifest_text(name_not_string, "chromium", "7", Os::Linux), Ok(false));
    let no_path = r#"{"name":"h","type":"stdio","allowed_origins":[]}"#;
    assert_eq!(check_manifest_text(no_path, "chromium", "h", Os::Linux), Ok(false));
    let ok = r#"{"name":"h","path":"C:\\h.exe","type":"stdio","allowed_origins":[]}"#;
    assert_eq!(check_manifest_text(ok, "chromium", "h", Os::Windows), Ok(true));
    assert_eq!(check_manifest_text("", "chromium", "h", Os::Linux), Err(InstallError::InvalidManifestJson));
}
