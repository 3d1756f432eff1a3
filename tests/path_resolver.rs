use native_messaging::install::paths::{
    manifest_path, BrowserCfg, Config, DirVars, Os, PathEntry, PathsByOs, Scope, Scopes,
};

fn browser(family: &str, user_dir: &str) -> BrowserCfg {
    BrowserCfg {
        family: family.to_string(),
        windows_registry: false,
        paths: PathsByOs {
            macos: None,
            linux: Some(Scopes { user: Some(PathEntry { dir: user_dir.to_string() }), system: None }),
            windows: None,
        },
        windows: None,
    }
}

fn known_browsers() -> Config {
    let entries = vec![
        ("chrome", "chromium", "{HOME}/.config/google-chrome/NativeMessagingHosts"),
        ("edge", "chromium", "{HOME}/.config/microsoft-edge/NativeMessagingHosts"),
        ("chromium", "chromium", "{HOME}/.config/chromium/NativeMessagingHosts"),
        ("brave", "chromium", "{HOME}/.config/BraveSoftware/Brave-Browser/NativeMessagingHosts"),
        ("vivaldi", "chromium", "{HOME}/.config/vivaldi/NativeMessagingHosts"),
        ("firefox", "firefox", "{HOME}/.mozilla/native-messaging-hosts"),
        ("librewolf", "firefox", "{HOME}/.librewolf/native-messaging-hosts"),
    ];
    let browsers = entries
        .into_iter()
        .map(|(k, f, d)| (k.to_string(), browser(f, d)))
        .collect();
    native_messaging::install::paths::config(1, browsers).unwrap()
}

#[test]
fn manifest_path_resolves_for_known_browsers_user_scope() {
    let cfg = known_browsers();
    let vars = DirVars {
        home: Some("/tmp/sandbox/home".to_string()),
        local_app_data: None,
        app_data: None,
        program_data: None,
    };

    let host = "com.example.testhost";

    let browser_keys = [
        "chrome",
        "edge",
        "chromium",
        "brave",
        "vivaldi",
        "firefox",
        "librewolf",
    ];

    for key in browser_keys {
        match manifest_path(&cfg, key, Scope::User, host, Os::Linux, &vars) {
            Ok(s) => {
                assert!(s.contains(host), "path should include host name: {s}");
                assert!(s.ends_with(".json"), "path should end with .json: {s}");
            }
            Err(_e) => {
                // A browser without a location for this OS and scope is acceptable.
            }
        }
    }
}
