//! The browser configuration and the locations that it gives to manifests and
//! registry pointers.
use vstd::prelude::*;

use crate::text::{concat_text, contains_text, ends_with_char, occurs_in, replace_all, replace_text, text_eq};

verus! {

/// Whether a manifest is installed for the current user or for the machine.
#[derive(Debug, Clone, Copy, PartialEq, Eq, Structural)]
pub enum Scope {
    User,
    System,
}

/// The operating system whose locations apply.
#[derive(Debug, Clone, Copy, PartialEq, Eq, Structural)]
pub enum Os {
    MacOs,
    Linux,
    Windows,
    Other,
}

/// A variable that a directory template may reference.
#[derive(Debug, Clone, Copy, PartialEq, Eq, Structural)]
pub enum DirVar {
    Home,
    LocalAppData,
    AppData,
    ProgramData,
}

/// Why a configuration or a location could not be produced.
#[derive(Debug, Clone, Copy, PartialEq, Eq, Structural)]
pub enum InstallError {
    /// The configuration's schema version is not 1; it carries the version.
    UnsupportedSchema(u32),
    /// Two browsers of the configuration share a key.
    DuplicateBrowser,
    /// No browser of the configuration has the key asked for.
    UnknownBrowser,
    /// Locations are known for macOS, Linux and Windows only.
    UnsupportedOs,
    /// The browser has no locations for this operating system.
    OsNotConfigured,
    /// The browser has no location for this scope on this operating system.
    ScopeNotConfigured,
    /// A directory template references a variable that is not set.
    MissingVar(DirVar),
    /// The browser does not use registry pointers.
    RegistryNotEnabled,
    /// The browser uses registry pointers but configures none.
    RegistryConfigMissing,
    /// The browser configures no registry key for this scope.
    RegistryTemplateMissing,
    /// The host executable's path is not absolute where it must be.
    RelativeExePath,
    /// The browser's family is neither "chromium" nor "firefox".
    UnknownFamily,
    /// A found manifest is not JSON.
    InvalidManifestJson,
}

/// A directory template, such as `{HOME}/.config/google-chrome/NativeMessagingHosts`.
#[derive(Debug)]
pub struct PathEntry {
    pub dir: String,
}

/// The directory templates of the two scopes.
#[derive(Debug)]
pub struct Scopes {
    pub user: Option<PathEntry>,
    pub system: Option<PathEntry>,
}

/// The directory templates for each operating system.
#[derive(Debug)]
pub struct PathsByOs {
    pub macos: Option<Scopes>,
    pub linux: Option<Scopes>,
    pub windows: Option<Scopes>,
}

/// Registry key templates; `{name}` stands for the host's name.
#[derive(Debug)]
pub struct RegistryCfg {
    pub hkcu_key_template: Option<String>,
    pub hklm_key_template: Option<String>,
}

/// Windows-only settings of a browser.
#[derive(Debug)]
pub struct WindowsCfg {
    pub registry: Option<RegistryCfg>,
}

/// How one browser finds native hosts.
#[derive(Debug)]
pub struct BrowserCfg {
    /// "chromium" or "firefox".
    pub family: String,
    /// Whether Windows registry pointers are written for this browser.
    pub windows_registry: bool,
    pub paths: PathsByOs,
    pub windows: Option<WindowsCfg>,
}

/// The browsers that the installer knows, each under its key.
#[derive(Debug)]
pub struct Config {
    pub schema_version: u32,
    pub browsers: Vec<(String, BrowserCfg)>,
}

/// The values of the variables that directory templates may reference.
#[derive(Debug)]
pub struct DirVars {
    pub home: Option<String>,
    pub local_app_data: Option<String>,
    pub app_data: Option<String>,
    pub program_data: Option<String>,
}

/// No two browsers share a key.
pub open spec fn keys_unique(entries: Seq<(String, BrowserCfg)>) -> bool {
    forall|i: int, j: int|
        0 <= i < j < entries.len() ==> (#[trigger] entries[i]).0@ != (#[trigger] entries[j]).0@
}

impl Config {
    /// A configuration of the supported schema, with distinct keys.
    pub open spec fn wf(&self) -> bool {
        self.schema_version == 1 && keys_unique(self.browsers@)
    }
}

/// The browser configured under `key`.
pub open spec fn lookup(entries: Seq<(String, BrowserCfg)>, key: Seq<char>) -> Option<BrowserCfg>
    decreases entries.len(),
{
    if entries.len() == 0 {
        None
    } else if entries[0].0@ == key {
        Some(entries[0].1)
    } else {
        lookup(entries.drop_first(), key)
    }
}

/// Builds a configuration, refusing a schema version other than 1 and two
/// browsers under one key.
pub fn config(schema_version: u32, browsers: Vec<(String, BrowserCfg)>) -> (r: Result<Config, InstallError>)
    ensures
        match r {
            Ok(c) => c.wf() && c.schema_version == schema_version && c.browsers@ == browsers@,
            Err(InstallError::UnsupportedSchema(v)) => v == schema_version && schema_version != 1,
            Err(InstallError::DuplicateBrowser) => schema_version == 1 && !keys_unique(browsers@),
            Err(_) => false,
        },
{
    if schema_version != 1 {
        return Err(InstallError::UnsupportedSchema(schema_version));
    }
    let n = browsers.len();
    let mut i: usize = 0;
    while i < n
        invariant
            schema_version == 1,
            n == browsers@.len(),
            i <= n,
            forall|p: int, q: int|
                0 <= p < q < i ==> (#[trigger] browsers@[p]).0@ != (#[trigger] browsers@[q]).0@,
        decreases n - i,
    {
        let mut j: usize = 0;
        while j < i
            invariant
                schema_version == 1,
                n == browsers@.len(),
                j <= i,
                i < n,
                forall|p: int| 0 <= p < j ==> (#[trigger] browsers@[p]).0@ != browsers@[i as int].0@,
            decreases i - j,
        {
            if text_eq(browsers[j].0.as_str(), browsers[i].0.as_str()) {
                assert(browsers@[j as int].0@ == browsers@[i as int].0@);
                assert(!keys_unique(browsers@));
                return Err(InstallError::DuplicateBrowser);
            }
            j = j + 1;
        }
        i = i + 1;
    }
    Ok(Config { schema_version, browsers })
}

/// The configuration of the browser under `browser_key`.
pub fn browser_cfg<'a>(cfg: &'a Config, browser_key: &str) -> (r: Result<&'a BrowserCfg, InstallError>)
    ensures
        match r {
            Ok(b) => lookup(cfg.browsers@, browser_key@) == Some(*b),
            Err(e) => lookup(cfg.browsers@, browser_key@) is None && e == InstallError::UnknownBrowser,
        },
{
    let n = cfg.browsers.len();
    let mut i: usize = 0;
    assert(cfg.browsers@.skip(0) =~= cfg.browsers@);
    while i < n
        invariant
            n == cfg.browsers@.len(),
            i <= n,
            lookup(cfg.browsers@, browser_key@) == lookup(cfg.browsers@.skip(i as int), browser_key@),
        decreases n - i,
    {
        let entry = &cfg.browsers[i];
        assert(cfg.browsers@.skip(i as int)[0] == cfg.browsers@[i as int]);
        if text_eq(entry.0.as_str(), browser_key) {
            return Ok(&entry.1);
        }
        assert(cfg.browsers@.skip(i as int).drop_first() =~= cfg.browsers@.skip(i + 1));
        i = i + 1;
    }
    Err(InstallError::UnknownBrowser)
}

/// The directory templates for `os`, if the browser configures them.
pub open spec fn scopes_for(paths: PathsByOs, os: Os) -> Option<Scopes> {
    match os {
        Os::MacOs => paths.macos,
        Os::Linux => paths.linux,
        Os::Windows => paths.windows,
        Os::Other => None,
    }
}

/// The directory template for `scope`, if configured.
pub open spec fn entry_for(scopes: Scopes, scope: Scope) -> Option<PathEntry> {
    match scope {
        Scope::User => scopes.user,
        Scope::System => scopes.system,
    }
}

/// The value of `var`.
pub open spec fn var_value(vars: DirVars, var: DirVar) -> Option<String> {
    match var {
        DirVar::Home => vars.home,
        DirVar::LocalAppData => vars.local_app_data,
        DirVar::AppData => vars.app_data,
        DirVar::ProgramData => vars.program_data,
    }
}

/// The placeholder by which a template references `var`.
pub open spec fn token_of(var: DirVar) -> Seq<char> {
    match var {
        DirVar::Home => "{HOME}"@,
        DirVar::LocalAppData => "{LOCALAPPDATA}"@,
        DirVar::AppData => "{APPDATA}"@,
        DirVar::ProgramData => "{PROGRAMDATA}"@,
    }
}

/// `s` with the placeholder of `var` replaced by its value; an error if the
/// placeholder occurs and the variable is not set.
pub open spec fn substitute(s: Seq<char>, var: DirVar, vars: DirVars) -> Result<Seq<char>, InstallError> {
    if occurs_in(s, token_of(var)) {
        match var_value(vars, var) {
            Some(v) => Ok(replace_all(s, token_of(var), v@)),
            None => Err(InstallError::MissingVar(var)),
        }
    } else {
        Ok(s)
    }
}

/// `t` with `{HOME}`, `{LOCALAPPDATA}`, `{APPDATA}` and `{PROGRAMDATA}` replaced,
/// in that order.
pub open spec fn resolve_spec(t: Seq<char>, vars: DirVars) -> Result<Seq<char>, InstallError> {
    match substitute(t, DirVar::Home, vars) {
        Err(e) => Err(e),
        Ok(a) => match substitute(a, DirVar::LocalAppData, vars) {
            Err(e) => Err(e),
            Ok(b) => match substitute(b, DirVar::AppData, vars) {
                Err(e) => Err(e),
                Ok(c) => substitute(c, DirVar::ProgramData, vars),
            },
        },
    }
}

/// The path separator of `os`.
pub open spec fn separator(os: Os) -> char {
    if os == Os::Windows {
        '\\'
    } else {
        '/'
    }
}

/// The file `file` in the directory `dir`: a separator goes between them
/// unless `dir` is empty or already ends with one.
pub open spec fn join_spec(dir: Seq<char>, file: Seq<char>, os: Os) -> Seq<char> {
    if dir.len() == 0 {
        file
    } else if dir.last() == '/' || dir.last() == separator(os) {
        dir + file
    } else {
        dir + seq![separator(os)] + file
    }
}

/// Where the manifest of `host_name` goes for a browser, a scope and an OS.
pub open spec fn manifest_path_spec(
    cfg: Config,
    browser_key: Seq<char>,
    scope: Scope,
    host_name: Seq<char>,
    os: Os,
    vars: DirVars,
) -> Result<Seq<char>, InstallError> {
    match lookup(cfg.browsers@, browser_key) {
        None => Err(InstallError::UnknownBrowser),
        Some(b) => if os == Os::Other {
            Err(InstallError::UnsupportedOs)
        } else {
            match scopes_for(b.paths, os) {
                None => Err(InstallError::OsNotConfigured),
                Some(scopes) => match entry_for(scopes, scope) {
                    None => Err(InstallError::ScopeNotConfigured),
                    Some(entry) => match resolve_spec(entry.dir@, vars) {
                        Err(e) => Err(e),
                        Ok(dir) => Ok(join_spec(dir, host_name + ".json"@, os)),
                    },
                },
            }
        },
    }
}

/// The view of a text result.
pub open spec fn path_view(r: Result<String, InstallError>) -> Result<Seq<char>, InstallError> {
    match r {
        Ok(s) => Ok(s@),
        Err(e) => Err(e),
    }
}

/// The directory templates of the current OS.
fn current_os_scopes(paths: &PathsByOs, os: Os) -> (r: Result<Option<&Scopes>, InstallError>)
    ensures
        os == Os::Other ==> r == Err::<Option<&Scopes>, InstallError>(InstallError::UnsupportedOs),
        os != Os::Other ==> r is Ok && match r->Ok_0 {
            Some(s) => scopes_for(*paths, os) == Some(*s),
            None => scopes_for(*paths, os) is None,
        },
{
    let found = match os {
        Os::MacOs => &paths.macos,
        Os::Linux => &paths.linux,
        Os::Windows => &paths.windows,
        Os::Other => {
            return Err(InstallError::UnsupportedOs);
        },
    };
    match found {
        Some(s) => Ok(Some(s)),
        None => Ok(None),
    }
}

/// Replaces the placeholder of `var` in `s` by its value, if it occurs.
fn replace_var(s: String, var: DirVar, vars: &DirVars) -> (r: Result<String, InstallError>)
    ensures
        path_view(r) == substitute(s@, var, *vars),
{
    let token = match var {
        DirVar::Home => "{HOME}",
        DirVar::LocalAppData => "{LOCALAPPDATA}",
        DirVar::AppData => "{APPDATA}",
        DirVar::ProgramData => "{PROGRAMDATA}",
    };
    proof {
        reveal_strlit("{HOME}");
        reveal_strlit("{LOCALAPPDATA}");
        reveal_strlit("{APPDATA}");
        reveal_strlit("{PROGRAMDATA}");
    }
    assert(token@ == token_of(var));
    if !contains_text(s.as_str(), token) {
        return Ok(s);
    }
    let value = match var {
        DirVar::Home => &vars.home,
        DirVar::LocalAppData => &vars.local_app_data,
        DirVar::AppData => &vars.app_data,
        DirVar::ProgramData => &vars.program_data,
    };
    match value {
        Some(v) => Ok(replace_text(s.as_str(), token, v.as_str())),
        None => Err(InstallError::MissingVar(var)),
    }
}

/// Replaces the variables that a directory template references by their values.
pub fn resolve_dir_template(t: &str, vars: &DirVars) -> (r: Result<String, InstallError>)
    ensures
        path_view(r) == resolve_spec(t@, *vars),
{
    let s = t.to_owned();
    let s = replace_var(s, DirVar::Home, vars)?;
    let s = replace_var(s, DirVar::LocalAppData, vars)?;
    let s = replace_var(s, DirVar::AppData, vars)?;
    replace_var(s, DirVar::ProgramData, vars)
}

/// Joins a directory and a file name with the separator of `os`.
pub fn join_path(dir: &str, file: &str, os: Os) -> (r: String)
    ensures
        r@ == join_spec(dir@, file@, os),
{
    let sep = if os == Os::Windows {
        '\\'
    } else {
        '/'
    };
    if dir.is_empty() {
        return file.to_owned();
    }
    if ends_with_char(dir, '/') || ends_with_char(dir, sep) {
        return concat_text(dir, file);
    }
    let sep_text = if os == Os::Windows {
        "\\"
    } else {
        "/"
    };
    proof {
        reveal_strlit("\\");
        reveal_strlit("/");
    }
    assert(sep_text@ == seq![separator(os)]);
    let with_sep = concat_text(dir, sep_text);
    concat_text(with_sep.as_str(), file)
}

/// The full path of the manifest of `host_name` for a browser and a scope on
/// `os`: the browser's directory template for that OS and scope, with its
/// variables replaced, joined with `<host_name>.json`.
pub fn manifest_path(
    cfg: &Config,
    browser_key: &str,
    scope: Scope,
    host_name: &str,
    os: Os,
    vars: &DirVars,
) -> (r: Result<String, InstallError>)
    ensures
        path_view(r) == manifest_path_spec(*cfg, browser_key@, scope, host_name@, os, *vars),
{
    let b = browser_cfg(cfg, browser_key)?;
    let scopes = match current_os_scopes(&b.paths, os)? {
        Some(s) => s,
        None => {
            return Err(InstallError::OsNotConfigured);
        },
    };
    let entry = match scope {
        Scope::User => &scopes.user,
        Scope::System => &scopes.system,
    };
    let entry = match entry {
        Some(e) => e,
        None => {
            return Err(InstallError::ScopeNotConfigured);
        },
    };
    let dir = resolve_dir_template(entry.dir.as_str(), vars)?;
    proof {
        reveal_strlit(".json");
    }
    let file = concat_text(host_name, ".json");
    Ok(join_path(dir.as_str(), file.as_str(), os))
}

/// The registry key that points at the manifest of `host_name`.
pub open spec fn winreg_key_path_spec(cfg: Config, browser_key: Seq<char>, scope: Scope, host_name: Seq<char>) -> Result<Seq<char>, InstallError> {
    match lookup(cfg.browsers@, browser_key) {
        None => Err(InstallError::UnknownBrowser),
        Some(b) => if !b.windows_registry {
            Err(InstallError::RegistryNotEnabled)
        } else {
            match b.windows {
                None => Err(InstallError::RegistryConfigMissing),
                Some(w) => match w.registry {
                    None => Err(InstallError::RegistryConfigMissing),
                    Some(reg) => match (match scope {
                        Scope::User => reg.hkcu_key_template,
                        Scope::System => reg.hklm_key_template,
                    }) {
                        None => Err(InstallError::RegistryTemplateMissing),
                        Some(t) => Ok(replace_all(t@, "{name}"@, host_name)),
                    },
                },
            }
        },
    }
}

/// The registry key that points at the manifest of `host_name` for a browser
/// and a scope: the browser's key template with `{name}` replaced.
pub fn winreg_key_path(cfg: &Config, browser_key: &str, scope: Scope, host_name: &str) -> (r: Result<String, InstallError>)
    ensures
        path_view(r) == winreg_key_path_spec(*cfg, browser_key@, scope, host_name@),
{
    let b = browser_cfg(cfg, browser_key)?;
    if !b.windows_registry {
        return Err(InstallError::RegistryNotEnabled);
    }
    let reg = match &b.windows {
        Some(w) => match &w.registry {
            Some(reg) => reg,
            None => {
                return Err(InstallError::RegistryConfigMissing);
            },
        },
        None => {
            return Err(InstallError::RegistryConfigMissing);
        },
    };
    let tmpl = match scope {
        Scope::User => &reg.hkcu_key_template,
        Scope::System => &reg.hklm_key_template,
    };
    match tmpl {
        Some(t) => {
            proof {
                reveal_strlit("{name}");
            }
            Ok(replace_text(t.as_str(), "{name}", host_name))
        },
        None => Err(InstallError::RegistryTemplateMissing),
    }
}

} // verus!
