//! What installing or verifying does for one browser, decided before any file
//! or registry key is touched.
use vstd::prelude::*;

use crate::install::manifest::{family_spec, host_manifest, AllowList, Family, HostManifest};
use crate::install::paths::{
    browser_cfg, lookup, manifest_path, manifest_path_spec, winreg_key_path, winreg_key_path_spec, Config,
    DirVars, InstallError, Os, Scope,
};

verus! {

/// Everything that installing for one browser writes.
#[derive(Debug)]
pub struct InstallStep {
    /// Where the manifest file goes.
    pub manifest_path: String,
    /// What it holds.
    pub manifest: HostManifest,
    /// The registry key to point at the file, on Windows for browsers that use one.
    pub registry_key: Option<String>,
}

/// Whether installing for this browser on `os` writes a registry pointer.
pub open spec fn uses_registry(cfg: Config, browser_key: Seq<char>, os: Os) -> bool {
    os == Os::Windows && lookup(cfg.browsers@, browser_key)->0.windows_registry
}

/// What installing the host for one browser writes: the manifest at the
/// browser's location, with the browser family's allow-list, and, on Windows
/// for browsers that use one, the registry key to point at it.
pub fn install_step(
    cfg: &Config,
    browser_key: &str,
    scope: Scope,
    host_name: &str,
    description: &str,
    exe_path: &str,
    allowed_origins: &[String],
    allowed_extensions: &[String],
    os: Os,
    vars: &DirVars,
) -> (r: Result<InstallStep, InstallError>)
    ensures
        match r {
            Ok(st) => {
                &&& manifest_path_spec(*cfg, browser_key@, scope, host_name@, os, *vars) == Ok::<
                    Seq<char>,
                    InstallError,
                >(st.manifest_path@)
                &&& st.manifest.name@ == host_name@
                &&& st.manifest.description@ == description@
                &&& st.manifest.path@ == exe_path@
                &&& st.manifest.ty@ == "stdio"@
                &&& match family_spec(lookup(cfg.browsers@, browser_key@)->0.family@) {
                    Some(Family::Chromium) => st.manifest.allowed matches AllowList::Origins(v) && v@
                        == allowed_origins@,
                    Some(Family::Firefox) => st.manifest.allowed matches AllowList::Extensions(v)
                        && v@ == allowed_extensions@,
                    None => false,
                }
                &&& match st.registry_key {
                    Some(k) => uses_registry(*cfg, browser_key@, os) && winreg_key_path_spec(
                        *cfg,
                        browser_key@,
                        scope,
                        host_name@,
                    ) == Ok::<Seq<char>, InstallError>(k@),
                    None => !uses_registry(*cfg, browser_key@, os),
                }
            },
            Err(e) => match manifest_path_spec(*cfg, browser_key@, scope, host_name@, os, *vars) {
                Err(pe) => e == pe,
                Ok(_) => match family_spec(lookup(cfg.browsers@, browser_key@)->0.family@) {
                    None => e == InstallError::UnknownFamily,
                    Some(_) => uses_registry(*cfg, browser_key@, os) && winreg_key_path_spec(
                        *cfg,
                        browser_key@,
                        scope,
                        host_name@,
                    ) == Err::<Seq<char>, InstallError>(e),
                },
            },
        },
{
    let path = manifest_path(cfg, browser_key, scope, host_name, os, vars)?;
    let b = match browser_cfg(cfg, browser_key) {
        Ok(b) => b,
        Err(e) => {
            return Err(e);
        },
    };
    let manifest = host_manifest(
        b.family.as_str(),
        host_name,
        description,
        exe_path,
        allowed_origins,
        allowed_extensions,
    )?;
    let registry_key = if os == Os::Windows && b.windows_registry {
        Some(winreg_key_path(cfg, browser_key, scope, host_name)?)
    } else {
        None
    };
    Ok(InstallStep { manifest_path: path, manifest, registry_key })
}

/// Where verification looks for a browser's manifest.
#[derive(Debug)]
pub enum ManifestSource {
    /// The path stored under this registry key, if the key exists.
    Registry(String),
    /// This file.
    File(String),
}

/// Where to look for the manifest of `host_name` for one browser: on Windows,
/// browsers that use registry pointers are looked up through their key; all
/// others at their manifest location.
pub fn manifest_source(
    cfg: &Config,
    browser_key: &str,
    scope: Scope,
    host_name: &str,
    os: Os,
    vars: &DirVars,
) -> (r: Result<ManifestSource, InstallError>)
    ensures
        lookup(cfg.browsers@, browser_key@) is None ==> r == Err::<ManifestSource, InstallError>(
            InstallError::UnknownBrowser,
        ),
        lookup(cfg.browsers@, browser_key@) is Some ==> if uses_registry(*cfg, browser_key@, os) {
            match r {
                Ok(ManifestSource::Registry(k)) => winreg_key_path_spec(*cfg, browser_key@, scope, host_name@)
                    == Ok::<Seq<char>, InstallError>(k@),
                Ok(ManifestSource::File(_)) => false,
                Err(e) => winreg_key_path_spec(*cfg, browser_key@, scope, host_name@) == Err::<
                    Seq<char>,
                    InstallError,
                >(e),
            }
        } else {
            match r {
                Ok(ManifestSource::File(p)) => manifest_path_spec(*cfg, browser_key@, scope, host_name@, os, *vars)
                    == Ok::<Seq<char>, InstallError>(p@),
                Ok(ManifestSource::Registry(_)) => false,
                Err(e) => manifest_path_spec(*cfg, browser_key@, scope, host_name@, os, *vars) == Err::<
                    Seq<char>,
                    InstallError,
                >(e),
            }
        },
{
    let b = browser_cfg(cfg, browser_key)?;
    if os == Os::Windows && b.windows_registry {
        let key = winreg_key_path(cfg, browser_key, scope, host_name)?;
        Ok(ManifestSource::Registry(key))
    } else {
        let path = manifest_path(cfg, browser_key, scope, host_name, os, vars)?;
        Ok(ManifestSource::File(path))
    }
}

/// A verification result that ends the scan over browsers: a failure, or a
/// manifest found.
pub open spec fn decisive<E>(r: Result<bool, E>) -> bool {
    r is Err || r == Ok::<bool, E>(true)
}

/// Where a scan over the browsers' verification results stops: at the first
/// failure or found manifest. `None` means no browser has one (the answer is
/// `false`).
pub fn verify_scan<E>(results: &[Result<bool, E>]) -> (r: Option<usize>)
    ensures
        match r {
            Some(i) => i < results@.len() && decisive(results@[i as int]) && forall|j: int|
                0 <= j < i ==> !decisive(#[trigger] results@[j]),
            None => forall|j: int| 0 <= j < results@.len() ==> !decisive(#[trigger] results@[j]),
        },
{
    let mut i: usize = 0;
    while i < results.len()
        invariant
            i <= results@.len(),
            forall|j: int| 0 <= j < i ==> !decisive(#[trigger] results@[j]),
        decreases results@.len() - i,
    {
        match &results[i] {
            Ok(false) => {},
            _ => {
                return Some(i);
            },
        }
        i = i + 1;
    }
    None
}

} // verus!
