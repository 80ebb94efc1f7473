//! Where the launcher keeps its files: the settings document, the scripts and
//! the icons, all below one directory of the user's configuration directory.
//!
//! A place is named here by the directory it starts from and the names that
//! lead down from it. Joining them into a path of the host, and reading or
//! writing what lies there, is left to the program around the library.

use vstd::prelude::*;
use vstd::string::*;
use directories::BaseDirs;
use std::path::PathBuf;
use crate::text::texts_of;

verus! {

/// A path of the host. The library carries such a value and never looks into
/// it.
#[verifier::external_type_specification]
#[verifier::external_body]
pub struct ExPathBuf(PathBuf);

/// A place below a directory of the host: `parts` are the names that lead
/// from `root` down to it, outermost first.
#[derive(Debug, PartialEq, Eq)]
pub struct StorePath {
    pub root: PathBuf,
    pub parts: Vec<String>,
}

pub ghost struct StorePathView {
    pub root: PathBuf,
    pub parts: Seq<Seq<char>>,
}

impl View for StorePath {
    type V = StorePathView;

    open spec fn view(&self) -> StorePathView {
        StorePathView { root: self.root, parts: texts_of(self.parts@) }
    }
}

/// The user's configuration directory, as `directories::BaseDirs::new`
/// and `BaseDirs::config_dir` give it. It depends on the user and the host,
/// and there is none where no home directory can be found: nothing is
/// claimed of it.
#[verifier::external_body]
fn config_dir() -> (dir: Option<PathBuf>) {
    match BaseDirs::new() {
        Some(dirs) => Some(dirs.config_dir().to_path_buf()),
        None => None,
    }
}

/// The launcher's directory below the configuration directory `config`.
pub open spec fn app_base_of(config: PathBuf) -> StorePathView {
    StorePathView { root: config, parts: seq!["Luauncher"@] }
}

impl StorePath {
    /// The place called `name` directly below this one.
    pub fn join(self, name: &str) -> (below: StorePath)
        ensures
            below@ == (StorePathView { root: self@.root, parts: self@.parts.push(name@) }),
    {
        let mut below = self;
        below.parts.push(String::from_str(name));
        assert(below@.parts =~= self@.parts.push(name@));
        below
    }
}

/// The launcher's directory below the configuration directory `config`.
pub fn app_base_in(config: PathBuf) -> (base: StorePath)
    ensures
        base@ == app_base_of(config),
{
    let base = StorePath { root: config, parts: Vec::new() };
    assert(base@.parts =~= seq![]);
    let base = base.join("Luauncher");
    assert(base@.parts =~= seq!["Luauncher"@]);
    base
}

/// The launcher's directory, given what the host said of the user's
/// configuration directory: there is one exactly where there is such a
/// directory, and it lies directly below it.
pub fn app_base_from(config: Option<PathBuf>) -> (base: Option<StorePath>)
    ensures
        base is Some <==> config is Some,
        config matches Some(c) ==> (base->0)@ == app_base_of(c),
{
    match config {
        Some(config) => Some(app_base_in(config)),
        None => None,
    }
}

/// The launcher's directory, if the user has a configuration directory.
/// Whether there is one is for the host to say.
pub fn get_app_base() -> (base: Option<StorePath>)
    ensures
        base matches Some(b) ==> b@ == app_base_of(b@.root),
{
    app_base_from(config_dir())
}

/// The settings document below the launcher's directory `base`.
pub fn settings_path_in(base: StorePath) -> (path: StorePath)
    ensures
        path@ == (StorePathView { parts: base@.parts.push("settings.json"@), ..base@ }),
{
    base.join("settings.json")
}

/// The scripts directory below the launcher's directory `base`.
pub fn scripts_dir_in(base: StorePath) -> (path: StorePath)
    ensures
        path@ == (StorePathView { parts: base@.parts.push("scripts"@), ..base@ }),
{
    base.join("scripts")
}

/// The icons directory below the launcher's directory `base`.
pub fn icon_dir_in(base: StorePath) -> (path: StorePath)
    ensures
        path@ == (StorePathView { parts: base@.parts.push("icons"@), ..base@ }),
{
    base.join("icons")
}

/// The settings document, given the launcher's directory or that there is none:
/// there is one exactly where there is a launcher's directory, and it lies
/// directly below it.
pub fn settings_path_from(base: Option<StorePath>) -> (path: Option<StorePath>)
    ensures
        path is Some <==> base is Some,
        base matches Some(b) ==> (path->0)@ == (StorePathView {
            parts: b@.parts.push("settings.json"@),
            ..b@
        }),
{
    match base {
        Some(base) => Some(settings_path_in(base)),
        None => None,
    }
}

/// Where the settings document lies, if the user has a configuration
/// directory.
pub fn get_settings_path() -> (path: Option<StorePath>)
    ensures
        path matches Some(p) ==> p@.parts == seq!["Luauncher"@, "settings.json"@],
{
    let path = settings_path_from(get_app_base());
    assert(path matches Some(p) ==> p@.parts =~= seq!["Luauncher"@, "settings.json"@]);
    path
}

/// The scripts directory, given the launcher's directory or that there is none:
/// there is one exactly where there is a launcher's directory, and it lies
/// directly below it.
pub fn scripts_dir_from(base: Option<StorePath>) -> (path: Option<StorePath>)
    ensures
        path is Some <==> base is Some,
        base matches Some(b) ==> (path->0)@ == (StorePathView {
            parts: b@.parts.push("scripts"@),
            ..b@
        }),
{
    match base {
        Some(base) => Some(scripts_dir_in(base)),
        None => None,
    }
}

/// Where the scripts lie, if the user has a configuration directory.
pub fn get_scripts_dir() -> (path: Option<StorePath>)
    ensures
        path matches Some(p) ==> p@.parts == seq!["Luauncher"@, "scripts"@],
{
    let path = scripts_dir_from(get_app_base());
    assert(path matches Some(p) ==> p@.parts =~= seq!["Luauncher"@, "scripts"@]);
    path
}

/// The icons directory, given the launcher's directory or that there is none:
/// there is one exactly where there is a launcher's directory, and it lies
/// directly below it.
pub fn icon_dir_from(base: Option<StorePath>) -> (path: Option<StorePath>)
    ensures
        path is Some <==> base is Some,
        base matches Some(b) ==> (path->0)@ == (StorePathView {
            parts: b@.parts.push("icons"@),
            ..b@
        }),
{
    match base {
        Some(base) => Some(icon_dir_in(base)),
        None => None,
    }
}

/// Where the icons lie, if the user has a configuration directory.
pub fn get_icon_dir() -> (path: Option<StorePath>)
    ensures
        path matches Some(p) ==> p@.parts == seq!["Luauncher"@, "icons"@],
{
    let path = icon_dir_from(get_app_base());
    assert(path matches Some(p) ==> p@.parts =~= seq!["Luauncher"@, "icons"@]);
    path
}

} // verus!
