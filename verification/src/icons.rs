//! The icons of the games: where an icon lies, whether the one that lies
//! there is the answer to a lookup, and whether a cached icon is kept.
//! Looking at the disk and making an icon is left to the program around the
//! library.

use vstd::prelude::*;
use crate::gate::{SettingsLoad, SettingsLoadView};
use crate::storage::{StorePath, StorePathView};

verus! {

/// A cached icon is kept as it is where the settings were read and icon
/// updates are off. Where there is none, where no settings were to be had,
/// or where icon updates are on, the icon is made anew.
pub open spec fn icon_is_kept(exists: bool, settings: SettingsLoadView) -> bool {
    &&& exists
    &&& settings is Loaded
    &&& !settings->Loaded_0.iconupdates
}

/// Where the icon called `name` lies in the icons directory `dir`.
pub fn icon_path_in(dir: StorePath, name: &str) -> (path: StorePath)
    ensures
        path@ == (StorePathView { parts: dir@.parts.push(name@), ..dir@ }),
{
    dir.join(name)
}

/// Looks an icon up: `path` is where it would lie, `exists` says whether
/// something lies there. Where nothing does, the icon has yet to be made, and
/// the lookup is made again under the name that the making gives back.
pub fn get_icon(path: StorePath, exists: bool) -> (found: Option<StorePath>)
    ensures
        found is Some <==> exists,
        exists ==> (found->0)@ == path@,
{
    if exists {
        Some(path)
    } else {
        None
    }
}

/// Whether the icon that lies at its place, if `exists` says that one does,
/// is kept, given the settings read for this decision.
pub fn keeps_cached_icon(exists: bool, settings: &SettingsLoad) -> (kept: bool)
    ensures
        kept == icon_is_kept(exists, settings@),
{
    match settings {
        SettingsLoad::Loaded(s) => exists && !s.iconupdates,
        _ => false,
    }
}

} // verus!
