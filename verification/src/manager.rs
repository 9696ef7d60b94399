//! The state of the mod manager that does not depend on how it is shown.

use crate::text::lemma_views_push;
use crate::text::str_eq;
use crate::text::views;
use vstd::prelude::*;

verus! {

/// The size at which the interface is drawn.
#[derive(Debug, Clone, Copy, PartialEq, Eq, Structural)]
pub enum EScale {
    Small,
    Medium,
    Large,
}

impl EScale {
    /// The number of pixels per point, in tenths.
    pub open spec fn spec_tenths(self) -> int {
        match self {
            EScale::Small => 22,
            EScale::Medium => 30,
            EScale::Large => 45,
        }
    }

    /// The number of pixels per point, in tenths.
    pub fn tenths(&self) -> (r: u32)
        ensures
            r == self.spec_tenths(),
    {
        match self {
            EScale::Small => 22,
            EScale::Medium => 30,
            EScale::Large => 45,
        }
    }
}

/// An installed mod: the directory it was extracted to, and whether it is enabled.
#[derive(Debug, Clone, PartialEq, Eq)]
pub struct ModInfo {
    pub path: String,
    pub enabled: bool,
}

impl Default for ModInfo {
    fn default() -> (r: Self)
        ensures
            r.path@.len() == 0,
            !r.enabled,
    {
        ModInfo { path: String::new(), enabled: false }
    }
}

/// The directory of a mod, if the mod is enabled.
pub open spec fn spec_enabled_path(m: ModInfo) -> Option<Seq<char>> {
    if m.enabled {
        Some(m.path@)
    } else {
        None
    }
}

/// The directories of the enabled mods, in list order.
pub open spec fn spec_enabled_mods(mods: Seq<ModInfo>) -> Seq<Seq<char>> {
    mods.filter_map(|m: ModInfo| spec_enabled_path(m))
}

/// The directories of the enabled mods, in list order.
pub fn enabled_mods(mods: &Vec<ModInfo>) -> (r: Vec<String>)
    ensures
        views(r@) == spec_enabled_mods(mods@),
{
    let mut out: Vec<String> = Vec::new();
    let ghost path = |m: ModInfo| spec_enabled_path(m);
    let mut i: usize = 0;
    while i < mods.len()
        invariant
            i <= mods.len(),
            path == |m: ModInfo| spec_enabled_path(m),
            views(out@) == mods@.take(i as int).filter_map(path),
        decreases mods.len() - i,
    {
        proof {
            mods@.lemma_filter_map_take_succ(path, i as int);
        }
        if mods[i].enabled {
            let p = mods[i].path.clone();
            proof {
                lemma_views_push(out@, p);
            }
            out.push(p);
        }
        i += 1;
    }
    assert(mods@.take(mods.len() as int) == mods@);
    out
}

/// Some mod of the list was extracted to `path`.
pub open spec fn spec_is_installed(mods: Seq<ModInfo>, path: Seq<char>) -> bool {
    exists|i: int| 0 <= i < mods.len() && (#[trigger] mods[i]).path@ == path
}

/// Whether some mod of the list was extracted to `path`.
pub fn is_installed(mods: &Vec<ModInfo>, path: &str) -> (r: bool)
    ensures
        r == spec_is_installed(mods@, path@),
{
    let mut i: usize = 0;
    while i < mods.len()
        invariant
            i <= mods.len(),
            forall|j: int| 0 <= j < i ==> (#[trigger] mods@[j]).path@ != path@,
        decreases mods.len() - i,
    {
        if str_eq(mods[i].path.as_str(), path) {
            return true;
        }
        i += 1;
    }
    false
}

/// Lists the mod extracted to `path`, disabled, unless a mod with that directory is
/// listed already. Tells whether the mod was added.
pub fn install(mods: &mut Vec<ModInfo>, path: String) -> (added: bool)
    ensures
        added == !spec_is_installed(old(mods)@, path@),
        added ==> final(mods)@ == old(mods)@.push(ModInfo { path, enabled: false }),
        !added ==> final(mods)@ == old(mods)@,
{
    if is_installed(mods, path.as_str()) {
        false
    } else {
        mods.push(ModInfo { path, enabled: false });
        true
    }
}

} // verus!
