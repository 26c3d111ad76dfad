//! Releases and their assets, as the release feed reports them.

use vstd::prelude::*;

verus! {

/// One downloadable artifact attached to a release.
#[derive(Clone, Debug)]
pub struct Asset {
    /// The filename of the artifact, unique within its release.
    pub name: String,
    /// An opaque locator for the artifact; nothing structural is assumed
    /// of it.
    pub download_url: String,
}

/// One published release: a version tag and its assets.
#[derive(Clone, Debug)]
pub struct Release {
    /// The version tag, expected in the form `v<major>.<minor>.<patch>`.
    pub version: String,
    /// The artifacts published with this release.
    pub assets: Vec<Asset>,
}

impl Release {
    /// Asset names are unique within a release.
    pub open spec fn wf(self) -> bool {
        forall|i: int, j: int|
            0 <= i < self.assets@.len() && 0 <= j < self.assets@.len() && i != j
                ==> self.assets@[i].name@ != self.assets@[j].name@
    }

    /// Whether some asset of this release bears the given name.
    pub open spec fn has_asset(self, name: Seq<char>) -> bool {
        exists|i: int| 0 <= i < self.assets@.len() && self.assets@[i].name@ == name
    }

    /// The position of an asset with the given name, if the release has
    /// one.
    pub fn find_asset(&self, name: &String) -> (r: Option<usize>)
        ensures
            match r {
                Some(i) => i < self.assets@.len() && self.assets@[i as int].name@ == name@,
                None => !self.has_asset(name@),
            },
    {
        let n = self.assets.len();
        let mut idx: usize = 0;
        while idx < n
            invariant
                n == self.assets@.len(),
                idx <= n,
                forall|j: int| 0 <= j < idx ==> self.assets@[j].name@ != name@,
            decreases n - idx,
        {
            if self.assets[idx].name == *name {
                return Some(idx);
            }
            idx += 1;
        }
        None
    }

    /// The names of all assets, in the order the release lists them.
    pub fn asset_names(&self) -> (r: Vec<String>)
        ensures
            r@.len() == self.assets@.len(),
            forall|i: int| 0 <= i < r@.len() ==> r@[i]@ == self.assets@[i].name@,
    {
        let mut out: Vec<String> = Vec::new();
        let mut idx: usize = 0;
        while idx < self.assets.len()
            invariant
                idx <= self.assets@.len(),
                out@.len() == idx,
                forall|i: int| 0 <= i < idx ==> out@[i]@ == self.assets@[i].name@,
            decreases self.assets@.len() - idx,
        {
            out.push(self.assets[idx].name.clone());
            idx += 1;
        }
        out
    }
}

/// Under the release invariant, at most one asset bears a given name, so
/// locating an asset by its resolved name is unambiguous.
pub proof fn lemma_asset_name_unambiguous(release: Release, i: int, j: int)
    requires
        release.wf(),
        0 <= i < release.assets@.len(),
        0 <= j < release.assets@.len(),
        release.assets@[i].name@ == release.assets@[j].name@,
    ensures
        i == j,
{
}

} // verus!
