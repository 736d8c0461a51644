//! Releases as the release index reports them, and the choice of the asset to download.

use vstd::prelude::*;

verus! {

/// One downloadable file of a release.
#[derive(Clone, Debug, PartialEq, Eq)]
pub struct Asset {
    pub name: String,
    pub download_url: String,
}

/// What an [`Asset`] holds, as plain values.
pub struct AssetView {
    pub name: Seq<char>,
    pub download_url: Seq<char>,
}

impl View for Asset {
    type V = AssetView;

    open spec fn view(&self) -> AssetView {
        AssetView { name: self.name@, download_url: self.download_url@ }
    }
}

/// The views of a list of assets, in order.
pub open spec fn asset_views(assets: Seq<Asset>) -> Seq<AssetView> {
    Seq::new(assets.len(), |i: int| assets[i]@)
}

/// A published release of a tool.
#[derive(Clone, Debug, PartialEq, Eq)]
pub struct Release {
    pub version: String,
    pub assets: Vec<Asset>,
}

/// What a [`Release`] holds, as plain values.
pub struct ReleaseView {
    pub version: Seq<char>,
    pub assets: Seq<AssetView>,
}

impl View for Release {
    type V = ReleaseView;

    open spec fn view(&self) -> ReleaseView {
        ReleaseView { version: self.version@, assets: asset_views(self.assets@) }
    }
}

impl ReleaseView {
    /// Whether the release has an asset of that name.
    pub open spec fn offers(self, name: Seq<char>) -> bool {
        exists|i: int| 0 <= i < self.assets.len() && (#[trigger] self.assets[i]).name == name
    }

    /// The position of the first asset of that name at or after `from`.
    pub open spec fn position_from(self, name: Seq<char>, from: int) -> Option<int>
        decreases self.assets.len() - from,
    {
        if from < 0 || from >= self.assets.len() {
            None
        } else if self.assets[from].name == name {
            Some(from)
        } else {
            self.position_from(name, from + 1)
        }
    }

    /// The position of the first asset of that name.
    pub open spec fn position(self, name: Seq<char>) -> Option<int> {
        self.position_from(name, 0)
    }

    /// The address of the first asset of that name.
    pub open spec fn download_url(self, name: Seq<char>) -> Option<Seq<char>> {
        match self.position(name) {
            Some(i) => Some(self.assets[i].download_url),
            None => None,
        }
    }

    /// What `position_from` finds: the first asset of that name at or after `from`, and
    /// nothing exactly when there is none.
    pub proof fn lemma_position_from(self, name: Seq<char>, from: int)
        requires
            0 <= from,
        ensures
            match self.position_from(name, from) {
                Some(i) => {
                    &&& from <= i < self.assets.len()
                    &&& self.assets[i].name == name
                    &&& forall|j: int| from <= j < i ==> (#[trigger] self.assets[j]).name != name
                },
                None => forall|j: int|
                    from <= j < self.assets.len() ==> (#[trigger] self.assets[j]).name != name,
            },
        decreases self.assets.len() - from,
    {
        if from < self.assets.len() && self.assets[from].name != name {
            self.lemma_position_from(name, from + 1);
        }
    }

    /// An asset is selected exactly when the release offers one of that name, and it is then
    /// the first of them.
    pub proof fn lemma_position(self, name: Seq<char>)
        ensures
            self.position(name) is Some <==> self.offers(name),
            self.download_url(name) is Some <==> self.offers(name),
            self.position(name) matches Some(i) ==> {
                &&& 0 <= i < self.assets.len()
                &&& self.assets[i].name == name
                &&& forall|j: int| 0 <= j < i ==> (#[trigger] self.assets[j]).name != name
            },
    {
        self.lemma_position_from(name, 0);
    }
}

impl Release {
    /// The position of the first asset called `name`, if the release has one.
    pub fn position(&self, name: &String) -> (found: Option<usize>)
        ensures
            found is Some <==> self@.position(name@) is Some,
            found matches Some(i) ==> self@.position(name@) == Some(i as int) && i
                < self.assets.len(),
    {
        let mut i: usize = 0;
        while i < self.assets.len()
            invariant
                i <= self.assets.len(),
                self@.position(name@) == self@.position_from(name@, i as int),
            decreases self.assets.len() - i,
        {
            if self.assets[i].name == *name {
                return Some(i);
            }
            i += 1;
        }
        None
    }
}

} // verus!
