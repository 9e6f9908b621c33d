use crate::config::{strings_view, ImageAssetFolder, ImageAssetList};
use vstd::prelude::*;

verus! {

/// How the image batch is requested; chosen once and fixed from then on.
pub enum LoadStrategy {
    /// One bulk request for the whole folder, tracked through one folder handle.
    FolderBulk { folder_path: String },
    /// One request per entry, each under the folder, tracked through one handle per entry.
    ExplicitList { folder_path: String, entries: Vec<String> },
}

impl LoadStrategy {
    pub open spec fn is_explicit(&self) -> bool {
        self is ExplicitList
    }

    pub open spec fn folder(&self) -> Seq<char> {
        match self {
            LoadStrategy::FolderBulk { folder_path } => folder_path@,
            LoadStrategy::ExplicitList { folder_path, .. } => folder_path@,
        }
    }

    /// The entries of an explicit list; none for a bulk folder request.
    pub open spec fn entries(&self) -> Seq<Seq<char>> {
        match self {
            LoadStrategy::FolderBulk { .. } => Seq::empty(),
            LoadStrategy::ExplicitList { entries, .. } => strings_view(entries@),
        }
    }

    /// How many handles the strategy tracks: one for the folder, or one per entry.
    pub open spec fn spec_handle_count(&self) -> nat {
        if self.is_explicit() {
            self.entries().len()
        } else {
            1
        }
    }

    pub fn handle_count(&self) -> (r: usize)
        ensures
            r == self.spec_handle_count(),
    {
        match self {
            LoadStrategy::FolderBulk { .. } => 1,
            LoadStrategy::ExplicitList { entries, .. } => entries.len(),
        }
    }

    pub fn is_explicit_list(&self) -> (r: bool)
        ensures
            r == self.is_explicit(),
    {
        matches!(self, LoadStrategy::ExplicitList { .. })
    }
}

/// The strategy chosen at startup, and whether the host must be told that no
/// list was configured where only lists can be loaded.
pub struct StrategyChoice {
    pub strategy: LoadStrategy,
    pub missing_list_notice: bool,
}

/// Picks the load strategy from the platform's capability and the host's configuration.
///
/// Without bulk folder support an explicit list is always used (empty when the host gave
/// none, which is then reported once). With it, a list given by the host still wins over
/// bulk loading of the folder.
pub fn select_strategy(
    bulk_folder_supported: bool,
    folder: ImageAssetFolder,
    list: Option<ImageAssetList>,
) -> (r: StrategyChoice)
    ensures
        r.strategy.is_explicit() == (!bulk_folder_supported || list is Some),
        r.strategy.folder() == folder@,
        r.strategy.is_explicit() ==> r.strategy.entries() == match list {
            Some(l) => l@,
            None => Seq::<Seq<char>>::empty(),
        },
        r.missing_list_notice == (!bulk_folder_supported && list is None),
{
    let folder_path = folder.into_path();
    match list {
        Some(l) => {
            let entries = l.into_paths();
            StrategyChoice {
                strategy: LoadStrategy::ExplicitList { folder_path, entries },
                missing_list_notice: false,
            }
        },
        None => {
            if bulk_folder_supported {
                StrategyChoice {
                    strategy: LoadStrategy::FolderBulk { folder_path },
                    missing_list_notice: false,
                }
            } else {
                let entries: Vec<String> = Vec::new();
                proof {
                    assert(strings_view(entries@) =~= Seq::<Seq<char>>::empty());
                }
                StrategyChoice {
                    strategy: LoadStrategy::ExplicitList { folder_path, entries },
                    missing_list_notice: true,
                }
            }
        },
    }
}

/// The path of an entry of an explicit list: the folder, a slash, then the entry.
pub open spec fn asset_path(folder: Seq<char>, entry: Seq<char>) -> Seq<char> {
    folder + seq!['/'] + entry
}

fn join_asset_path(folder: &String, entry: &String) -> (r: String)
    ensures
        r@ == asset_path(folder@, entry@),
{
    proof {
        reveal_strlit("/");
    }
    let mut path = folder.clone();
    path.append("/");
    path.append(entry.as_str());
    path
}

/// The load requests that a strategy issues, once, at startup.
pub enum LoadRequest {
    /// Load the whole folder at this path.
    Folder(String),
    /// Load each of these paths, one handle each, in this order.
    Assets(Vec<String>),
}

/// Lists the requests to issue for a strategy: the folder itself, or one full path per
/// entry, in the order of the entries.
pub fn load_requests(strategy: &LoadStrategy) -> (r: LoadRequest)
    ensures
        match r {
            LoadRequest::Folder(path) => !strategy.is_explicit() && path@ == strategy.folder(),
            LoadRequest::Assets(paths) => {
                &&& strategy.is_explicit()
                &&& paths@.len() == strategy.entries().len()
                &&& forall|i: int|
                    0 <= i < paths@.len() ==> #[trigger] paths@[i]@ == asset_path(
                        strategy.folder(),
                        strategy.entries()[i],
                    )
            },
        },
{
    match strategy {
        LoadStrategy::FolderBulk { folder_path } => LoadRequest::Folder(folder_path.clone()),
        LoadStrategy::ExplicitList { folder_path, entries } => {
            let mut paths: Vec<String> = Vec::new();
            let mut i: usize = 0;
            while i < entries.len()
                invariant
                    i <= entries@.len(),
                    paths@.len() == i,
                    forall|j: int|
                        0 <= j < i ==> #[trigger] paths@[j]@ == asset_path(
                            folder_path@,
                            entries@[j]@,
                        ),
                decreases entries@.len() - i,
            {
                let path = join_asset_path(folder_path, &entries[i]);
                paths.push(path);
                i = i + 1;
            }
            LoadRequest::Assets(paths)
        },
    }
}

} // verus!
