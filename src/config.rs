use vstd::prelude::*;

verus! {

/// Name of the folder, under the asset root, that images come from unless the host says otherwise.
pub const DEFAULT_FOLDER_NAME: &'static str = "img";

/// The characters of [`DEFAULT_FOLDER_NAME`].
pub open spec fn default_folder_name() -> Seq<char> {
    seq!['i', 'm', 'g']
}

/// The folder (under the asset root) that images are loaded from.
///
/// Where bulk folder loading is unavailable it only prefixes the entries of an
/// [`ImageAssetList`].
pub struct ImageAssetFolder {
    path: String,
}

impl View for ImageAssetFolder {
    type V = Seq<char>;

    closed spec fn view(&self) -> Seq<char> {
        self.path@
    }
}

impl ImageAssetFolder {
    pub fn new(path: String) -> (r: Self)
        ensures
            r@ == path@,
    {
        ImageAssetFolder { path }
    }

    pub fn path(&self) -> (r: &str)
        ensures
            r@ == self@,
    {
        self.path.as_str()
    }

    pub fn into_path(self) -> (r: String)
        ensures
            r@ == self@,
    {
        self.path
    }

    /// The folder as text, as it is shown to a user.
    pub fn to_string(&self) -> (r: String)
        ensures
            r@ == self@,
    {
        self.path.clone()
    }
}

impl Default for ImageAssetFolder {
    fn default() -> (r: Self)
        ensures
            r@ == default_folder_name(),
    {
        proof {
            reveal_strlit("img");
        }
        ImageAssetFolder { path: DEFAULT_FOLDER_NAME.to_owned() }
    }
}

/// Explicit list of image files (names with their extension) to load from the
/// [`ImageAssetFolder`].
///
/// When present it overrides bulk loading of the folder, and where bulk loading is
/// unavailable it is the only way to address images.
pub struct ImageAssetList {
    paths: Vec<String>,
}

/// The characters of each string, in order.
pub open spec fn strings_view(v: Seq<String>) -> Seq<Seq<char>> {
    v.map_values(|s: String| s@)
}

impl View for ImageAssetList {
    type V = Seq<Seq<char>>;

    closed spec fn view(&self) -> Seq<Seq<char>> {
        strings_view(self.paths@)
    }
}

impl ImageAssetList {
    pub fn new(paths: Vec<String>) -> (r: Self)
        ensures
            r@ == strings_view(paths@),
    {
        ImageAssetList { paths }
    }

    pub fn paths(&self) -> (r: &Vec<String>)
        ensures
            strings_view(r@) == self@,
    {
        &self.paths
    }

    pub fn len(&self) -> (r: usize)
        ensures
            r == self@.len(),
    {
        self.paths.len()
    }

    pub fn into_paths(self) -> (r: Vec<String>)
        ensures
            strings_view(r@) == self@,
    {
        self.paths
    }
}

impl Default for ImageAssetList {
    fn default() -> (r: Self)
        ensures
            r@.len() == 0,
    {
        ImageAssetList { paths: Vec::new() }
    }
}

} // verus!
