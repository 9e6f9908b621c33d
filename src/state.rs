use vstd::prelude::*;

verus! {

/// Load state of one handle, or of the whole batch.
#[derive(Clone, Copy, Debug, PartialEq, Eq, Structural)]
pub enum LoadState {
    NotLoaded,
    Loading,
    Loaded,
    Failed,
}

impl LoadState {
    /// A handle is resolved once it can no longer hold the batch back:
    /// it has loaded, or it has failed and will never load.
    pub open spec fn resolved(self) -> bool {
        self == LoadState::Loaded || self == LoadState::Failed
    }

    pub fn is_loaded(&self) -> (r: bool)
        ensures
            r == (*self == LoadState::Loaded),
    {
        matches!(self, LoadState::Loaded)
    }

    pub fn is_failed(&self) -> (r: bool)
        ensures
            r == (*self == LoadState::Failed),
    {
        matches!(self, LoadState::Failed)
    }

    pub fn is_resolved(&self) -> (r: bool)
        ensures
            r == self.resolved(),
    {
        matches!(self, LoadState::Loaded | LoadState::Failed)
    }
}

/// The aggregate load state of the image batch, as the host reads it.
pub struct ImageLoadState {
    state: LoadState,
}

impl View for ImageLoadState {
    type V = LoadState;

    closed spec fn view(&self) -> LoadState {
        self.state
    }
}

impl ImageLoadState {
    pub fn new(state: LoadState) -> (r: Self)
        ensures
            r@ == state,
    {
        ImageLoadState { state }
    }

    pub fn get(&self) -> (r: LoadState)
        ensures
            r == self@,
    {
        self.state
    }
}

impl Default for ImageLoadState {
    fn default() -> (r: Self)
        ensures
            r@ == LoadState::NotLoaded,
    {
        ImageLoadState { state: LoadState::NotLoaded }
    }
}

/// Readiness gate: true exactly when the whole batch has loaded.
pub fn image_assets_loaded(image_load_state: &ImageLoadState) -> (r: bool)
    ensures
        r == (image_load_state@ == LoadState::Loaded),
{
    image_load_state.state.is_loaded()
}

} // verus!
