//! Batch loading of image assets behind a single readiness signal.
//!
//! The host picks where images come from ([`ImageAssetFolder`], [`ImageAssetList`]),
//! [`select_strategy`] fixes once how they are requested, [`load_requests`] lists the
//! requests to issue, and an [`ImageLoader`] reduces the per-handle states that the
//! asset subsystem reports on each tick into one [`ImageLoadState`].
mod config;
mod loader;
mod state;
mod strategy;

pub use config::{
    default_folder_name, strings_view, ImageAssetFolder, ImageAssetList, DEFAULT_FOLDER_NAME,
};
pub use loader::{
    aggregate, lemma_aggregate_permutation, lemma_empty_list_stays_not_loaded,
    lemma_failed_handle_does_not_block, lemma_final_state_independent_of_order,
    lemma_loaded_is_final, ImageLoader,
};
pub use state::{image_assets_loaded, ImageLoadState, LoadState};
pub use strategy::{
    asset_path, load_requests, select_strategy, LoadRequest, LoadStrategy, StrategyChoice,
};
