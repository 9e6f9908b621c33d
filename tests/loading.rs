use trve_image::{
    image_assets_loaded, load_requests, select_strategy, ImageAssetFolder, ImageAssetList,
    ImageLoadState, ImageLoader, LoadRequest, LoadState, LoadStrategy, DEFAULT_FOLDER_NAME,
};

fn list(paths: &[&str]) -> ImageAssetList {
    ImageAssetList::new(paths.iter().map(|p| p.to_string()).collect())
}

fn explicit_loader(paths: &[&str]) -> ImageLoader {
    let choice = select_strategy(true, ImageAssetFolder::default(), Some(list(paths)));
    ImageLoader::new(choice.strategy)
}

fn folder_loader() -> ImageLoader {
    let choice = select_strategy(true, ImageAssetFolder::default(), None);
    ImageLoader::new(choice.strategy)
}

#[test]
fn default_folder_is_img() {
    assert_eq!(ImageAssetFolder::default().path(), "img");
    assert_eq!(DEFAULT_FOLDER_NAME, "img");
    assert_eq!(ImageAssetFolder::new("sprites".to_string()).to_string(), "sprites");
}

#[test]
fn asset_list_keeps_its_entries_in_order() {
    let l = list(&["image1.png", "image2.png", "image3.png"]);
    assert_eq!(l.len(), 3);
    assert_eq!(l.paths(), &vec!["image1.png".to_string(), "image2.png".to_string(), "image3.png".to_string()]);
    assert_eq!(ImageAssetList::default().len(), 0);
}

#[test]
fn bulk_platform_without_list_loads_the_folder() {
    let choice = select_strategy(true, ImageAssetFolder::new("pics".to_string()), None);
    assert!(!choice.missing_list_notice);
    match &choice.strategy {
        LoadStrategy::FolderBulk { folder_path } => assert_eq!(folder_path, "pics"),
        LoadStrategy::ExplicitList { .. } => panic!("expected a folder strategy"),
    }
    match load_requests(&choice.strategy) {
        LoadRequest::Folder(path) => assert_eq!(path, "pics"),
        LoadRequest::Assets(_) => panic!("expected a folder request"),
    }
}

#[test]
fn list_overrides_bulk_folder_loading() {
    let choice = select_strategy(true, ImageAssetFolder::default(), Some(list(&["a.png", "b.png"])));
    assert!(!choice.missing_list_notice);
    assert!(choice.strategy.is_explicit_list());
    assert_eq!(choice.strategy.handle_count(), 2);
    match load_requests(&choice.strategy) {
        LoadRequest::Assets(paths) => {
            assert_eq!(paths, vec!["img/a.png".to_string(), "img/b.png".to_string()])
        }
        LoadRequest::Folder(_) => panic!("expected one request per entry"),
    }
}

#[test]
fn list_only_platform_uses_the_given_list() {
    let choice = select_strategy(false, ImageAssetFolder::new("web".to_string()), Some(list(&["x.png"])));
    assert!(!choice.missing_list_notice);
    match load_requests(&choice.strategy) {
        LoadRequest::Assets(paths) => assert_eq!(paths, vec!["web/x.png".to_string()]),
        LoadRequest::Folder(_) => panic!("expected one request per entry"),
    }
}

#[test]
fn readiness_gate_follows_the_state() {
    assert!(!image_assets_loaded(&ImageLoadState::default()));
    assert!(!image_assets_loaded(&ImageLoadState::new(LoadState::Loading)));
    assert!(!image_assets_loaded(&ImageLoadState::new(LoadState::Failed)));
    assert!(image_assets_loaded(&ImageLoadState::new(LoadState::Loaded)));
    assert_eq!(ImageLoadState::default().get(), LoadState::NotLoaded);
}

#[test]
fn two_images_load_over_two_ticks() {
    let mut loader = explicit_loader(&["a.png", "b.png"]);
    assert_eq!(loader.load_state().get(), LoadState::NotLoaded);
    let reported = loader.update_image_assets_load_state(&vec![LoadState::Loading, LoadState::Loading]);
    assert!(reported.is_empty());
    assert_eq!(loader.load_state().get(), LoadState::Loading);
    assert!(!loader.is_settled());
    let reported = loader.update_image_assets_load_state(&vec![LoadState::Loaded, LoadState::Loaded]);
    assert!(reported.is_empty());
    assert_eq!(loader.load_state().get(), LoadState::Loaded);
    assert!(image_assets_loaded(loader.load_state()));
    assert!(loader.is_settled());
}

#[test]
fn failed_image_is_reported_once_and_batch_loads() {
    let mut loader = explicit_loader(&["a.png", "bad.png"]);
    let mut diagnostics: Vec<usize> = Vec::new();
    diagnostics.extend(loader.update_image_assets_load_state(&vec![LoadState::Loading, LoadState::Failed]));
    assert_eq!(loader.load_state().get(), LoadState::Loading);
    diagnostics.extend(loader.update_image_assets_load_state(&vec![LoadState::Loading, LoadState::Failed]));
    diagnostics.extend(loader.update_image_assets_load_state(&vec![LoadState::Loaded, LoadState::Failed]));
    assert_eq!(loader.load_state().get(), LoadState::Loaded);
    diagnostics.extend(loader.update_image_assets_load_state(&vec![LoadState::Loaded, LoadState::Failed]));
    assert_eq!(diagnostics, vec![1]);
    match load_requests(loader.load_strategy()) {
        LoadRequest::Assets(paths) => assert_eq!(paths[diagnostics[0]], "img/bad.png"),
        LoadRequest::Folder(_) => panic!("expected one request per entry"),
    }
}

#[test]
fn folder_failure_fails_the_batch_and_stops_polling() {
    let mut loader = folder_loader();
    assert_eq!(loader.load_strategy().handle_count(), 1);
    loader.update_image_assets_load_state(&vec![LoadState::Loading]);
    assert_eq!(loader.load_state().get(), LoadState::Loading);
    assert!(!loader.is_settled());
    let reported = loader.update_image_assets_load_state(&vec![LoadState::Failed]);
    assert!(reported.is_empty());
    assert_eq!(loader.load_state().get(), LoadState::Failed);
    assert!(loader.is_settled());
    loader.update_image_assets_load_state(&vec![LoadState::Loaded]);
    assert_eq!(loader.load_state().get(), LoadState::Failed);
    assert!(!image_assets_loaded(loader.load_state()));
}

#[test]
fn folder_state_passes_through() {
    let mut loader = folder_loader();
    loader.update_image_assets_load_state(&vec![LoadState::NotLoaded]);
    assert_eq!(loader.load_state().get(), LoadState::NotLoaded);
    loader.update_image_assets_load_state(&vec![LoadState::Loaded]);
    assert_eq!(loader.load_state().get(), LoadState::Loaded);
}

#[test]
fn list_only_platform_without_list_stays_not_loaded() {
    let choice = select_strategy(false, ImageAssetFolder::default(), None);
    assert!(choice.missing_list_notice);
    match load_requests(&choice.strategy) {
        LoadRequest::Assets(paths) => assert!(paths.is_empty()),
        LoadRequest::Folder(_) => panic!("expected an explicit list"),
    }
    let mut loader = ImageLoader::new(choice.strategy);
    assert!(loader.is_settled());
    assert_eq!(loader.load_strategy().handle_count(), 0);
    for _ in 0..3 {
        let reported = loader.update_image_assets_load_state(&Vec::new());
        assert!(reported.is_empty());
        assert_eq!(loader.load_state().get(), LoadState::NotLoaded);
    }
}

#[test]
fn empty_given_list_stays_not_loaded() {
    let mut loader = explicit_loader(&[]);
    assert!(loader.is_settled());
    assert!(loader.update_image_assets_load_state(&Vec::new()).is_empty());
    assert_eq!(loader.load_state().get(), LoadState::NotLoaded);
}

#[test]
fn single_failed_handle_does_not_block() {
    let mut loader = explicit_loader(&["a.png", "b.png", "c.png"]);
    let reported = loader.update_image_assets_load_state(&vec![LoadState::Loaded, LoadState::Failed, LoadState::Loaded]);
    assert_eq!(reported, vec![1]);
    assert_eq!(loader.load_state().get(), LoadState::Loaded);
}

#[test]
fn all_failed_still_settles_loaded() {
    let mut loader = explicit_loader(&["a.png", "b.png", "c.png"]);
    let reported = loader.update_image_assets_load_state(&vec![LoadState::Failed, LoadState::Loading, LoadState::Failed]);
    assert_eq!(reported, vec![0, 2]);
    assert_eq!(loader.load_state().get(), LoadState::Loading);
    let reported = loader.update_image_assets_load_state(&vec![LoadState::Failed, LoadState::Failed, LoadState::Failed]);
    assert_eq!(reported, vec![1]);
    assert_eq!(loader.load_state().get(), LoadState::Loaded);
}

#[test]
fn loaded_batch_ignores_later_polls() {
    let mut loader = explicit_loader(&["a.png"]);
    loader.update_image_assets_load_state(&vec![LoadState::Loaded]);
    assert_eq!(loader.load_state().get(), LoadState::Loaded);
    let reported = loader.update_image_assets_load_state(&vec![LoadState::Failed]);
    assert!(reported.is_empty());
    assert_eq!(loader.load_state().get(), LoadState::Loaded);
    loader.update_image_assets_load_state(&vec![LoadState::NotLoaded]);
    assert_eq!(loader.load_state().get(), LoadState::Loaded);
}

#[test]
fn completion_order_does_not_change_the_outcome() {
    let mut first = explicit_loader(&["a.png", "b.png", "c.png"]);
    first.update_image_assets_load_state(&vec![LoadState::Loaded, LoadState::Loading, LoadState::NotLoaded]);
    first.update_image_assets_load_state(&vec![LoadState::Loaded, LoadState::Failed, LoadState::Loading]);
    first.update_image_assets_load_state(&vec![LoadState::Loaded, LoadState::Failed, LoadState::Loaded]);

    let mut second = explicit_loader(&["a.png", "b.png", "c.png"]);
    second.update_image_assets_load_state(&vec![LoadState::NotLoaded, LoadState::Failed, LoadState::Loaded]);
    second.update_image_assets_load_state(&vec![LoadState::Loaded, LoadState::Failed, LoadState::Loaded]);

    assert_eq!(first.load_state().get(), LoadState::Loaded);
    assert_eq!(second.load_state().get(), first.load_state().get());
}

#[test]
fn partial_progress_reads_as_loading() {
    let mut loader = explicit_loader(&["a.png", "b.png"]);
    loader.update_image_assets_load_state(&vec![LoadState::NotLoaded, LoadState::NotLoaded]);
    assert_eq!(loader.load_state().get(), LoadState::NotLoaded);
    loader.update_image_assets_load_state(&vec![LoadState::Loaded, LoadState::NotLoaded]);
    assert_eq!(loader.load_state().get(), LoadState::Loading);
}

#[test]
fn load_state_predicates() {
    assert!(LoadState::Loaded.is_loaded());
    assert!(!LoadState::Failed.is_loaded());
    assert!(LoadState::Failed.is_failed());
    assert!(LoadState::Failed.is_resolved());
    assert!(!LoadState::Loading.is_resolved());
}
