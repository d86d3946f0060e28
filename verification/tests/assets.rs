use idroid::fs::FileSystem;
use idroid::utils::HUD;

#[test]
fn texture_paths_sit_under_the_asset_directory() {
    let fs = FileSystem::new("/data/bundle");
    let path = fs.get_texture_file_path("brush.png");
    assert_eq!(path, "/data/bundle/assets/brush.png");
}

#[test]
fn texture_path_of_empty_name_is_the_directory() {
    let fs = FileSystem::new("");
    let path = fs.get_texture_file_path("");
    assert_eq!(path, "/assets/");
}

#[test]
fn frame_timer_runs() {
    let mut hud = HUD::new();
    hud.start_frame_timer();
    let elapsed = hud.stop_frame_timer();
    let again = hud.stop_frame_timer();
    assert!(again >= elapsed);
}
