use nvl_store::paths::{app_dir_in, db_path_in, image_path_in, images_dir_in};

#[test]
fn database_path_lies_under_the_app_dir() {
    assert_eq!(app_dir_in("/home/u/Documents"), "/home/u/Documents/nvl-store");
    assert_eq!(
        db_path_in("/home/u/Documents"),
        "/home/u/Documents/nvl-store/app_database.sqlite3"
    );
}

#[test]
fn image_paths_lie_under_the_shared_images_dir() {
    assert_eq!(images_dir_in("/d"), "/d/nvl-store/images");
    assert_eq!(image_path_in("/d", "a.png"), "/d/nvl-store/images/a.png");
}

#[test]
fn repeated_calls_build_the_same_path() {
    assert_eq!(db_path_in("/d"), db_path_in("/d"));
    assert_eq!(image_path_in("/d", "a.png"), image_path_in("/d", "a.png"));
}
