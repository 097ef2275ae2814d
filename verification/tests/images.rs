use lostpixel_backend::images::{
    extension_of, is_image_extension, is_image_path, list_images, select_images, Listed,
};

fn file(path: &str) -> Listed {
    Listed::Entry {
        path: path.to_string(),
        is_file: true,
    }
}

fn other(path: &str) -> Listed {
    Listed::Entry {
        path: path.to_string(),
        is_file: false,
    }
}

fn unreadable() -> Listed {
    Listed::Unreadable {
        reason: "No such file or directory (os error 2)".to_string(),
    }
}

#[test]
fn extension_is_what_follows_the_last_dot() {
    assert_eq!(extension_of("a.png"), Some("png"));
    assert_eq!(extension_of("archive.tar.gz"), Some("gz"));
    assert_eq!(extension_of("/shots/home page.jpeg"), Some("jpeg"));
    assert_eq!(extension_of("żółw.pńg"), Some("pńg"));
}

#[test]
fn extension_of_a_name_without_dot_is_none() {
    assert_eq!(extension_of("README"), None);
    assert_eq!(extension_of(""), None);
    assert_eq!(extension_of("png"), None);
}

#[test]
fn extension_may_be_empty() {
    assert_eq!(extension_of("trailing."), Some(""));
    assert_eq!(extension_of("."), Some(""));
    assert_eq!(extension_of("a.png."), Some(""));
}

#[test]
fn extension_of_a_name_that_begins_with_its_only_dot() {
    assert_eq!(extension_of(".png"), Some("png"));
    assert_eq!(extension_of(".gitignore"), Some("gitignore"));
}

#[test]
fn extension_runs_to_the_end_of_the_path() {
    assert_eq!(extension_of("shots.png/readme"), Some("png/readme"));
}

#[test]
fn image_extensions_are_png_jpg_jpeg() {
    assert!(is_image_extension("png"));
    assert!(is_image_extension("jpg"));
    assert!(is_image_extension("jpeg"));
}

#[test]
fn image_extensions_are_case_sensitive() {
    assert!(!is_image_extension("PNG"));
    assert!(!is_image_extension("Png"));
    assert!(!is_image_extension("JPG"));
    assert!(!is_image_extension("JPEG"));
    assert!(!is_image_extension("jpeG"));
}

#[test]
fn other_extensions_are_no_image_extensions() {
    assert!(!is_image_extension(""));
    assert!(!is_image_extension("txt"));
    assert!(!is_image_extension("gif"));
    assert!(!is_image_extension("pn"));
    assert!(!is_image_extension("pngs"));
    assert!(!is_image_extension("jpe"));
    assert!(!is_image_extension(" png"));
    assert!(!is_image_extension("png "));
    assert!(!is_image_extension(".png"));
}

#[test]
fn image_paths_end_in_an_image_extension() {
    assert!(is_image_path("a.png"));
    assert!(is_image_path("/shots/home.jpg"));
    assert!(is_image_path("C:\\shots\\home.jpeg"));
    assert!(is_image_path("relative/dir.d/x.y.png"));
    assert!(is_image_path("żółw.png"));
    assert!(is_image_path(".png"));
}

#[test]
fn other_paths_are_no_image_paths() {
    assert!(!is_image_path(""));
    assert!(!is_image_path("png"));
    assert!(!is_image_path("a.PNG"));
    assert!(!is_image_path("a.png.txt"));
    assert!(!is_image_path("a.png."));
    assert!(!is_image_path("a.png "));
    assert!(!is_image_path("shots.png/readme"));
    assert!(!is_image_path("shots.jpg\\readme"));
    assert!(!is_image_path("a.gif"));
    assert!(!is_image_path("apng"));
}

#[test]
fn the_folder_in_front_does_not_matter() {
    for name in ["a.png", "a.txt", "readme", ".jpg", "x.jpeg", "x.JPEG", ""] {
        let alone = is_image_path(name);
        assert_eq!(is_image_path(&format!("/some.dir/v1.2/{}", name)), alone);
        assert_eq!(is_image_path(&format!("C:\\some.png\\{}", name)), alone);
    }
}

#[test]
fn select_images_keeps_exactly_the_image_files() {
    let items = vec![
        file("/shots/a.png"),
        file("/shots/notes.txt"),
        file("/shots/b.jpg"),
        other("/shots/sub"),
        other("/shots/folder.png"),
        file("/shots/README"),
        unreadable(),
        file("/shots/c.jpeg"),
        file("/shots/d.PNG"),
        file("/shots/e.png.bak"),
    ];
    assert_eq!(
        select_images(&items),
        vec![
            "/shots/a.png".to_string(),
            "/shots/b.jpg".to_string(),
            "/shots/c.jpeg".to_string(),
        ]
    );
}

#[test]
fn select_images_keeps_the_order_of_the_listing() {
    let items = vec![file("z.png"), file("m.jpg"), file("a.jpeg"), file("m.jpg")];
    assert_eq!(
        select_images(&items),
        vec![
            "z.png".to_string(),
            "m.jpg".to_string(),
            "a.jpeg".to_string(),
            "m.jpg".to_string(),
        ]
    );
}

#[test]
fn select_images_of_nothing_is_nothing() {
    assert_eq!(select_images(&Vec::new()), Vec::<String>::new());
    assert_eq!(
        select_images(&vec![other("a.png"), unreadable(), file("a.txt")]),
        Vec::<String>::new()
    );
}

#[test]
fn select_images_does_not_follow_directories_or_links() {
    let items = vec![other("/shots/link.png"), other("/shots/nested.jpg")];
    assert_eq!(select_images(&items), Vec::<String>::new());
}

#[test]
fn list_images_of_a_folder_that_could_not_be_read_is_an_error() {
    let reply = list_images(Err("No such file or directory (os error 2)".to_string()));
    assert_eq!(
        reply,
        Err("No such file or directory (os error 2)".to_string())
    );
    assert_ne!(reply, Ok(Vec::new()));
}

#[test]
fn list_images_of_an_empty_folder_is_an_empty_list() {
    assert_eq!(list_images(Ok(Vec::new())), Ok(Vec::new()));
}

#[test]
fn list_images_passes_over_unreadable_entries() {
    let reply = list_images(Ok(vec![unreadable(), file("a.png"), unreadable()]));
    assert_eq!(reply, Ok(vec!["a.png".to_string()]));
}

#[test]
fn list_images_of_a_mixed_folder() {
    let reply = list_images(Ok(vec![
        file("shots/one.jpeg"),
        file("shots/two.txt"),
        other("shots/three.png"),
        file("shots/four.png"),
    ]));
    assert_eq!(
        reply,
        Ok(vec![
            "shots/one.jpeg".to_string(),
            "shots/four.png".to_string()
        ])
    );
}
