use lostpixel_backend::workdir::{get_current_working_dir, DirLookup};

#[test]
fn working_dir_found_is_returned_as_it_is() {
    let reply = get_current_working_dir(DirLookup::Found {
        path: "/home/ana/project".to_string(),
    });
    assert_eq!(reply, Ok("/home/ana/project".to_string()));
}

#[test]
fn working_dir_that_is_not_text_gives_the_fixed_error() {
    let reply = get_current_working_dir(DirLookup::NotText);
    assert_eq!(
        reply,
        Err("PathBuf could not be converted to String".to_string())
    );
}

#[test]
fn working_dir_unavailable_gives_the_reason() {
    let reply = get_current_working_dir(DirLookup::Unavailable {
        reason: "No such file or directory (os error 2)".to_string(),
    });
    assert_eq!(
        reply,
        Err("No such file or directory (os error 2)".to_string())
    );
}

#[test]
fn working_dir_asked_twice_gives_the_same_reply() {
    let first = get_current_working_dir(DirLookup::Found {
        path: "/srv/baselines".to_string(),
    });
    let second = get_current_working_dir(DirLookup::Found {
        path: "/srv/baselines".to_string(),
    });
    assert_eq!(first, second);
    assert_eq!(first, Ok("/srv/baselines".to_string()));
}
