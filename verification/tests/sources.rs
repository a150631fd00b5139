use chords::sources::{add_folder_path, list_local_chord_folders, local_folder_info_from_path, trimmed_folder_path, FolderPathError};

#[test]
fn folders_are_named_by_their_last_component() {
    let info = local_folder_info_from_path("/Users/me/chords");
    assert_eq!(info.name, "chords");
    assert_eq!(info.local_path, "/Users/me/chords");
    let root = local_folder_info_from_path("/");
    assert_eq!(root.name, "/");
    let trailing = local_folder_info_from_path("/Users/me/dots/");
    assert_eq!(trailing.name, "dots");
    let parent = local_folder_info_from_path("/Users/me/..");
    assert_eq!(parent.name, "/Users/me/..");
}

#[test]
fn folder_paths_are_trimmed_and_must_not_be_empty() {
    assert_eq!(trimmed_folder_path("  /a/b  "), Ok("/a/b".to_string()));
    assert_eq!(trimmed_folder_path(" \t "), Err(FolderPathError::Empty));
}

#[test]
fn adding_keeps_paths_sorted_and_unique() {
    let paths = vec!["/b".to_string(), "/d".to_string()];
    let paths = add_folder_path(paths, "/c".to_string());
    assert_eq!(paths, vec!["/b".to_string(), "/c".to_string(), "/d".to_string()]);
    let paths = add_folder_path(paths, "/c".to_string());
    assert_eq!(paths.len(), 3);
    let paths = add_folder_path(paths, "/a".to_string());
    assert_eq!(paths[0], "/a");
}

#[test]
fn folders_are_listed_by_path() {
    let listed = list_local_chord_folders(vec!["/z/two".to_string(), "/a/one".to_string()]);
    assert_eq!(listed[0].local_path, "/a/one");
    assert_eq!(listed[0].name, "one");
    assert_eq!(listed[1].name, "two");
}
