use design_patterns::composition::{Component, File, Folder};

#[test]
fn file_search_reports_one_line() {
    let file = File::new("File 1");
    assert_eq!(file.search("rose"), vec!["Searching for keyword rose in file File 1".to_string()]);
}

#[test]
fn folder_search_is_recursive_and_ordered() {
    let mut folder1 = Folder::new("Folder 1");
    folder1.add(File::new("File 1"));
    let mut folder2 = Folder::new("Folder 2");
    folder2.add(File::new("File 2"));
    folder2.add(File::new("File 3"));
    folder2.add(folder1);
    assert_eq!(
        folder2.search("rose"),
        vec![
            "Searching recursively for keyword rose in folder Folder 2".to_string(),
            "Searching for keyword rose in file File 2".to_string(),
            "Searching for keyword rose in file File 3".to_string(),
            "Searching recursively for keyword rose in folder Folder 1".to_string(),
            "Searching for keyword rose in file File 1".to_string(),
        ]
    );
}

#[test]
fn empty_folder_search() {
    let folder = Folder::new("Empty");
    assert_eq!(
        folder.search(""),
        vec!["Searching recursively for keyword  in folder Empty".to_string()]
    );
}
