use conmind::special_dirs::{contains_run, is_special_dir, names_special};

#[test]
fn desktop_folder_is_special() {
    assert!(is_special_dir("C:\\Users\\Ann\\Desktop\\ConMind"));
}

#[test]
fn case_does_not_matter() {
    assert!(is_special_dir("C:\\USERS\\ANN\\DOWNLOADS"));
    assert!(is_special_dir("D:\\Music"));
}

#[test]
fn russian_folders_are_special() {
    assert!(is_special_dir("C:\\Users\\Иван\\Загрузки\\conmind"));
    assert!(is_special_dir("C:\\Users\\Иван\\Рабочий стол"));
    assert!(is_special_dir("C:\\Users\\Иван\\Документы"));
}

#[test]
fn program_folder_is_not_special() {
    assert!(!is_special_dir("C:\\Program Files\\ConMind"));
    assert!(!is_special_dir(""));
}

#[test]
fn folder_name_needs_its_backslash() {
    assert!(!is_special_dir("C:/Users/Ann/Desktop"));
    assert!(!is_special_dir("C:\\mydesktop"));
}

#[test]
fn every_listed_folder_is_recognised() {
    for name in ["desktop", "downloads", "documents", "pictures", "videos", "music"] {
        assert!(names_special(&format!("c:\\users\\x\\{}", name)));
    }
}

#[test]
fn names_special_expects_lower_case() {
    assert!(names_special("c:\\users\\x\\pictures"));
    assert!(!names_special("c:\\users\\x\\Pictures"));
}

#[test]
fn runs_are_found_anywhere() {
    let hay: Vec<char> = "abcabd".chars().collect();
    assert!(contains_run(&hay, &"abd".chars().collect()));
    assert!(contains_run(&hay, &"abc".chars().collect()));
    assert!(!contains_run(&hay, &"abe".chars().collect()));
    assert!(contains_run(&hay, &Vec::new()));
    assert!(!contains_run(&hay, &"abcabdx".chars().collect()));
}
