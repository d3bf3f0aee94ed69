use chromedriver_api::{new_path, root_relative, PathResolution};

#[test]
fn relative_path_is_taken_as_is() {
    let r = new_path(b"bin/chromedriver/chromedriver.exe".to_vec());
    match r {
        PathResolution::AsIs(p) => assert_eq!(p, b"bin/chromedriver/chromedriver.exe".to_vec()),
        PathResolution::UnderRoot(_) => panic!("a relative path must stay as it is"),
    }
}

#[test]
fn leading_slash_resolves_under_the_root() {
    let r = new_path(b"/ChromeDriver/Profile".to_vec());
    match r {
        PathResolution::UnderRoot(p) => assert_eq!(p, b"ChromeDriver\\Profile".to_vec()),
        PathResolution::AsIs(_) => panic!("a path starting with a slash resolves under the root"),
    }
}

#[test]
fn root_relative_strips_one_leading_separator() {
    assert_eq!(root_relative(&b"/a/b".to_vec()), b"a\\b".to_vec());
    assert_eq!(root_relative(&b"\\a/b".to_vec()), b"a\\b".to_vec());
    assert_eq!(root_relative(&b"a/b".to_vec()), b"a\\b".to_vec());
    assert_eq!(root_relative(&b"".to_vec()), b"".to_vec());
    assert_eq!(root_relative(&b"//x".to_vec()), b"\\x".to_vec());
}

#[test]
fn empty_path_is_taken_as_is() {
    match new_path(Vec::new()) {
        PathResolution::AsIs(p) => assert!(p.is_empty()),
        PathResolution::UnderRoot(_) => panic!("an empty path must stay as it is"),
    }
}
