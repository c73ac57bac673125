use receiver::{check_header, check_path, validate, validate_header, AppError, HeaderField, PathProblem};

fn invalid(m: &str) -> AppError {
    AppError::InvalidRequest(m.to_string())
}

#[test]
fn relative_paths_are_accepted() {
    for p in ["a/b/c.txt", "file", "a/./b", "a..b/c", "...", "a/..b", "..a/b", "a/b/"] {
        let v = validate(p).unwrap();
        assert_eq!(v.as_str(), p);
    }
}

#[test]
fn absolute_paths_are_refused() {
    for p in ["/etc/passwd", "/", "//x", "\\x", "C:\\x", "c:x"] {
        assert_eq!(validate(p).err(), Some(invalid("Absolute paths are not allowed")));
    }
}

#[test]
fn parent_components_are_refused() {
    for p in ["../etc/passwd", "..", "a/..", "a/../b", "a/b/../../c", "./..", "..\\x", "a\\..", "a\\..\\b"] {
        assert_eq!(validate(p).err(), Some(invalid("Path traversal is not allowed")));
    }
}

#[test]
fn absolute_is_reported_before_traversal() {
    assert_eq!(validate("/../x").err(), Some(invalid("Absolute paths are not allowed")));
}

#[test]
fn missing_path_header_is_refused() {
    assert_eq!(validate_header(&HeaderField::Missing).err(), Some(invalid("Missing Path header")));
}

#[test]
fn non_text_path_header_is_refused() {
    assert_eq!(validate_header(&HeaderField::NotText).err(), Some(invalid("Invalid Path header")));
}

#[test]
fn text_path_header_is_validated() {
    let v = validate_header(&HeaderField::Text("x/y".to_string())).unwrap();
    assert_eq!(v.as_str(), "x/y");
    assert_eq!(
        validate_header(&HeaderField::Text("x/../y".to_string())).err(),
        Some(invalid("Path traversal is not allowed"))
    );
}

#[test]
fn backslash_is_a_separator() {
    assert!(validate("a\\b.txt").is_ok());
    assert_eq!(check_path("a\\..\\..\\x").err(), Some(PathProblem::Traversal));
    assert_eq!(check_path("\\srv").err(), Some(PathProblem::Absolute));
}

#[test]
fn drive_prefixes_are_absolute() {
    assert_eq!(check_path("D:data").err(), Some(PathProblem::Absolute));
    assert!(check_path("1:x").is_ok());
    assert!(check_path("ab:x").is_ok());
}

#[test]
fn problems_have_save_and_delete_texts() {
    assert_eq!(PathProblem::Missing.save_text(), "Missing Path header");
    assert_eq!(PathProblem::NotText.save_text(), "Invalid Path header");
    assert_eq!(PathProblem::Absolute.save_text(), "Absolute paths are not allowed");
    assert_eq!(PathProblem::Traversal.save_text(), "Path traversal is not allowed");
    assert_eq!(PathProblem::Missing.delete_text(), "Missing Path header");
    assert_eq!(PathProblem::NotText.delete_text(), "Invalid UTF-8 in Path header");
    assert_eq!(PathProblem::Absolute.delete_text(), "Absolute paths are not allowed");
    assert_eq!(PathProblem::Traversal.delete_text(), "Path traversal not allowed");
}

#[test]
fn header_problems() {
    assert_eq!(check_header(&HeaderField::Missing).err(), Some(PathProblem::Missing));
    assert_eq!(check_header(&HeaderField::NotText).err(), Some(PathProblem::NotText));
    assert_eq!(check_header(&HeaderField::Text("a/b".to_string())).unwrap().as_str(), "a/b");
}
