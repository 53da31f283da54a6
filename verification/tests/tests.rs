use path_trav::{is_path_traversal, ErrorKind, PathTrav, Resolution};
use std::path;

fn failure_kind(kind: std::io::ErrorKind) -> ErrorKind {
    match kind {
        std::io::ErrorKind::NotFound => ErrorKind::NotFound,
        std::io::ErrorKind::PermissionDenied => ErrorKind::PermissionDenied,
        std::io::ErrorKind::NotADirectory => ErrorKind::NotADirectory,
        std::io::ErrorKind::InvalidInput => ErrorKind::InvalidInput,
        std::io::ErrorKind::InvalidData => ErrorKind::InvalidData,
        _ => ErrorKind::Other,
    }
}

fn resolve(path: &path::Path) -> Resolution {
    match path.canonicalize() {
        Err(err) => Resolution::Failed(failure_kind(err.kind())),
        Ok(found) => match found.to_str() {
            None => Resolution::NotText,
            Some(text) => Resolution::Canonical(text.to_string()),
        },
    }
}

#[test]
fn true_path() {
    let base = path::Path::new("./");
    let rel = path::Path::new("/etc/passwd");

    assert_eq!(Ok(true), resolve(base).is_path_trav(&resolve(rel)))
}

#[test]
fn true_path_buf() {
    let base = path::PathBuf::from("./");
    let rel = path::PathBuf::from("/etc/passwd");

    assert_eq!(Ok(true), resolve(&base).is_path_trav(&resolve(&rel)))
}

#[test]
fn false_path() {
    let base = path::Path::new("./");
    let rel = path::Path::new("./tests/tests.rs");

    assert_eq!(Ok(false), resolve(base).is_path_trav(&resolve(rel)))
}

#[test]
fn false_path_buf() {
    let base = path::PathBuf::from("./");
    let rel = path::PathBuf::from("./tests/tests.rs");

    assert_eq!(Ok(false), resolve(&base).is_path_trav(&resolve(&rel)))
}

#[test]
fn no_file() {
    let base = path::PathBuf::from("./");
    let rel = path::PathBuf::from("./tests/weird_file");

    assert_eq!(
        Err(ErrorKind::NotFound),
        resolve(&base).is_path_trav(&resolve(&rel))
    )
}

#[test]
fn absolute_path_outside_the_current_directory() {
    let base = resolve(path::Path::new("."));
    let candidate = resolve(path::Path::new("/etc/passwd"));

    assert_eq!(Ok(true), is_path_traversal(&base, &candidate));
}

#[test]
fn file_inside_the_current_directory() {
    let base = resolve(path::Path::new("."));
    let candidate = resolve(path::Path::new("./tests/tests.rs"));

    assert_eq!(Ok(false), is_path_traversal(&base, &candidate));
}

#[test]
fn missing_candidate_in_the_current_directory() {
    let base = resolve(path::Path::new("."));
    let candidate = resolve(path::Path::new("./nonexistent_xyz"));

    assert_eq!(Resolution::Failed(ErrorKind::NotFound), candidate);
    assert_eq!(Err(ErrorKind::NotFound), is_path_traversal(&base, &candidate));
}

#[test]
fn missing_base_directory() {
    let base = resolve(path::Path::new("./nonexistent_dir"));
    let candidate = resolve(path::Path::new("."));

    assert_eq!(Resolution::Failed(ErrorKind::NotFound), base);
    assert!(matches!(candidate, Resolution::Canonical(_)));
    assert_eq!(Err(ErrorKind::NotFound), is_path_traversal(&base, &candidate));
}

#[test]
fn current_directory_against_itself() {
    let here = resolve(path::Path::new("."));
    let again = resolve(path::Path::new("./"));

    assert_eq!(Ok(false), here.is_path_trav(&here));
    assert_eq!(Ok(false), here.is_path_trav(&again));
}

#[test]
fn parent_segments_are_resolved_before_comparing() {
    let base = resolve(path::Path::new("./tests"));
    let up = resolve(path::Path::new("./tests/.."));
    let up_and_back = resolve(path::Path::new("./tests/../tests/tests.rs"));

    assert_eq!(Ok(true), base.is_path_trav(&up));
    assert_eq!(Ok(false), base.is_path_trav(&up_and_back));
}

#[test]
fn file_in_place_of_a_directory() {
    let base = resolve(path::Path::new("."));
    let candidate = resolve(path::Path::new("./tests/tests.rs/inner"));

    assert_eq!(
        Err(ErrorKind::NotADirectory),
        is_path_traversal(&base, &candidate)
    );
}
