use svg_commands::validation::{validate, ValidationError};

#[test]
fn validate_accepts_exact_suffix() {
    assert!(validate("/a/b/picture.svg", ".svg").is_ok());
}

#[test]
fn validate_is_case_insensitive() {
    assert!(validate("/a/b/PICTURE.SVG", ".svg").is_ok());
    assert!(validate("/a/b/picture.Svg", ".svg").is_ok());
    assert!(validate("/a/b/picture.svg", ".SVG").is_ok());
}

#[test]
fn validate_rejects_other_extensions() {
    assert_eq!(
        validate("/a/b/picture.png", ".svg"),
        Err(ValidationError::WrongExtension)
    );
    assert_eq!(
        validate("/a/b/picture.svg.txt", ".svg"),
        Err(ValidationError::WrongExtension)
    );
}

#[test]
fn validate_rejects_paths_shorter_than_the_suffix() {
    assert_eq!(validate("svg", ".svg"), Err(ValidationError::WrongExtension));
    assert_eq!(validate("", ".svg"), Err(ValidationError::WrongExtension));
}

#[test]
fn validate_requires_the_dot() {
    assert_eq!(
        validate("/a/b/picturesvg", ".svg"),
        Err(ValidationError::WrongExtension)
    );
}

#[test]
fn validate_accepts_suffix_alone() {
    assert!(validate(".svg", ".svg").is_ok());
    assert!(validate(".tsx", ".tsx").is_ok());
}
