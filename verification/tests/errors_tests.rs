use file_sort::errors::{
    config_parsing_error, directory_not_found_error, file_operation_error, generic_error,
    glob_pattern_error, invalid_filename_error, no_match_error, path_operation_error,
    pattern_extraction_error, pattern_matching_error, Error,
};

#[test]
fn test_file_operation_error() {
    let path = String::from("/test/path");
    let error = file_operation_error("File not found", path.clone(), "read");

    let error_string = error.message();
    assert!(
        error_string.contains("read"),
        "Error message should contain the operation"
    );
    assert!(
        error_string.contains("/test/path"),
        "Error message should contain the path"
    );
    assert_eq!(error_string, "Failed to read file: /test/path");
}

#[test]
fn test_pattern_matching_error() {
    let regex_error = regex::Error::Syntax("Invalid regex syntax".to_string());
    let error = pattern_matching_error(&regex_error.to_string(), "test-pattern");

    let error_string = error.message();
    assert!(
        error_string.contains("test-pattern"),
        "Error message should contain the pattern"
    );
    assert_eq!(error_string, "Invalid pattern: test-pattern");
}

#[test]
fn test_glob_pattern_error() {
    let result = glob::Pattern::new("[");
    let pattern_error = result.err().unwrap();
    let error = glob_pattern_error(&pattern_error.to_string(), "test-glob-pattern");

    let error_string = error.message();
    assert!(
        error_string.contains("test-glob-pattern"),
        "Error message should contain the pattern"
    );
    assert_eq!(error_string, "Invalid glob pattern: test-glob-pattern");
}

#[test]
fn test_path_operation_error() {
    let path = String::from("/test/path");
    let error = path_operation_error(path.clone(), "create");

    let error_string = error.message();
    assert!(
        error_string.contains("create"),
        "Error message should contain the operation"
    );
    assert!(
        error_string.contains("/test/path"),
        "Error message should contain the path"
    );
}

#[test]
fn test_config_parsing_error() {
    let error = config_parsing_error("Missing required field");

    let error_string = error.message();
    assert!(
        error_string.contains("Missing required field"),
        "Error message should contain the detail"
    );
    assert_eq!(
        error_string,
        "Configuration parsing error: Missing required field"
    );
}

#[test]
fn test_pattern_extraction_error() {
    let error = pattern_extraction_error("<test>", "Missing closing bracket");

    let error_string = error.message();
    assert!(
        error_string.contains("<test>"),
        "Error message should contain the pattern"
    );
    assert!(
        error_string.contains("Missing closing bracket"),
        "Error message should contain the detail"
    );
    assert_eq!(
        error_string,
        "Failed to extract pattern from '<test>': Missing closing bracket"
    );
}

#[test]
fn test_no_match_error() {
    let error = no_match_error("pattern", "value");

    let error_string = error.message();
    assert!(
        error_string.contains("pattern"),
        "Error message should contain the pattern"
    );
    assert!(
        error_string.contains("value"),
        "Error message should contain the value"
    );
    assert_eq!(
        error_string,
        "No match found for pattern 'pattern' in 'value'"
    );
}

#[test]
fn test_invalid_filename_error() {
    let path = String::from("/test/invalid:file");
    let error = invalid_filename_error(path.clone());

    let error_string = error.message();
    assert!(
        error_string.contains("/test/invalid:file"),
        "Error message should contain the path"
    );
}

#[test]
fn test_directory_not_found_error() {
    let path = String::from("/test/nonexistent");
    let error = directory_not_found_error(path.clone());

    let error_string = error.message();
    assert!(
        error_string.contains("/test/nonexistent"),
        "Error message should contain the path"
    );
    assert_eq!(error_string, "Directory not found: /test/nonexistent");
}

#[test]
fn test_generic_error() {
    let error = generic_error("Something went wrong");

    let error_string = error.message();
    assert!(
        error_string.contains("Something went wrong"),
        "Error message should contain the message"
    );
}

#[test]
fn error_messages_of_the_remaining_variants() {
    let e = Error::ConfigValidation {
        detail: "No rules".to_string(),
    };
    assert_eq!(e.message(), "No rules");
    let e = Error::ContentCondition {
        detail: "Invalid size value: abc".to_string(),
    };
    assert_eq!(e.message(), "Invalid size value: abc");
    let e = Error::ParentNotFound {
        parent: "p.yaml".to_string(),
        child: "c.yaml".to_string(),
    };
    assert_eq!(
        e.message(),
        "Parent configuration file p.yaml specified in c.yaml does not exist"
    );
    assert_eq!(e.clone(), e);
}

#[test]
fn test_error_conversion() {
    let io_error = std::io::Error::new(std::io::ErrorKind::NotFound, "File not found");
    let error: Error = file_operation_error(&io_error.to_string(), String::new(), "perform operation on");
    let error_string = error.message();
    assert!(
        error_string.contains("Failed to perform operation on file"),
        "Error message should contain the underlying error"
    );

    let regex_error = regex::Error::Syntax("Invalid regex syntax".to_string());
    let error: Error = pattern_matching_error(&regex_error.to_string(), "");
    let error_string = error.message();
    assert!(
        error_string.contains("Invalid pattern"),
        "Error message should contain the underlying error"
    );

    let result = glob::Pattern::new("[");
    let pattern_error = result.err().unwrap();
    let error: Error = glob_pattern_error(&pattern_error.to_string(), "");
    let error_string = error.message();
    assert!(
        error_string.contains("Invalid glob pattern"),
        "Error message should contain the underlying error"
    );
}
