use file_sort::dates::{process_date, process_date_on};
use file_sort::errors::Error;
use file_sort::pattern::{clean_pattern, compile, extract_pattern};
use file_sort::processor::process_pattern;

fn check_clean_pattern() {
    // Test with angle brackets
    let result = clean_pattern("<pattern>").unwrap();
    assert_eq!(result, "pattern");

    // Test with multiple angle brackets
    let result = clean_pattern("<pat<ter>n>").unwrap();
    assert_eq!(result, "pattern");

    // Test with no angle brackets
    let result = clean_pattern("pattern").unwrap();
    assert_eq!(result, "pattern");

    // Test with an empty string
    let result = clean_pattern("").unwrap();
    assert_eq!(result, "");
}

fn check_clean_pattern_is_ok() {
    let result = clean_pattern("<pattern>");
    assert!(result.is_ok());
    assert_eq!(result.unwrap(), "pattern");

    let result = clean_pattern("<pat<ter>n>");
    assert!(result.is_ok());
    assert_eq!(result.unwrap(), "pattern");

    let result = clean_pattern("pattern");
    assert!(result.is_ok());
    assert_eq!(result.unwrap(), "pattern");

    let result = clean_pattern("");
    assert!(result.is_ok());
    assert_eq!(result.unwrap(), "");
}

#[test]
fn utils_test_clean_pattern() {
    check_clean_pattern();
}

#[test]
fn utils_test_test_clean_pattern() {
    check_clean_pattern();
}

#[test]
fn pattern_matching_test_clean_pattern() {
    check_clean_pattern_is_ok();
}

#[test]
fn utils_test_extract_pattern() {
    // Test with angle brackets
    let result = extract_pattern("<pattern>").unwrap();
    assert_eq!(result, "pattern");

    // Test with no angle brackets
    let result = extract_pattern("pattern").unwrap();
    assert_eq!(result, "pattern");

    // Test with empty angle brackets
    let result = extract_pattern("<>").unwrap();
    assert_eq!(result, "");

    // Test with nested angle brackets (should only extract the innermost content)
    let result = extract_pattern("<outer<inner>>").unwrap();
    assert_eq!(result, "inner");
}

#[test]
fn pattern_matching_test_extract_pattern() {
    let result = extract_pattern("<pattern>");
    assert!(result.is_ok());
    assert_eq!(result.unwrap(), "pattern");

    let result = extract_pattern("pattern");
    assert!(result.is_ok());
    assert_eq!(result.unwrap(), "pattern");

    let result = extract_pattern("<>");
    assert!(result.is_ok());
    assert_eq!(result.unwrap(), "");

    let result = extract_pattern("<outer<inner>>");
    assert!(result.is_ok());
    assert_eq!(result.unwrap(), "inner");
}

#[test]
fn utils_test_test_extract_pattern() {
    let result = extract_pattern("<pattern>").unwrap();
    assert_eq!(result, "pattern");

    let result = extract_pattern("pattern").unwrap();
    assert_eq!(result, "pattern");

    let result = extract_pattern("<>").unwrap();
    assert_eq!(result, "");

    // Nested brackets: the innermost pair is the marker, so the closing
    // bracket is no part of what it encloses.
    let result = extract_pattern("<outer<inner>>").unwrap();
    assert_ne!(result, "inner>");
    assert_eq!(result, "inner");
}

fn check_process_date() {
    // Test with a valid timestamp and splitter
    let mut destination = "1626912000_filename.txt".to_string();
    let fmt = "%Y-%m-%d";
    let splitter = "_";
    let merger = Some(" ".to_string());

    process_date(&mut destination, fmt, splitter, &merger).unwrap();
    assert_eq!(destination, "2021-07-22 filename.txt");

    // Test with different format
    let mut destination = "1626912000_filename.txt".to_string();
    let fmt = "%d/%m/%Y";
    let splitter = "_";
    let merger = Some("-".to_string());

    process_date(&mut destination, fmt, splitter, &merger).unwrap();
    assert_eq!(destination, "22/07/2021-filename.txt");

    // Test with invalid timestamp (should return an error)
    let mut destination = "invalid_filename.txt".to_string();
    let fmt = "%Y-%m-%d";
    let splitter = "_";
    let merger = Some(" ".to_string());

    let result = process_date(&mut destination, fmt, splitter, &merger);
    assert!(result.is_err());

    // Test with missing splitter (should return an error)
    let mut destination = "1626912000filename.txt".to_string();
    let fmt = "%Y-%m-%d";
    let splitter = "_";
    let merger = Some(" ".to_string());

    let result = process_date(&mut destination, fmt, splitter, &merger);
    assert!(result.is_err());
}

#[test]
fn utils_test_process_date() {
    check_process_date();
}

#[test]
fn utils_test_test_process_date() {
    check_process_date();
}

#[test]
fn pattern_matching_test_process_date() {
    let mut destination = "1626912000_filename.txt".to_string();
    let result = process_date(&mut destination, "%Y-%m-%d", "_", &Some(" ".to_string()));
    assert!(result.is_ok());
    assert_eq!(destination, "2021-07-22 filename.txt");

    let mut destination = "1626912000_filename.txt".to_string();
    let result = process_date(&mut destination, "%d/%m/%Y", "_", &Some("-".to_string()));
    assert!(result.is_ok());
    assert_eq!(destination, "22/07/2021-filename.txt");

    let mut destination = "invalid_filename.txt".to_string();
    let result = process_date(&mut destination, "%Y-%m-%d", "_", &Some(" ".to_string()));
    assert!(result.is_err());

    let mut destination = "1626912000filename.txt".to_string();
    let result = process_date(&mut destination, "%Y-%m-%d", "_", &Some(" ".to_string()));
    assert!(result.is_err());
}

fn check_process_pattern() {
    // Test with valid pattern and replacement
    let mut destination = "test_filename.txt".to_string();
    let pattern = "test";
    let replacement = Some("replaced".to_string());

    process_pattern(&mut destination, pattern, &replacement).unwrap();
    assert_eq!(destination, "replaced_filename.txt");

    // Test with regex pattern
    let mut destination = "test123_filename.txt".to_string();
    let pattern = r"test\d+";
    let replacement = Some("replaced".to_string());

    process_pattern(&mut destination, pattern, &replacement).unwrap();
    assert_eq!(destination, "replaced_filename.txt");

    // Test with no replacement (should not change the string)
    let mut destination = "test_filename.txt".to_string();
    let pattern = "test";
    let replacement = None;

    process_pattern(&mut destination, pattern, &replacement).unwrap();
    assert_eq!(destination, "test_filename.txt");

    // Test with invalid regex pattern (should return an error)
    let mut destination = "test_filename.txt".to_string();
    let pattern = "["; // Invalid regex pattern
    let replacement = Some("replaced".to_string());

    let result = process_pattern(&mut destination, pattern, &replacement);
    assert!(result.is_err());
}

#[test]
fn utils_test_process_pattern() {
    check_process_pattern();
}

#[test]
fn utils_test_test_process_pattern() {
    check_process_pattern();
}

#[test]
fn pattern_matching_test_process_pattern() {
    let mut destination = "test_filename.txt".to_string();
    let result = process_pattern(&mut destination, "test", &Some("replaced".to_string()));
    assert!(result.is_ok());
    assert_eq!(destination, "replaced_filename.txt");

    let mut destination = "test123_filename.txt".to_string();
    let result = process_pattern(&mut destination, r"test\d+", &Some("replaced".to_string()));
    assert!(result.is_ok());
    assert_eq!(destination, "replaced_filename.txt");

    let mut destination = "test_filename.txt".to_string();
    let result = process_pattern(&mut destination, "test", &None);
    assert!(result.is_ok());
    assert_eq!(destination, "test_filename.txt");

    let mut destination = "test_filename.txt".to_string();
    let result = process_pattern(&mut destination, "[", &Some("replaced".to_string()));
    assert!(result.is_err());
    assert!(result.unwrap_err().message().contains("Invalid pattern"));
    assert_eq!(destination, "test_filename.txt");
}

#[test]
fn compile_leaves_a_plain_pattern_alone() {
    for p in ["", "plain", r"\d+_.*\.txt", "a b c", "ünïcode"] {
        assert_eq!(compile(p), (p.to_string(), p.to_string()));
    }
}

#[test]
fn compile_of_a_single_marker() {
    assert_eq!(
        compile("<pattern>"),
        ("pattern".to_string(), "pattern".to_string())
    );
    let (matching, template) = compile("prefix_<date>.txt");
    assert_eq!(matching, "prefix_date.txt");
    assert_eq!(template, "date");
}

#[test]
fn compile_takes_the_first_innermost_marker() {
    assert_eq!(compile("a<b>c<d>e").1, "b");
    assert_eq!(compile("><x>").1, "x");
    assert_eq!(compile("a>b<c").1, "a>b<c");
    assert_eq!(compile("a>b<c").0, "abc");
    assert_eq!(compile("<<>>").1, "");
    assert_eq!(compile("<a<b").1, "<a<b");
}

#[test]
fn process_pattern_without_replacement_still_checks_the_pattern() {
    let mut destination = "name".to_string();
    let result = process_pattern(&mut destination, "(", &None);
    assert!(matches!(result, Err(Error::PatternMatching { ref pattern, .. }) if pattern == "("));
    assert_eq!(destination, "name");
}

#[test]
fn process_pattern_expands_groups_in_the_replacement() {
    let mut destination = "Springsteen, Bruce".to_string();
    process_pattern(
        &mut destination,
        r"([^,\s]+),\s+(\S+)",
        &Some("$2 $1".to_string()),
    )
    .unwrap();
    assert_eq!(destination, "Bruce Springsteen");
}

#[test]
fn process_date_reports_each_failure() {
    let some = Some(" ".to_string());
    let mut d = "1626912000filename.txt".to_string();
    assert_eq!(
        process_date(&mut d, "%Y", "_", &some).unwrap_err().message(),
        "Failed to split destination '1626912000filename.txt' with splitter '_'"
    );
    let mut d = "invalid_filename.txt".to_string();
    assert_eq!(
        process_date(&mut d, "%Y", "_", &some).unwrap_err().message(),
        "Failed to parse timestamp 'invalid': invalid digit found in string"
    );
    assert_eq!(d, "invalid_filename.txt");
    let mut d = "_filename.txt".to_string();
    assert_eq!(
        process_date(&mut d, "%Y", "_", &some).unwrap_err().message(),
        "Failed to parse timestamp '': cannot parse integer from empty string"
    );
    let mut d = "99999999999999999999_x".to_string();
    assert_eq!(
        process_date(&mut d, "%Y", "_", &some).unwrap_err().message(),
        "Failed to parse timestamp '99999999999999999999': number too large to fit in target type"
    );
    let mut d = "-99999999999999999999_x".to_string();
    assert_eq!(
        process_date(&mut d, "%Y", "_", &some).unwrap_err().message(),
        "Failed to parse timestamp '-99999999999999999999': number too small to fit in target type"
    );
    let mut d = "99999999999999999_x".to_string();
    assert_eq!(
        process_date(&mut d, "%Y", "_", &some).unwrap_err().message(),
        "Invalid timestamp: 99999999999999999"
    );
    let mut d = "-99999999999999999_x".to_string();
    assert_eq!(
        process_date(&mut d, "%Y", "_", &some).unwrap_err().message(),
        "Invalid timestamp: -99999999999999999"
    );
    let mut d = "0_x".to_string();
    assert_eq!(
        process_date(&mut d, "%Y", "_", &None).unwrap_err().message(),
        "Merger string is required but not provided"
    );
    let mut d = "0_x".to_string();
    assert!(process_date(&mut d, "%Y", "", &some).is_err());
    let mut d = "0_x".to_string();
    assert!(process_date(&mut d, "%Q%", "_", &some).is_err());
    assert_eq!(d, "0_x");
}

#[test]
fn process_date_keeps_only_the_second_part() {
    let mut d = "-86400_a_b_c".to_string();
    process_date(&mut d, "%Y-%m-%d", "_", &Some("+".to_string())).unwrap();
    assert_eq!(d, "1969-12-31+a");
    let mut d = "+0__tail".to_string();
    process_date(&mut d, "%H:%M:%S", "_", &Some("".to_string())).unwrap();
    assert_eq!(d, "00:00:00");
    let mut d = "60--rest".to_string();
    process_date(&mut d, "%M", "--", &Some("/".to_string())).unwrap();
    assert_eq!(d, "01/rest");
}

#[test]
fn a_date_format_as_splitter_searches_back_from_the_day() {
    // Day 738000 of the calendar is 2021-07-29.
    let mut d = "1626912000 2021-07-29 report.txt".to_string();
    process_date_on(&mut d, "%Y", " %Y-%m-%d ", &Some("_".to_string()), 738000).unwrap();
    assert_eq!(d, "2021_report.txt");
    let mut d = "1626912000 2021-07-22 report.txt".to_string();
    process_date_on(&mut d, "%Y", " %Y-%m-%d ", &Some("_".to_string()), 738000).unwrap();
    assert_eq!(d, "2021_report.txt");
    // A date after the day is not found; the search gives up where the
    // calendar ends.
    let mut d = "0_x".to_string();
    assert_eq!(
        process_date_on(&mut d, "%Y", "%H", &Some("_".to_string()), 738000)
            .unwrap_err()
            .message(),
        "Failed to decrement date"
    );
}
