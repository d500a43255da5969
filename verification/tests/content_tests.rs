use file_sort::content::ConditionOperator::{
    Contains, EndsWith, Equal, GreaterThan, GreaterThanOrEqual, LessThan, LessThanOrEqual,
    Matches, NotEqual, StartsWith,
};
use file_sort::content::{
    admitted_operators, analyse_file_content, evaluate_condition, get_content_preview,
    get_file_metadata, is_text_file, mime_type_for, name_of_operator, operator_admitted,
    value_admitted, ConditionOperator, ContentAnalysis, ContentCondition, ContentProperty,
    FileMetadata, Timestamp,
};
use file_sort::errors::Error;

const EPOCH: Timestamp = Timestamp { secs: 0, nanos: 0 };

fn analysis(size: u64, text: Option<&str>) -> ContentAnalysis {
    ContentAnalysis {
        metadata: FileMetadata {
            size,
            modified: Timestamp {
                secs: 1_626_912_000,
                nanos: 500,
            },
            created: EPOCH,
            mime_type: "text/plain".to_string(),
        },
        text_preview: text.map(|t| t.to_string()),
        is_text: text.is_some(),
        is_binary: text.is_none(),
    }
}

fn condition(property: ContentProperty, operator: ConditionOperator, value: &str) -> ContentCondition {
    ContentCondition {
        property,
        operator,
        value: value.to_string(),
    }
}

fn refused(r: Result<bool, Error>) -> String {
    match r {
        Err(Error::ContentCondition { detail }) => detail,
        other => panic!("not a condition error: {:?}", other),
    }
}

#[test]
fn a_size_of_120_is_greater_than_0() {
    let a = analysis(120, Some("text"));
    let c = condition(ContentProperty::Size, GreaterThan, "0");
    assert_eq!(evaluate_condition(&c, &a), Ok(true));
    let c = condition(ContentProperty::Size, GreaterThan, "abc");
    assert_eq!(refused(evaluate_condition(&c, &a)), "Invalid size value: abc");
}

#[test]
fn size_comparisons() {
    let a = analysis(120, None);
    let size = |op, v: &str| evaluate_condition(&condition(ContentProperty::Size, op, v), &a);
    assert_eq!(size(Equal, "120"), Ok(true));
    assert_eq!(size(Equal, "+120"), Ok(true));
    assert_eq!(size(Equal, "0120"), Ok(true));
    assert_eq!(size(Equal, "121"), Ok(false));
    assert_eq!(size(NotEqual, "120"), Ok(false));
    assert_eq!(size(GreaterThan, "120"), Ok(false));
    assert_eq!(size(GreaterThanOrEqual, "120"), Ok(true));
    assert_eq!(size(LessThan, "121"), Ok(true));
    assert_eq!(size(LessThanOrEqual, "119"), Ok(false));
    assert_eq!(size(LessThan, "18446744073709551615"), Ok(true));
    assert_eq!(
        refused(size(LessThan, "18446744073709551616")),
        "Invalid size value: 18446744073709551616"
    );
    assert_eq!(refused(size(Equal, "")), "Invalid size value: ");
    assert_eq!(refused(size(Equal, "-1")), "Invalid size value: -1");
    assert_eq!(refused(size(Equal, " 1")), "Invalid size value:  1");
    assert_eq!(refused(size(Equal, "+")), "Invalid size value: +");
    assert_eq!(
        refused(size(Contains, "1")),
        "Invalid operator for size comparison: Contains"
    );
    assert_eq!(
        refused(size(Contains, "x")),
        "Invalid size value: x"
    );
}

#[test]
fn mime_type_comparisons() {
    let a = analysis(1, None);
    let mime = |op, v: &str| evaluate_condition(&condition(ContentProperty::MimeType, op, v), &a);
    assert_eq!(mime(Equal, "text/plain"), Ok(true));
    assert_eq!(mime(Equal, "text/plai"), Ok(false));
    assert_eq!(mime(NotEqual, "text/html"), Ok(true));
    assert_eq!(mime(Contains, "t/p"), Ok(true));
    assert_eq!(mime(Contains, ""), Ok(true));
    assert_eq!(mime(Contains, "text/plain!"), Ok(false));
    assert_eq!(mime(StartsWith, "text/"), Ok(true));
    assert_eq!(mime(StartsWith, "ext/"), Ok(false));
    assert_eq!(mime(EndsWith, "plain"), Ok(true));
    assert_eq!(mime(EndsWith, "text"), Ok(false));
    assert_eq!(
        refused(mime(GreaterThan, "a")),
        "Invalid operator for mime type comparison: GreaterThan"
    );
}

#[test]
fn flag_comparisons() {
    let text = analysis(1, Some("x"));
    let binary = analysis(1, None);
    let flag = |p, op, v: &str, a: &ContentAnalysis| evaluate_condition(&condition(p, op, v), a);
    assert_eq!(flag(ContentProperty::IsText, Equal, "true", &text), Ok(true));
    assert_eq!(flag(ContentProperty::IsText, Equal, "true", &binary), Ok(false));
    assert_eq!(flag(ContentProperty::IsText, NotEqual, "false", &text), Ok(true));
    assert_eq!(flag(ContentProperty::IsBinary, Equal, "true", &binary), Ok(true));
    assert_eq!(flag(ContentProperty::IsBinary, NotEqual, "true", &binary), Ok(false));
    assert_eq!(
        refused(flag(ContentProperty::IsText, Equal, "True", &text)),
        "Invalid boolean value: True"
    );
    assert_eq!(
        refused(flag(ContentProperty::IsBinary, Equal, "1", &text)),
        "Invalid boolean value: 1"
    );
    assert_eq!(
        refused(flag(ContentProperty::IsText, LessThan, "true", &text)),
        "Invalid operator for is_text comparison: LessThan"
    );
    assert_eq!(
        refused(flag(ContentProperty::IsBinary, Matches, "false", &text)),
        "Invalid operator for is_binary comparison: Matches"
    );
}

#[test]
fn content_comparisons() {
    let a = analysis(1, Some("This is a test file\n"));
    let content = |op, v: &str, a: &ContentAnalysis| {
        evaluate_condition(&condition(ContentProperty::Content, op, v), a)
    };
    assert_eq!(content(Contains, "test file", &a), Ok(true));
    assert_eq!(content(Contains, "Test", &a), Ok(false));
    assert_eq!(content(StartsWith, "This", &a), Ok(true));
    assert_eq!(content(EndsWith, "file\n", &a), Ok(true));
    assert_eq!(content(Matches, r"t[a-z]st\s", &a), Ok(true));
    assert_eq!(content(Matches, r"^\d", &a), Ok(false));
    let bad = content(Matches, "(", &a).unwrap_err();
    assert!(matches!(bad, Error::PatternMatching { ref pattern, .. } if pattern == "("));
    assert_eq!(
        refused(content(Equal, "x", &a)),
        "Invalid operator for content comparison: Equal"
    );
    let binary = analysis(1, None);
    assert_eq!(content(Contains, "x", &binary), Ok(false));
    assert_eq!(content(Equal, "x", &binary), Ok(false));
    assert_eq!(content(Matches, "(", &binary), Ok(false));
}

#[test]
fn time_comparisons() {
    let a = analysis(1, None);
    let modified =
        |op, v: &str| evaluate_condition(&condition(ContentProperty::Modified, op, v), &a);
    let created = |op, v: &str| evaluate_condition(&condition(ContentProperty::Created, op, v), &a);
    // The file was changed 500 nanoseconds after 2021-07-22T00:00:00Z.
    assert_eq!(modified(GreaterThan, "2021-07-22T00:00:00Z"), Ok(true));
    assert_eq!(modified(Equal, "2021-07-22T00:00:00Z"), Ok(false));
    assert_eq!(modified(Equal, "2021-07-22T00:00:00.0000005Z"), Ok(true));
    assert_eq!(modified(Equal, "2021-07-22T02:00:00.0000005+02:00"), Ok(true));
    assert_eq!(modified(LessThan, "2021-07-22T00:00:00.000001Z"), Ok(true));
    assert_eq!(modified(LessThan, "2021-07-21T23:59:59.999999999Z"), Ok(false));
    assert_eq!(modified(NotEqual, "2021-07-22T00:00:00Z"), Ok(true));
    assert_eq!(modified(GreaterThanOrEqual, "2021-07-22T00:00:01Z"), Ok(false));
    assert_eq!(created(Equal, "1970-01-01T00:00:00Z"), Ok(true));
    assert_eq!(created(LessThanOrEqual, "1969-12-31T23:59:59Z"), Ok(false));
    assert_eq!(created(GreaterThan, "1969-12-31T23:59:59.5Z"), Ok(true));
    assert_eq!(
        refused(created(Equal, "yesterday")),
        "Invalid date format: yesterday. Use ISO 8601 format (e.g., 2025-08-07T07:23:00Z)"
    );
    assert_eq!(
        refused(modified(EndsWith, "2021-07-22T00:00:00Z")),
        "Invalid operator for date comparison: EndsWith"
    );
    assert!(modified(EndsWith, "2021-07-22").is_err());
}

#[test]
fn mime_types_by_extension() {
    let mime = |e: &str| mime_type_for(&Some(e.to_string()));
    assert_eq!(mime("txt"), "text/plain");
    assert_eq!(mime("html"), "text/html");
    assert_eq!(mime("htm"), "text/html");
    assert_eq!(mime("css"), "text/css");
    assert_eq!(mime("js"), "application/javascript");
    assert_eq!(mime("json"), "application/json");
    assert_eq!(mime("xml"), "application/xml");
    assert_eq!(mime("pdf"), "application/pdf");
    assert_eq!(mime("jpg"), "image/jpeg");
    assert_eq!(mime("jpeg"), "image/jpeg");
    assert_eq!(mime("png"), "image/png");
    assert_eq!(mime("gif"), "image/gif");
    assert_eq!(mime("svg"), "image/svg+xml");
    assert_eq!(mime("mp3"), "audio/mpeg");
    assert_eq!(mime("mp4"), "video/mp4");
    assert_eq!(mime("zip"), "application/zip");
    assert_eq!(mime("doc"), "application/msword");
    assert_eq!(mime("docx"), "application/msword");
    assert_eq!(mime("xls"), "application/vnd.ms-excel");
    assert_eq!(mime("xlsx"), "application/vnd.ms-excel");
    assert_eq!(mime("ppt"), "application/vnd.ms-powerpoint");
    assert_eq!(mime("pptx"), "application/vnd.ms-powerpoint");
    assert_eq!(mime("TXT"), "application/octet-stream");
    assert_eq!(mime(""), "application/octet-stream");
    assert_eq!(mime_type_for(&None), "application/octet-stream");
    let m = get_file_metadata("dir/notes.v2.txt", 7, EPOCH, EPOCH);
    assert_eq!(m.mime_type, "text/plain");
    assert_eq!(m.size, 7);
    assert_eq!(
        get_file_metadata("dir.txt/notes", 7, EPOCH, EPOCH).mime_type,
        "application/octet-stream"
    );
    assert_eq!(
        get_file_metadata(".txt", 7, EPOCH, EPOCH).mime_type,
        "application/octet-stream"
    );
}

#[test]
fn text_and_binary_content() {
    assert!(is_text_file(&b"hello".to_vec()));
    assert!(is_text_file(&Vec::new()));
    assert!(!is_text_file(&b"he\0llo".to_vec()));
    let mut long = vec![b'a'; 1024];
    long.push(0);
    assert!(is_text_file(&long));
    long[1023] = 0;
    assert!(!is_text_file(&long));

    let a = analyse_file_content("d/f.txt", 5, EPOCH, EPOCH, &b"hello".to_vec());
    assert!(a.is_text);
    assert!(!a.is_binary);
    assert_eq!(a.text_preview, Some("hello".to_string()));
    assert_eq!(a.metadata.mime_type, "text/plain");
    assert_eq!(a.clone(), a);

    let b = analyse_file_content("d/f.bin", 3, EPOCH, EPOCH, &vec![1, 0, 2]);
    assert!(!b.is_text);
    assert!(b.is_binary);
    assert_eq!(b.text_preview, None);

    let empty = analyse_file_content("d/empty.txt", 0, EPOCH, EPOCH, &Vec::new());
    assert!(empty.is_text);
    assert!(!empty.is_binary);
    assert_eq!(empty.text_preview, Some(String::new()));
    assert_eq!(empty.metadata.size, 0);

    let many = vec![b'x'; 3000];
    assert_eq!(get_content_preview(&many).len(), 1024);
    assert_eq!(get_content_preview(&vec![b'a', 0xff, b'b']), "a\u{fffd}b");
}

#[test]
fn operator_names() {
    assert_eq!(name_of_operator(ConditionOperator::Equal), "Equal");
    assert_eq!(name_of_operator(ConditionOperator::NotEqual), "NotEqual");
    assert_eq!(name_of_operator(ConditionOperator::GreaterThan), "GreaterThan");
    assert_eq!(name_of_operator(ConditionOperator::LessThan), "LessThan");
    assert_eq!(
        name_of_operator(ConditionOperator::GreaterThanOrEqual),
        "GreaterThanOrEqual"
    );
    assert_eq!(
        name_of_operator(ConditionOperator::LessThanOrEqual),
        "LessThanOrEqual"
    );
    assert_eq!(name_of_operator(ConditionOperator::Contains), "Contains");
    assert_eq!(name_of_operator(ConditionOperator::StartsWith), "StartsWith");
    assert_eq!(name_of_operator(ConditionOperator::EndsWith), "EndsWith");
    assert_eq!(name_of_operator(ConditionOperator::Matches), "Matches");
}

#[test]
fn what_each_property_admits() {
    let numbers = vec![
        Equal,
        NotEqual,
        GreaterThan,
        LessThan,
        GreaterThanOrEqual,
        LessThanOrEqual,
    ];
    assert_eq!(admitted_operators(ContentProperty::Size), numbers);
    assert_eq!(admitted_operators(ContentProperty::Modified), numbers);
    assert_eq!(admitted_operators(ContentProperty::Created), numbers);
    assert_eq!(
        admitted_operators(ContentProperty::MimeType),
        vec![Equal, NotEqual, Contains, StartsWith, EndsWith]
    );
    assert_eq!(
        admitted_operators(ContentProperty::Content),
        vec![Contains, StartsWith, EndsWith, Matches]
    );
    assert_eq!(admitted_operators(ContentProperty::IsText), vec![Equal, NotEqual]);
    assert_eq!(admitted_operators(ContentProperty::IsBinary), vec![Equal, NotEqual]);
    assert!(operator_admitted(ContentProperty::Size, GreaterThan));
    assert!(!operator_admitted(ContentProperty::Size, Contains));
    assert!(!operator_admitted(ContentProperty::Content, Equal));

    assert!(value_admitted(ContentProperty::Size, "0"));
    assert!(!value_admitted(ContentProperty::Size, "abc"));
    assert!(!value_admitted(ContentProperty::Size, " 1"));
    assert!(value_admitted(ContentProperty::Created, "2025-08-07T07:23:00Z"));
    assert!(!value_admitted(ContentProperty::Modified, "yesterday"));
    assert!(value_admitted(ContentProperty::IsText, "true"));
    assert!(!value_admitted(ContentProperty::IsBinary, "yes"));
    assert!(value_admitted(ContentProperty::MimeType, ""));
    assert!(value_admitted(ContentProperty::Content, "("));
}

#[test]
fn a_condition_is_evaluated_as_its_property_admits() {
    let a = analysis(120, Some("hello"));
    let properties = [
        ContentProperty::Size,
        ContentProperty::Modified,
        ContentProperty::Created,
        ContentProperty::MimeType,
        ContentProperty::Content,
        ContentProperty::IsText,
        ContentProperty::IsBinary,
    ];
    let operators = admitted_operators(ContentProperty::Size)
        .into_iter()
        .chain(admitted_operators(ContentProperty::Content));
    let operators: Vec<ConditionOperator> = operators.collect();
    for property in properties {
        for operator in &operators {
            for value in ["10", "true", "2025-08-07T07:23:00Z", "text", "h.*"] {
                let condition = ContentCondition {
                    property,
                    operator: *operator,
                    value: value.to_string(),
                };
                let admitted =
                    operator_admitted(property, *operator) && value_admitted(property, value);
                assert_eq!(
                    evaluate_condition(&condition, &a).is_ok(),
                    admitted,
                    "{:?}",
                    condition
                );
            }
        }
    }
}
