use file_sort::content::{ConditionOperator, ContentCondition, ContentProperty};
use file_sort::rules::{
    dedup_rules, default_match_all, default_merger, extract_rule_with_pattern,
    map_patterns_to_rules, parse_rules, prepare_rules, process_and_append_rule,
    process_and_append_rules, process_patterns, process_rules, ConfigProcessor, FormatConversion,
    Rule, Rules,
};
use file_sort::transformer::{FolderFunction, TransformativeFunction};

fn rule_with_pattern(pattern: &str) -> Rule {
    Rule {
        title: "Test Rule".to_string(),
        pattern: Some(pattern.to_string()),
        patterns: None,
        content_conditions: None,
        match_all_conditions: true,
        directory: None,
        function: None,
        processors: None,
        root: 0,
        copy: false,
        old_pattern: String::new(),
        new_pattern: String::new(),
    }
}

#[test]
fn test_default_merger() {
    let merger = default_merger();
    assert_eq!(merger, Some(" ".to_string()));
}

#[test]
fn default_match_all_is_true() {
    assert!(default_match_all());
}

#[test]
fn rules_test_rule_make_patterns() {
    // Test with angle brackets
    let mut rule = rule_with_pattern("<pattern>");
    rule.make_patterns().unwrap();
    assert_eq!(rule.old_pattern, "pattern");
    assert_eq!(rule.new_pattern, "pattern");

    // Test with multiple angle brackets
    let mut rule = rule_with_pattern("<pat<ter>n>");
    rule.make_patterns().unwrap();
    assert_eq!(rule.old_pattern, "pattern");
    assert_eq!(rule.new_pattern, "ter");

    // Test with no angle brackets
    let mut rule = rule_with_pattern("pattern");
    rule.make_patterns().unwrap();
    assert_eq!(rule.old_pattern, "pattern");
    assert_eq!(rule.new_pattern, "pattern");

    // Test with empty pattern
    let mut rule = rule_with_pattern("");
    rule.make_patterns().unwrap();
    assert_eq!(rule.old_pattern, "");
    assert_eq!(rule.new_pattern, "");
}

#[test]
fn rule_processing_test_test_rule_make_patterns() {
    // Test with angle brackets
    let mut rule = rule_with_pattern("<pattern>");
    rule.make_patterns().unwrap();
    assert_eq!(rule.old_pattern, "pattern");
    assert_eq!(rule.new_pattern, "pattern");

    // Nested brackets: the innermost pair is the marker, so the template is
    // what that pair encloses, not everything up to the last bracket.
    let mut rule = rule_with_pattern("<pat<ter>n>");
    rule.make_patterns().unwrap();
    assert_eq!(rule.old_pattern, "pattern");
    assert_ne!(rule.new_pattern, "ter>n");
    assert_eq!(rule.new_pattern, "ter");

    // Test with no angle brackets
    let mut rule = rule_with_pattern("pattern");
    rule.make_patterns().unwrap();
    assert_eq!(rule.old_pattern, "pattern");
    assert_eq!(rule.new_pattern, "pattern");

    // Test with empty pattern
    let mut rule = rule_with_pattern("");
    rule.make_patterns().unwrap();
    assert_eq!(rule.old_pattern, "");
    assert_eq!(rule.new_pattern, "");
}

#[test]
fn rules_test_rule_with_directory() {
    let rule = Rule {
        directory: Some("test_dir".to_string()),
        ..rule_with_pattern("<pattern>")
    };
    assert_eq!(rule.directory, Some("test_dir".to_string()));

    let rule = Rule {
        directory: Some("nested/test_dir".to_string()),
        ..rule_with_pattern("<pattern>")
    };
    assert_eq!(rule.directory, Some("nested/test_dir".to_string()));
}

#[test]
fn rule_processing_test_test_rule_with_directory() {
    let rule = Rule {
        directory: Some("test_dir".to_string()),
        ..rule_with_pattern("<pattern>")
    };
    assert_eq!(rule.directory, Some("test_dir".to_string()));

    let rule = Rule {
        directory: Some("nested/test_dir".to_string()),
        ..rule_with_pattern("<pattern>")
    };
    assert_eq!(rule.directory, Some("nested/test_dir".to_string()));
}

#[test]
fn rules_test_rule_with_transformative_function() {
    let rule = Rule {
        function: Some(FolderFunction::First { args: None }),
        ..rule_with_pattern("<pattern>")
    };
    assert_eq!(rule.function, Some(FolderFunction::First { args: None }));

    let rule = Rule {
        function: Some(FolderFunction::Last { args: None }),
        ..rule_with_pattern("<pattern>")
    };
    assert_eq!(rule.function, Some(FolderFunction::Last { args: None }));
}

#[test]
fn rule_processing_test_test_rule_with_transformative_function() {
    let rule = Rule {
        function: Some(TransformativeFunction::First { args: None }),
        ..rule_with_pattern("<pattern>")
    };
    assert_eq!(
        rule.function,
        Some(TransformativeFunction::First { args: None })
    );

    let rule = Rule {
        function: Some(TransformativeFunction::Last { args: None }),
        ..rule_with_pattern("<pattern>")
    };
    assert_eq!(
        rule.function,
        Some(TransformativeFunction::Last { args: None })
    );
}

fn check_rule_with_processors() {
    // Test with all processor fields
    let rule = Rule {
        processors: Some(ConfigProcessor {
            splitter: Some("_".to_string()),
            merger: Some("-".to_string()),
            pattern: Some("test".to_string()),
            date_format: Some("%Y-%m-%d".to_string()),
            replacement: Some("replaced".to_string()),
            format_conversion: None,
        }),
        ..rule_with_pattern("<pattern>")
    };

    let processors = rule.processors.unwrap();
    assert_eq!(processors.splitter, Some("_".to_string()));
    assert_eq!(processors.merger, Some("-".to_string()));
    assert_eq!(processors.pattern, Some("test".to_string()));
    assert_eq!(processors.date_format, Some("%Y-%m-%d".to_string()));
    assert_eq!(processors.replacement, Some("replaced".to_string()));

    // Test with explicit merger
    let rule = Rule {
        processors: Some(ConfigProcessor {
            splitter: Some("_".to_string()),
            merger: None,
            pattern: None,
            date_format: None,
            replacement: None,
            format_conversion: None,
        }),
        ..rule_with_pattern("<pattern>")
    };

    let processors = rule.processors.unwrap();
    assert_eq!(processors.merger, None);
}

#[test]
fn rules_test_rule_with_processors() {
    check_rule_with_processors();
}

#[test]
fn rule_processing_test_test_rule_with_processors() {
    check_rule_with_processors();
}

#[test]
fn rules_test_rule_with_copy_flag() {
    let rule = Rule {
        copy: true,
        ..rule_with_pattern("<pattern>")
    };
    assert!(rule.copy);

    let rule = Rule {
        copy: false,
        ..rule_with_pattern("<pattern>")
    };
    assert!(!rule.copy);
}

#[test]
fn rule_processing_test_test_rule_with_copy_flag() {
    let rule = Rule {
        copy: true,
        ..rule_with_pattern("<pattern>")
    };
    assert!(rule.copy);

    let rule = Rule {
        copy: false,
        ..rule_with_pattern("<pattern>")
    };
    assert!(!rule.copy);
}

#[test]
fn rules_test_rule_with_root_index() {
    let rule = Rule {
        root: 0,
        ..rule_with_pattern("<pattern>")
    };
    assert_eq!(rule.root, 0);

    let rule = Rule {
        root: 1,
        ..rule_with_pattern("<pattern>")
    };
    assert_eq!(rule.root, 1);
}

#[test]
fn rule_processing_test_test_rule_with_root_index() {
    let rule = Rule {
        root: 0,
        ..rule_with_pattern("<pattern>")
    };
    assert_eq!(rule.root, 0);

    let rule = Rule {
        root: 1,
        ..rule_with_pattern("<pattern>")
    };
    assert_eq!(rule.root, 1);
}

#[test]
fn test_rule_with_content_conditions() {
    let rule = Rule {
        title: "Test Content Rule".to_string(),
        pattern: None,
        patterns: None,
        content_conditions: Some(vec![
            ContentCondition {
                property: ContentProperty::Size,
                operator: ConditionOperator::GreaterThan,
                value: "0".to_string(),
            },
            ContentCondition {
                property: ContentProperty::MimeType,
                operator: ConditionOperator::Equal,
                value: "text/plain".to_string(),
            },
        ]),
        match_all_conditions: true,
        directory: None,
        function: None,
        processors: None,
        root: 0,
        copy: false,
        old_pattern: String::new(),
        new_pattern: String::new(),
    };

    // Assert that the rule has content conditions
    assert!(rule.content_conditions.is_some());
    assert_eq!(rule.content_conditions.unwrap().len(), 2);
}

fn rule_with_patterns(patterns: &[&str]) -> Rule {
    Rule {
        pattern: None,
        patterns: Some(patterns.iter().map(|p| p.to_string()).collect()),
        directory: Some("dir".to_string()),
        ..rule_with_pattern("")
    }
}

#[test]
fn a_rule_with_patterns_expands_to_one_rule_each() {
    let mut rule = rule_with_patterns(&["a<b>", "c"]);
    let before = rule.clone();
    let expanded = map_patterns_to_rules(&mut rule).unwrap();
    assert_eq!(rule, before);
    assert_eq!(expanded.len(), 2);
    assert_eq!(expanded[0].pattern, Some("a<b>".to_string()));
    assert_eq!(expanded[1].pattern, Some("c".to_string()));
    assert_eq!(expanded[0].patterns, None);
    assert_eq!(expanded[1].patterns, None);
    assert_eq!(expanded[0].directory, Some("dir".to_string()));
    assert_eq!(expanded[1].title, "Test Rule");
}

#[test]
fn a_rule_without_patterns_expands_to_itself() {
    let mut rule = rule_with_pattern("x");
    let expanded = map_patterns_to_rules(&mut rule).unwrap();
    assert_eq!(expanded, vec![rule_with_pattern("x")]);
    let mut none = rule_with_patterns(&[]);
    assert_eq!(map_patterns_to_rules(&mut none).unwrap(), Vec::<Rule>::new());
}

#[test]
fn extract_rule_with_pattern_sets_the_pattern() {
    let mut rule = rule_with_patterns(&["one", "two"]);
    let derived = extract_rule_with_pattern(&mut rule, "two");
    assert_eq!(rule.pattern, Some("two".to_string()));
    assert_eq!(
        rule.patterns,
        Some(vec!["one".to_string(), "two".to_string()])
    );
    assert_eq!(derived.pattern, Some("two".to_string()));
    assert_eq!(derived.patterns, None);
}

#[test]
fn process_patterns_leaves_the_last_pattern_on_the_rule() {
    let mut rule = rule_with_pattern("old");
    let list = process_patterns(&mut rule, &vec!["x".to_string(), "y".to_string()]);
    assert_eq!(list.len(), 2);
    assert_eq!(list[0].pattern, Some("x".to_string()));
    assert_eq!(list[1].pattern, Some("y".to_string()));
    assert_eq!(rule.pattern, Some("y".to_string()));
    let mut rule = rule_with_pattern("old");
    assert!(process_patterns(&mut rule, &Vec::new()).is_empty());
    assert_eq!(rule.pattern, Some("old".to_string()));
}

#[test]
fn process_rules_appends_expansions_in_order() {
    let mut rules = vec![rule_with_pattern("one"), rule_with_patterns(&["two", "three"])];
    let mut out = vec![rule_with_pattern("zero")];
    process_rules(&mut rules, &mut out).unwrap();
    let patterns: Vec<Option<String>> = out.iter().map(|r| r.pattern.clone()).collect();
    assert_eq!(
        patterns,
        vec![
            Some("zero".to_string()),
            Some("one".to_string()),
            Some("two".to_string()),
            Some("three".to_string())
        ]
    );
    assert_eq!(rules.len(), 2);
    let mut again = Vec::new();
    process_and_append_rule(&mut rules, &mut again).unwrap();
    assert_eq!(again.len(), 3);
}

#[test]
fn rules_by_root_take_the_root_of_their_list() {
    let explicit = Rule {
        root: 2,
        ..rule_with_pattern("keeps")
    };
    let lists = vec![
        vec![rule_with_pattern("first")],
        vec![rule_with_patterns(&["a", "b"]), explicit],
    ];
    let mut out = Vec::new();
    process_and_append_rules(lists, &mut out).unwrap();
    let roots: Vec<usize> = out.iter().map(|r| r.root).collect();
    assert_eq!(roots, vec![0, 1, 1, 2]);
    assert_eq!(out[1].pattern, Some("a".to_string()));
    assert_eq!(out[2].pattern, Some("b".to_string()));
}

#[test]
fn dedup_drops_only_neighbouring_repeats() {
    let a = rule_with_pattern("a");
    let b = rule_with_pattern("b");
    let list = vec![a.clone(), a.clone(), b.clone(), a.clone(), a.clone(), a.clone()];
    let deduped = dedup_rules(list);
    assert_eq!(deduped, vec![a.clone(), b.clone(), a.clone()]);
    assert_eq!(dedup_rules(Vec::new()), Vec::<Rule>::new());
}

#[test]
fn parse_rules_expands_and_dedups() {
    let single = Rules::SingleRule(vec![
        rule_with_patterns(&["x", "x", "y"]),
        rule_with_pattern("z"),
    ]);
    let list = parse_rules(single).unwrap();
    let patterns: Vec<Option<String>> = list.iter().map(|r| r.pattern.clone()).collect();
    assert_eq!(
        patterns,
        vec![
            Some("x".to_string()),
            Some("y".to_string()),
            Some("z".to_string())
        ]
    );
    let by_root = Rules::RootRules(vec![vec![], vec![rule_with_pattern("r")]]);
    let list = parse_rules(by_root).unwrap();
    assert_eq!(list.len(), 1);
    assert_eq!(list[0].root, 1);
}

#[test]
fn prepare_rules_compiles_every_pattern() {
    let mut rules = vec![
        rule_with_pattern("prefix_<date>.txt"),
        rule_with_pattern("plain"),
        Rule {
            pattern: None,
            old_pattern: "kept".to_string(),
            ..rule_with_pattern("")
        },
    ];
    prepare_rules(&mut rules).unwrap();
    assert_eq!(rules[0].old_pattern, "prefix_date.txt");
    assert_eq!(rules[0].new_pattern, "date");
    assert_eq!(rules[1].old_pattern, "plain");
    assert_eq!(rules[1].new_pattern, "plain");
    assert_eq!(rules[2].old_pattern, "kept");
    assert_eq!(rules[2].new_pattern, "");
}

#[test]
fn same_as_agrees_with_equality() {
    let a = Rule {
        processors: Some(ConfigProcessor {
            splitter: None,
            merger: default_merger(),
            pattern: None,
            date_format: None,
            replacement: None,
            format_conversion: Some(FormatConversion {
                source_format: "png".to_string(),
                target_format: "jpg".to_string(),
                resize: Some((10, 20)),
            }),
        }),
        function: Some(FolderFunction::Last {
            args: Some(vec!["x".to_string()]),
        }),
        ..rule_with_pattern("p")
    };
    let mut b = a.clone();
    assert!(a.same_as(&b));
    assert_eq!(a, b);
    b.processors.as_mut().unwrap().format_conversion.as_mut().unwrap().resize = Some((10, 21));
    assert!(!a.same_as(&b));
    let c = Rule {
        function: Some(FolderFunction::First {
            args: Some(vec!["x".to_string()]),
        }),
        ..a.clone()
    };
    assert!(!a.same_as(&c));
}

fn create_test_rule(pattern: &str) -> Rule {
    let mut rule = rule_with_pattern(pattern);
    rule.make_patterns().unwrap();
    rule
}

#[test]
fn test_parse_rules_single_rule() {
    let rule = create_test_rule("test");
    let rules = Rules::SingleRule(vec![rule]);

    let result = parse_rules(rules);
    assert!(result.is_ok());

    let rules_list = result.unwrap();
    assert_eq!(rules_list.len(), 1);

    let parsed_rule = &rules_list[0];
    assert_eq!(parsed_rule.title, "Test Rule");
    assert_eq!(parsed_rule.pattern, Some("test".to_string()));
}

#[test]
fn test_parse_rules_root_rules() {
    let rule1 = create_test_rule("test1");
    let rule2 = create_test_rule("test2");
    let rules = Rules::RootRules(vec![vec![rule1], vec![rule2]]);

    let result = parse_rules(rules);
    assert!(result.is_ok());

    let rules_list = result.unwrap();
    assert_eq!(rules_list.len(), 2);

    let parsed_rule1 = &rules_list[0];
    assert_eq!(parsed_rule1.title, "Test Rule");
    assert_eq!(parsed_rule1.pattern, Some("test1".to_string()));
    assert_eq!(parsed_rule1.root, 0);

    let parsed_rule2 = &rules_list[1];
    assert_eq!(parsed_rule2.title, "Test Rule");
    assert_eq!(parsed_rule2.pattern, Some("test2".to_string()));
    assert_eq!(parsed_rule2.root, 1);
}

#[test]
fn a_broken_pattern_fails_the_whole_list() {
    let mut rules = vec![
        rule_with_pattern("fine_<x>"),
        Rule {
            title: "Broken".to_string(),
            ..rule_with_pattern("bad_<[>")
        },
        rule_with_pattern("never"),
    ];
    let error = prepare_rules(&mut rules).unwrap_err();
    assert_eq!(
        error,
        file_sort::errors::Error::Generic {
            message: "Failed to make patterns for rule 'Broken': Invalid pattern: bad_[".to_string()
        }
    );
    assert_eq!(rules[0].old_pattern, "");
    assert_eq!(rules[1].old_pattern, "");
    assert_eq!(rules[2].old_pattern, "");
    assert_eq!(rules[1].pattern, Some("bad_<[>".to_string()));
}

#[test]
fn a_list_without_rules_is_prepared() {
    let mut rules: Vec<Rule> = Vec::new();
    assert_eq!(prepare_rules(&mut rules), Ok(()));
    assert!(rules.is_empty());
}
