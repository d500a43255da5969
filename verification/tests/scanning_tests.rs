use file_sort::config::Config;
use file_sort::destination::{plan_file_action, ConversionResult, FileStep};
use file_sort::matcher::{scan_directory, DirectoryEntry};
use file_sort::rules::Rule;
use file_sort::workflow::{OperationKind, OperationType, PlannedOperation, WorkflowContext};

fn entry(path: &str, is_file: bool) -> DirectoryEntry {
    DirectoryEntry {
        path: path.to_string(),
        is_file,
    }
}

fn entries() -> Vec<DirectoryEntry> {
    vec![
        entry("/downloads/b.txt", true),
        entry("/downloads/.hidden", true),
        entry("/downloads/folder", false),
        entry("/downloads/a.pdf", true),
        entry("/downloads/..", true),
    ]
}

fn plain_rule(copy: bool) -> Rule {
    Rule {
        title: "Docs".to_string(),
        pattern: Some("a".to_string()),
        patterns: None,
        content_conditions: None,
        match_all_conditions: true,
        directory: None,
        function: None,
        processors: None,
        root: 0,
        copy,
        old_pattern: "a".to_string(),
        new_pattern: "a".to_string(),
    }
}

fn empty_config() -> Config {
    Config {
        root: vec!["/root".to_string()],
        download: "/downloads".to_string(),
        rules: Vec::new(),
        files: Vec::new(),
        parent: None,
    }
}

fn planned(kind: OperationType) -> PlannedOperation {
    PlannedOperation {
        source: "/downloads/a".to_string(),
        destination: "/root/Docs/a".to_string(),
        operation_type: kind,
        rule_title: "Docs".to_string(),
    }
}

#[test]
fn a_scan_keeps_the_visible_files_in_order() {
    let files = scan_directory(&entries());
    assert_eq!(files.len(), 2);
    assert_eq!(files[0].path, "/downloads/b.txt");
    assert_eq!(files[0].filename, "b.txt");
    assert!(files[0].content_analysis.is_none());
    assert_eq!(files[1].path, "/downloads/a.pdf");
    assert_eq!(files[1].filename, "a.pdf");
}

#[test]
fn a_scan_of_nothing_finds_nothing() {
    assert!(scan_directory(&Vec::new()).is_empty());
    assert!(scan_directory(&vec![entry("/downloads/.profile", true)]).is_empty());
    assert!(scan_directory(&vec![entry("/downloads/sub", false)]).is_empty());
}

#[test]
fn a_configuration_takes_its_files_from_the_entries() {
    let mut config = empty_config();
    config.files = vec!["/old".to_string()];
    config.get_files(&entries());
    assert_eq!(
        config.files,
        vec!["/downloads/b.txt".to_string(), "/downloads/a.pdf".to_string()]
    );
    assert_eq!(config.root, vec!["/root".to_string()]);
    assert_eq!(config.download, "/downloads");
}

#[test]
fn planned_operations_are_counted_by_kind() {
    let mut context = WorkflowContext::new(empty_config(), true);
    assert_eq!(context.count_planned(OperationKind::Move), 0);
    context.add_planned_operation(planned(OperationType::Move));
    context.add_planned_operation(planned(OperationType::Copy));
    context.add_planned_operation(planned(OperationType::Move));
    context.add_planned_operation(planned(OperationType::Convert(
        "png".to_string(),
        "jpg".to_string(),
    )));
    context.add_planned_operation(planned(OperationType::Move));
    assert_eq!(context.count_planned(OperationKind::Move), 3);
    assert_eq!(context.count_planned(OperationKind::Copy), 1);
    assert_eq!(context.count_planned(OperationKind::Convert), 1);
    assert_eq!(OperationType::Move.kind(), OperationKind::Move);
    assert_eq!(OperationType::Copy.kind(), OperationKind::Copy);
    assert_eq!(
        OperationType::Convert("a".to_string(), "b".to_string()).kind(),
        OperationKind::Convert
    );
}

#[test]
fn a_file_is_copied_or_moved_as_its_rule_says() {
    let decided = |copy: bool| ConversionResult {
        source_path: "/downloads/a".to_string(),
        target_path: "/root/Docs/a".to_string(),
        rule: plain_rule(copy),
        conversion: None,
    };
    let moved = plan_file_action(&decided(false), true);
    assert_eq!(moved.step, FileStep::Move);
    assert_eq!(moved.directory, "/root/Docs");
    let copied = plan_file_action(&decided(true), true);
    assert_eq!(copied.step, FileStep::Copy);
    assert_eq!(copied.directory, "/root/Docs");
    let simulated = plan_file_action(&decided(true), false);
    assert_eq!(simulated.step, FileStep::Nothing);
    assert_eq!(simulated.directory, "/root/Docs");
    assert_eq!(plan_file_action(&decided(false), false).step, FileStep::Nothing);
}

#[test]
fn a_single_name_has_no_directory_to_make() {
    let decided = ConversionResult {
        source_path: "a".to_string(),
        target_path: "b".to_string(),
        rule: plain_rule(false),
        conversion: None,
    };
    assert_eq!(plan_file_action(&decided, true).directory, "");
}
