use file_sort::errors::Error;
use file_sort::rules::Rule;
use file_sort::transformer::{apply_transformative_function, collect_entries, FolderFunction};
use tempfile::{tempdir, Builder, TempDir};

fn named_dir(parent: &std::path::Path, name: &str) -> TempDir {
    Builder::new()
        .prefix(name)
        .rand_bytes(0)
        .tempdir_in(parent)
        .unwrap()
}

fn create_test_directory_structure() -> (Vec<TempDir>, String) {
    let temp_dir = tempdir().unwrap();
    let root_path = temp_dir.path().to_path_buf();
    let test = named_dir(&root_path, "test");
    // The innermost directories come first, so that they are removed first.
    let kept = vec![
        named_dir(test.path(), "subdir1"),
        named_dir(test.path(), "subdir2"),
        named_dir(test.path(), "subdir3"),
        named_dir(&root_path, "dir1"),
        named_dir(&root_path, "dir2"),
        test,
        temp_dir,
    ];
    let root = root_path.to_str().unwrap().to_string();
    (kept, root)
}

fn last_part(path: &str) -> &str {
    path.rsplit('/').next().unwrap()
}

#[test]
fn test_first_transformation() {
    let (_tempdir, root_path) = create_test_directory_structure();

    let first_function = FolderFunction::First { args: None };
    let result = first_function.get_dir(&root_path);
    assert!(result.is_ok());
    let dir = result.unwrap();
    assert_eq!(last_part(&dir), "dir1");

    let first_function_with_args = FolderFunction::First {
        args: Some(vec!["test".to_string()]),
    };
    let result = first_function_with_args.get_dir(&root_path);
    assert!(result.is_ok());
    let dir = result.unwrap();
    assert_eq!(last_part(&dir), "subdir1");
}

#[test]
fn test_last_transformation() {
    let (_tempdir, root_path) = create_test_directory_structure();

    let last_function = FolderFunction::Last { args: None };
    let result = last_function.get_dir(&root_path);
    assert!(result.is_ok());
    let dir = result.unwrap();
    assert_eq!(last_part(&dir), "test");

    let last_function_with_args = FolderFunction::Last {
        args: Some(vec!["test".to_string()]),
    };
    let result = last_function_with_args.get_dir(&root_path);
    assert!(result.is_ok());
    let dir = result.unwrap();
    assert_eq!(last_part(&dir), "subdir3");
}

#[test]
fn test_construct_path() {
    let (_tempdir, root_path) = create_test_directory_structure();

    let first_function = FolderFunction::First { args: None };
    let path = first_function.construct_path(&root_path);
    assert_eq!(path, format!("{}/*", root_path));

    let first_function_with_args = FolderFunction::First {
        args: Some(vec!["test".to_string(), "subdir".to_string()]),
    };
    let path = first_function_with_args.construct_path(&root_path);
    assert_eq!(path, format!("{}/test/subdir/*", root_path));
}

#[test]
fn test_get_result_based_on_transformation() {
    let paths = vec![
        String::from("path1"),
        String::from("path2"),
        String::from("path3"),
    ];

    let first_function = FolderFunction::First { args: None };
    let result = first_function.get_result_based_on_transformation(paths.clone());
    assert!(result.is_ok());
    let path = result.unwrap();
    assert_eq!(path, paths[0]);

    let last_function = FolderFunction::Last { args: None };
    let result = last_function.get_result_based_on_transformation(paths.clone());
    assert!(result.is_ok());
    let path = result.unwrap();
    assert_eq!(path, paths[2]);
}

#[test]
fn test_error_handling() {
    let (_tempdir, root_path) = create_test_directory_structure();

    let first_function = FolderFunction::First {
        args: Some(vec!["nonexistent".to_string()]),
    };
    let result = first_function.get_dir(&root_path);
    assert!(result.is_err());

    let error = result.unwrap_err();
    assert!(error.message().contains("not found"));
    assert_eq!(
        error,
        Error::DirectoryNotFound {
            path: format!("{}/nonexistent/*", root_path)
        }
    );
}

#[test]
fn selection_does_not_depend_on_the_order_given() {
    let paths = vec![
        "r/test".to_string(),
        "r/dir2".to_string(),
        "r/dir10".to_string(),
        "r/dir1".to_string(),
        "r/Dir".to_string(),
        "r/dir".to_string(),
    ];
    let first = FolderFunction::First { args: None };
    let last = FolderFunction::Last {
        args: Some(vec!["ignored".to_string()]),
    };
    assert_eq!(
        first.get_result_based_on_transformation(paths.clone()).unwrap(),
        "r/Dir"
    );
    assert_eq!(
        last.get_result_based_on_transformation(paths.clone()).unwrap(),
        "r/test"
    );
    let mut reversed = paths.clone();
    reversed.reverse();
    assert_eq!(
        first.get_result_based_on_transformation(reversed.clone()).unwrap(),
        "r/Dir"
    );
    assert_eq!(
        last.get_result_based_on_transformation(reversed).unwrap(),
        "r/test"
    );
    assert_eq!(
        first
            .get_result_based_on_transformation(vec!["ab".to_string(), "a".to_string()])
            .unwrap(),
        "a"
    );
    assert_eq!(
        first
            .get_result_based_on_transformation(Vec::new())
            .unwrap_err()
            .message(),
        "No directory to select from"
    );
    assert_eq!(
        last.select_directory("r/*", Vec::new()),
        Err(Error::DirectoryNotFound {
            path: "r/*".to_string()
        })
    );
    assert_eq!(
        last.select_directory("r/*", vec!["r/b".to_string(), "r/c".to_string()]),
        Ok("r/c".to_string())
    );
}

#[test]
fn construct_path_joins_segments() {
    let f = FolderFunction::Last {
        args: Some(vec!["comics".to_string(), "batman".to_string()]),
    };
    assert_eq!(f.construct_path("/root"), "/root/comics/batman/*");
    assert_eq!(f.construct_path("/root/"), "/root/comics/batman/*");
    assert_eq!(f.construct_path(""), "comics/batman/*");
    let abs = FolderFunction::First {
        args: Some(vec!["x".to_string(), "/abs".to_string()]),
    };
    assert_eq!(abs.construct_path("/root"), "/abs/*");
    let none = FolderFunction::First { args: Some(vec![]) };
    assert_eq!(none.construct_path("r"), "r/*");
}

#[test]
fn a_refused_glob_is_a_glob_pattern_error() {
    let f = FolderFunction::First {
        args: Some(vec!["***".to_string()]),
    };
    let e = f.get_dir("/tmp").unwrap_err();
    assert!(matches!(e, Error::GlobPattern { ref pattern, .. } if pattern == "/tmp/***/*"));
}

#[test]
fn the_first_unreadable_entry_is_the_error() {
    let entries = vec![
        Ok("a".to_string()),
        Err("denied".to_string()),
        Err("later".to_string()),
    ];
    assert_eq!(
        collect_entries("p/*", entries).unwrap_err().message(),
        "Failed to access p/*: denied"
    );
    assert_eq!(
        collect_entries("p/*", vec![Ok("a".to_string()), Ok("b".to_string())]),
        Ok(vec!["a".to_string(), "b".to_string()])
    );
}

fn rule(directory: Option<&str>, root: usize) -> Rule {
    Rule {
        title: "Title".to_string(),
        pattern: None,
        patterns: None,
        content_conditions: None,
        match_all_conditions: true,
        directory: directory.map(|d| d.to_string()),
        function: None,
        processors: None,
        root,
        copy: false,
        old_pattern: String::new(),
        new_pattern: String::new(),
    }
}

#[test]
fn the_directory_of_a_rule_without_a_selector() {
    let roots = vec!["/r0".to_string(), "/r1".to_string()];
    let found = apply_transformative_function("in/abcdef.txt", &roots, &rule(None, 1)).unwrap();
    assert_eq!(found.target_dir, "/r1/Title");
    assert_eq!(found.source_path, "in/abcdef.txt");
    let found =
        apply_transformative_function("in/abcdef.txt", &roots, &rule(Some("sub/dir"), 0)).unwrap();
    assert_eq!(found.target_dir, "/r0/sub/dir");
    let found =
        apply_transformative_function("in/abcdef.txt", &roots, &rule(Some("x/<2:3>"), 0)).unwrap();
    assert_eq!(found.target_dir, "/r0/x/cde");
    assert!(apply_transformative_function("in/abc", &roots, &rule(Some("<5:1>"), 0)).is_err());
    assert_eq!(
        apply_transformative_function("in/abc", &roots, &rule(None, 2))
            .unwrap_err()
            .message(),
        "Root index out of bounds"
    );
}

#[test]
fn a_rule_with_a_selector_takes_the_directory_from_disk() {
    let (_tempdir, root_path) = create_test_directory_structure();
    let mut r = rule(Some("ignored"), 0);
    r.function = Some(FolderFunction::Last {
        args: Some(vec!["test".to_string()]),
    });
    let found = apply_transformative_function("in/f.txt", &vec![root_path.clone()], &r).unwrap();
    assert_eq!(found.target_dir, format!("{}/test/subdir3", root_path));
}

#[test]
fn a_directory_is_picked_from_what_the_glob_brought() {
    let first = FolderFunction::First { args: None };
    let last = FolderFunction::Last { args: None };
    let brought = || {
        Ok(vec![
            Ok("r/dir2".to_string()),
            Ok("r/test".to_string()),
            Ok("r/dir1".to_string()),
        ])
    };
    assert_eq!(first.select_from("r/*", brought()), Ok("r/dir1".to_string()));
    assert_eq!(last.select_from("r/*", brought()), Ok("r/test".to_string()));
    assert_eq!(
        first.select_from("r/***", Err("wildcards are either regular `*` or recursive `**`".to_string())),
        Err(Error::GlobPattern {
            detail: "wildcards are either regular `*` or recursive `**`".to_string(),
            pattern: "r/***".to_string()
        })
    );
    assert_eq!(
        last.select_from("r/*", Ok(Vec::new())),
        Err(Error::DirectoryNotFound {
            path: "r/*".to_string()
        })
    );
    assert_eq!(
        last.select_from(
            "r/*",
            Ok(vec![
                Ok("r/a".to_string()),
                Err("denied".to_string()),
                Err("again".to_string())
            ])
        ),
        Err(Error::Generic {
            message: "Failed to access r/*: denied".to_string()
        })
    );
}
