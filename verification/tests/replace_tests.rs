use recurse::config::Recurse;
use recurse::errors::RecurseError;
use recurse::model::Entry;
use recurse::model::TreeSnapshot;
use recurse::paths::get_backup_filepath;
use recurse::paths::has_backup_extension;
use recurse::paths::is_root_filepath;
use recurse::replace::ReplaceCommand;

// ======================================
// get_secondary_filepath tests
// ======================================
#[test]
fn test_get_secondary_filepath_with_txt_extension() {
    let testpath = "test/path/bogus.txt";
    assert_eq!(get_backup_filepath(testpath), String::from("test/path/bogus.txt.bu"));
}

#[test]
fn test_get_secondary_filepath_with_2_extension() {
    let testpath = "test/path/bogus.2";
    assert_eq!(get_backup_filepath(testpath), String::from("test/path/bogus.2.bu"));
}

#[test]
fn test_get_secondary_filepath_without_extension() {
    let testpath = "test/path/bogus";
    assert_eq!(get_backup_filepath(testpath), String::from("test/path/bogus.bu"));
}

// ======================================
// has_secondary_extension tests
// ======================================
#[test]
fn test_has_secondary_extension_with_secondary_extension() {
    let testpath = "test/path/bogus.txt.bu";
    assert!(has_backup_extension(testpath));
}

#[test]
fn test_has_secondary_extension_with_secondary_extension_alt1() {
    let testpath = "test/path/bogus.bu";
    assert!(has_backup_extension(testpath));
}

#[test]
fn test_has_secondary_extension_without_secondary_extension() {
    let testpath = "test/path/bogus.txt";
    assert_eq!(has_backup_extension(testpath), false);
}

// ======================================
// is_root_filepath tests
// ======================================
#[test]
fn test_is_root_filepath_with_unix_root() {
    let testpath = "/";
    assert!(is_root_filepath(testpath));
}

#[test]
fn test_is_root_filepath_with_win_root() {
    let testpath = r"\";
    assert!(is_root_filepath(testpath));
}

#[test]
fn test_is_root_filepath_without_root_fp() {
    let testpath = "test/path/bogus";
    assert_eq!(is_root_filepath(testpath), false);
}

// ======================================
// substitution run tests
// ======================================

fn replace_tree(rows: Vec<(Entry, Option<&str>)>) -> TreeSnapshot {
    let mut entries: Vec<Entry> = Vec::new();
    let mut hidden: Vec<bool> = Vec::new();
    let mut contents: Vec<Option<String>> = Vec::new();
    for (e, c) in rows {
        hidden.push(recurse::paths::canonical_path_is_hidden(&e.path));
        contents.push(c.map(String::from));
        entries.push(e);
    }
    TreeSnapshot { root_exists: true, entries, hidden, contents }
}

fn replace_file(path: &str, depth: usize) -> Entry {
    Entry { path: String::from(path), is_file: true, is_dir: false, depth }
}

fn replace_request(find: &str, replace: &str, inpath: &str, nobu: bool) -> Recurse {
    Recurse::Replace {
        extension: None,
        hidden: false,
        nobu,
        mindepth: None,
        maxdepth: None,
        symlinks: false,
        find: String::from(find),
        replace: String::from(replace),
        inpath: String::from(inpath),
    }
}

#[test]
fn replace_plans_backup_and_substitution() {
    // A file holding "foo foo" with pattern `foo` and replacement `bar`
    // ends as "bar bar", with a backup holding "foo foo".
    let tree = replace_tree(vec![(replace_file("dir/a.txt", 1), Some("foo foo"))]);
    let res = ReplaceCommand::execute(replace_request("foo", "bar", "dir", false), &tree);
    match res {
        Ok(updates) => {
            assert_eq!(updates.len(), 1);
            assert_eq!(updates[0].path, String::from("dir/a.txt"));
            assert_eq!(updates[0].content, String::from("bar bar"));
            assert_eq!(updates[0].line, String::from("dir/a.txt updated"));
            match &updates[0].backup {
                Some(b) => {
                    assert_eq!(b.path, String::from("dir/a.txt.bu"));
                    assert_eq!(b.content, String::from("foo foo"));
                },
                None => panic!("expected a backup"),
            }
        },
        Err(_) => panic!("expected a planned run"),
    }
}

#[test]
fn replace_without_backup_flag_plans_no_backup() {
    let tree = replace_tree(vec![(replace_file("dir/a.txt", 1), Some("foo"))]);
    let res = ReplaceCommand::execute(replace_request("foo", "bar", "dir", true), &tree);
    match res {
        Ok(updates) => {
            assert_eq!(updates.len(), 1);
            assert!(updates[0].backup.is_none());
        },
        Err(_) => panic!("expected a planned run"),
    }
}

#[test]
fn replace_skips_files_without_match() {
    let tree = replace_tree(vec![
        (replace_file("dir/a.txt", 1), Some("nothing here")),
        (replace_file("dir/b.txt", 1), Some("foo")),
    ]);
    let res = ReplaceCommand::execute(replace_request("foo", "bar", "dir", false), &tree);
    match res {
        Ok(updates) => {
            assert_eq!(updates.len(), 1);
            assert_eq!(updates[0].path, String::from("dir/b.txt"));
        },
        Err(_) => panic!("expected a planned run"),
    }
}

#[test]
fn replace_skips_backup_files_and_undecodable_files() {
    let tree = replace_tree(vec![
        (replace_file("dir/a.txt.bu", 1), Some("foo")),
        (replace_file("dir/raw.bin", 1), None),
    ]);
    let res = ReplaceCommand::execute(replace_request("foo", "bar", "dir", false), &tree);
    match res {
        Ok(updates) => assert_eq!(updates.len(), 0),
        Err(_) => panic!("expected a planned run"),
    }
}

#[test]
fn replace_refuses_filesystem_root_sentinels() {
    // A run rooted at a filesystem-root sentinel fails validation before
    // anything is planned, for either separator style.
    let tree = replace_tree(vec![(replace_file("/a.txt", 1), Some("foo"))]);
    for root in ["/", r"\"] {
        let res = ReplaceCommand::execute(replace_request("foo", "bar", root, false), &tree);
        match res {
            Err(RecurseError::RootSentinel(p)) => {
                assert_eq!(p, String::from(root));
                let msg = RecurseError::RootSentinel(p).message();
                assert!(msg.contains("does not support replacements"));
                assert!(msg.contains(root));
            },
            _ => panic!("expected the root sentinel to be refused"),
        }
    }
}

#[test]
fn replace_missing_root_aborts_before_planning() {
    // A substitution run whose traversal root does not exist aborts
    // with the missing-root error and plans nothing.
    let tree = TreeSnapshot {
        root_exists: false,
        entries: Vec::new(),
        hidden: Vec::new(),
        contents: Vec::new(),
    };
    let res = ReplaceCommand::execute(replace_request("foo", "bar", "path/to/bogus", false), &tree);
    match res {
        Err(RecurseError::MissingRoot(p)) => {
            assert_eq!(p, String::from("path/to/bogus"));
            let msg = RecurseError::MissingRoot(p).message();
            assert!(msg.contains("no such file or directory"));
        },
        _ => panic!("expected the missing root to be reported"),
    }
}

#[test]
fn replace_surfaces_invalid_pattern() {
    let tree = replace_tree(vec![(replace_file("dir/a.txt", 1), Some("foo"))]);
    let res = ReplaceCommand::execute(replace_request("(unclosed", "bar", "dir", false), &tree);
    assert!(matches!(res, Err(RecurseError::Pattern(_))));
}

#[test]
fn replace_wrong_request_is_refused() {
    let tree = replace_tree(vec![]);
    let rw = Recurse::Walk {
        extension: None,
        dir_only: false,
        hidden: false,
        inpath: String::from("dir"),
        mindepth: None,
        maxdepth: None,
        symlinks: false,
    };
    let res = ReplaceCommand::execute(rw, &tree);
    match res {
        Err(e) => assert!(e.message().contains("failure to parse replace subcommand")),
        Ok(_) => panic!("expected a parse failure"),
    }
}

#[test]
fn replace_second_run_is_noop() {
    // Running the same substitution again over the substituted tree
    // plans nothing: no match remains after "foo" became "bar".
    let first = replace_tree(vec![(replace_file("dir/a.txt", 1), Some("foo foo"))]);
    let res1 = ReplaceCommand::execute(replace_request("foo", "bar", "dir", false), &first);
    let new_content = match res1 {
        Ok(updates) => updates[0].content.clone(),
        Err(_) => panic!("expected a planned run"),
    };
    let second = replace_tree(vec![(replace_file("dir/a.txt", 1), Some(new_content.as_str()))]);
    let res2 = ReplaceCommand::execute(replace_request("foo", "bar", "dir", false), &second);
    match res2 {
        Ok(updates) => assert_eq!(updates.len(), 0),
        Err(_) => panic!("expected a planned run"),
    }
}
