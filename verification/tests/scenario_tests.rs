use recurse::config::Config;
use recurse::config::Recurse;
use recurse::contains::ContainsCommand;
use recurse::errors::RecurseError;
use recurse::find::FindCommand;
use recurse::model::Entry;
use recurse::model::TreeSnapshot;
use recurse::paths::canonical_path_is_hidden;
use recurse::paths::path_has_extension;
use recurse::text::dec_str;
use recurse::text::split_lines;
use recurse::walk::WalkCommand;

fn scenario_tree(rows: Vec<(&str, bool, bool, usize, Option<&str>)>) -> TreeSnapshot {
    let mut entries: Vec<Entry> = Vec::new();
    let mut hidden: Vec<bool> = Vec::new();
    let mut contents: Vec<Option<String>> = Vec::new();
    for (path, is_file, is_dir, depth, content) in rows {
        hidden.push(canonical_path_is_hidden(path));
        contents.push(content.map(String::from));
        entries.push(Entry { path: String::from(path), is_file, is_dir, depth });
    }
    TreeSnapshot { root_exists: true, entries, hidden, contents }
}

fn scenario_walk_request(extension: Option<&str>, hidden: bool) -> Recurse {
    Recurse::Walk {
        extension: extension.map(String::from),
        dir_only: false,
        hidden,
        inpath: String::from("d"),
        mindepth: None,
        maxdepth: None,
        symlinks: false,
    }
}

// A directory holding a.txt, b.md and .hidden.txt: the default walk
// returns exactly {a.txt, b.md}; with hidden inclusion all three; with
// the extension filter txt and hidden inclusion {a.txt, .hidden.txt}.
#[test]
fn walk_scenario_hidden_and_extension_filters() {
    let tree = scenario_tree(vec![
        ("d", false, true, 0, None),
        ("d/a.txt", true, false, 1, None),
        ("d/b.md", true, false, 1, None),
        ("d/.hidden.txt", true, false, 1, None),
    ]);

    let res = WalkCommand::execute(scenario_walk_request(None, false), &tree);
    let lines = res.unwrap_or_default();
    assert_eq!(lines.len(), 2);
    assert!(lines.contains(&String::from("d/a.txt")));
    assert!(lines.contains(&String::from("d/b.md")));

    let res = WalkCommand::execute(scenario_walk_request(None, true), &tree);
    let lines = res.unwrap_or_default();
    assert_eq!(lines.len(), 3);
    assert!(lines.contains(&String::from("d/a.txt")));
    assert!(lines.contains(&String::from("d/b.md")));
    assert!(lines.contains(&String::from("d/.hidden.txt")));

    let res = WalkCommand::execute(scenario_walk_request(Some("txt"), true), &tree);
    let lines = res.unwrap_or_default();
    assert_eq!(lines.len(), 2);
    assert!(lines.contains(&String::from("d/a.txt")));
    assert!(lines.contains(&String::from("d/.hidden.txt")));
}

// A file containing the line "ID: 1010" yields exactly one record for
// the four-digit pattern, with line number 1, start and end offsets
// bracketing "1010", and the matched text.
#[test]
fn find_scenario_four_digit_id() {
    let tree = scenario_tree(vec![("d", false, true, 0, None), ("d/f.txt", true, false, 1, Some("ID: 1010"))]);
    let rw = Recurse::Find {
        extension: None,
        hidden: false,
        mindepth: None,
        maxdepth: None,
        symlinks: false,
        find: String::from(r"\d\d\d\d"),
        inpath: String::from("d"),
    };
    let res = FindCommand::execute(rw, &tree);
    let lines = res.unwrap_or_default();
    assert_eq!(lines.len(), 1);
    assert_eq!(lines[0], String::from("d/f.txt 1:4-8 [ 1010 ]"));
}

#[test]
fn walk_depth_band_keeps_only_entries_inside_it() {
    let tree = scenario_tree(vec![
        ("d", false, true, 0, None),
        ("d/one.txt", true, false, 1, None),
        ("d/s", false, true, 1, None),
        ("d/s/two.txt", true, false, 2, None),
        ("d/s/t", false, true, 2, None),
        ("d/s/t/three.txt", true, false, 3, None),
    ]);
    let rw = Recurse::Walk {
        extension: None,
        dir_only: false,
        hidden: false,
        inpath: String::from("d"),
        mindepth: Some(2),
        maxdepth: Some(2),
        symlinks: false,
    };
    let res = WalkCommand::execute(rw, &tree);
    let lines = res.unwrap_or_default();
    assert_eq!(lines, vec![String::from("d/s/two.txt")]);
}

#[test]
fn walk_contradictory_depth_band_yields_nothing() {
    let tree = scenario_tree(vec![("d", false, true, 0, None), ("d/a.txt", true, false, 1, None)]);
    let rw = Recurse::Walk {
        extension: None,
        dir_only: false,
        hidden: false,
        inpath: String::from("d"),
        mindepth: Some(2),
        maxdepth: Some(1),
        symlinks: false,
    };
    let res = WalkCommand::execute(rw, &tree);
    assert_eq!(res.unwrap_or_default().len(), 0);
}

// The extension filter tolerates a leading dot: both spellings of the
// filter agree on every probed path.
#[test]
fn extension_filter_dot_spellings_agree() {
    for p in ["a/b.txt", "a/b.md", "a/b", "a/.txt", "b.txt.bu", "x."] {
        assert_eq!(path_has_extension(p, "txt"), path_has_extension(p, ".txt"));
    }
    assert!(path_has_extension("a/b.txt", "txt"));
    assert!(path_has_extension("a/b.txt", ".txt"));
    assert!(!path_has_extension("a/b.md", "txt"));
}

// A path is hidden exactly when some segment of its canonical form
// starts with a dot.
#[test]
fn hidden_path_segments_decide_hiddenness() {
    assert!(canonical_path_is_hidden("/home/user/.config/app"));
    assert!(canonical_path_is_hidden("/home/user/.dotfile"));
    assert!(canonical_path_is_hidden(".relative"));
    assert!(canonical_path_is_hidden(r"c:\users\.hidden\f.txt"));
    assert!(!canonical_path_is_hidden("/home/user/plain/file.txt"));
    assert!(!canonical_path_is_hidden("/ends.with/dots.ok/file.d.txt"));
}

// Offsets are character offsets within the line: a multibyte character
// before the match still counts as one.
#[test]
fn find_reports_character_offsets_for_multibyte_lines() {
    let tree = scenario_tree(vec![("d", false, true, 0, None), ("d/u.txt", true, false, 1, Some("ऄb"))]);
    let rw = Recurse::Find {
        extension: None,
        hidden: false,
        mindepth: None,
        maxdepth: None,
        symlinks: false,
        find: String::from("b"),
        inpath: String::from("d"),
    };
    let lines = FindCommand::execute(rw, &tree).unwrap_or_default();
    assert_eq!(lines, vec![String::from("d/u.txt 1:1-2 [ b ]")]);
}

// Matches in one line are reported left to right, non-overlapping.
#[test]
fn find_reports_every_match_of_a_line_in_order() {
    let tree = scenario_tree(vec![
        ("d", false, true, 0, None),
        ("d/m.txt", true, false, 1, Some("foo foo\nfoo\n")),
    ]);
    let rw = Recurse::Find {
        extension: None,
        hidden: false,
        mindepth: None,
        maxdepth: None,
        symlinks: false,
        find: String::from("foo"),
        inpath: String::from("d"),
    };
    let lines = FindCommand::execute(rw, &tree).unwrap_or_default();
    assert_eq!(
        lines,
        vec![
            String::from("d/m.txt 1:0-3 [ foo ]"),
            String::from("d/m.txt 1:4-7 [ foo ]"),
            String::from("d/m.txt 2:0-3 [ foo ]"),
        ]
    );
}

// An entry that is neither a file nor a directory (an unfollowed
// symbolic link) appears in neither listing mode.
#[test]
fn walk_skips_entries_that_are_neither_file_nor_directory() {
    let tree = scenario_tree(vec![
        ("d", false, true, 0, None),
        ("d/link", false, false, 1, None),
        ("d/a.txt", true, false, 1, None),
    ]);
    let lines = WalkCommand::execute(scenario_walk_request(None, false), &tree).unwrap_or_default();
    assert_eq!(lines, vec![String::from("d/a.txt")]);
    let rw = Recurse::Walk {
        extension: None,
        dir_only: true,
        hidden: false,
        inpath: String::from("d"),
        mindepth: None,
        maxdepth: None,
        symlinks: false,
    };
    let lines = WalkCommand::execute(rw, &tree).unwrap_or_default();
    assert_eq!(lines, vec![String::from("d")]);
}

#[test]
fn contains_surfaces_invalid_pattern_verbatim() {
    let tree = scenario_tree(vec![("d", false, true, 0, None)]);
    let rw = Recurse::Contains {
        extension: None,
        hidden: false,
        mindepth: None,
        maxdepth: None,
        symlinks: false,
        find: String::from("(unclosed"),
        inpath: String::from("d"),
    };
    let res = ContainsCommand::execute(rw, &tree);
    match res {
        Err(RecurseError::Pattern(msg)) => {
            assert!(msg.contains("regex parse error"));
            // the compiler's message is surfaced verbatim
            match regex::Regex::new("(unclosed") {
                Err(e) => assert_eq!(msg, e.to_string()),
                Ok(_) => panic!("expected the pattern to be rejected"),
            }
        },
        _ => panic!("expected the pattern compiler's error"),
    }
}

#[test]
fn missing_root_message_names_the_path() {
    let e = RecurseError::MissingRoot(String::from("path/to/bogus"));
    assert_eq!(e.message(), String::from("no such file or directory 'path/to/bogus'"));
}

#[test]
fn decimal_rendering_is_exact() {
    assert_eq!(dec_str(0), String::from("0"));
    assert_eq!(dec_str(7), String::from("7"));
    assert_eq!(dec_str(10), String::from("10"));
    assert_eq!(dec_str(1010), String::from("1010"));
    assert_eq!(dec_str(987654321), String::from("987654321"));
}

#[test]
fn line_splitting_matches_line_reader_rules() {
    assert_eq!(split_lines(""), Vec::<String>::new());
    assert_eq!(split_lines("a"), vec![String::from("a")]);
    assert_eq!(split_lines("a\n"), vec![String::from("a")]);
    assert_eq!(split_lines("\n"), vec![String::from("")]);
    assert_eq!(split_lines("a\r\nb"), vec![String::from("a"), String::from("b")]);
    assert_eq!(split_lines("a\nb\n"), vec![String::from("a"), String::from("b")]);
    assert_eq!(split_lines("a\rb"), vec![String::from("a\rb")]);
    assert_eq!(split_lines("a\r"), vec![String::from("a\r")]);
}

#[test]
fn run_dispatches_walk_and_replace_plans() {
    let tree = scenario_tree(vec![
        ("d", false, true, 0, None),
        ("d/a.txt", true, false, 1, Some("foo foo")),
    ]);

    let walk_cfg = Config::new(scenario_walk_request(None, false));
    let plan = match recurse::run(walk_cfg, &tree) {
        Ok(plan) => plan,
        Err(_) => panic!("expected a walk plan"),
    };
    assert_eq!(plan.lines, vec![String::from("d/a.txt")]);
    assert_eq!(plan.updates.len(), 0);

    let replace_cfg = Config::new(Recurse::Replace {
        extension: None,
        hidden: false,
        nobu: false,
        mindepth: None,
        maxdepth: None,
        symlinks: false,
        find: String::from("foo"),
        replace: String::from("bar"),
        inpath: String::from("d"),
    });
    let plan = match recurse::run(replace_cfg, &tree) {
        Ok(plan) => plan,
        Err(_) => panic!("expected a substitution plan"),
    };
    assert_eq!(plan.lines, vec![String::from("d/a.txt updated")]);
    assert_eq!(plan.updates.len(), 1);
    assert_eq!(plan.updates[0].content, String::from("bar bar"));
    match &plan.updates[0].backup {
        Some(b) => {
            assert_eq!(b.path, String::from("d/a.txt.bu"));
            assert_eq!(b.content, String::from("foo foo"));
        },
        None => panic!("expected a backup"),
    }
}

#[test]
fn run_reports_missing_root() {
    let tree = TreeSnapshot {
        root_exists: false,
        entries: Vec::new(),
        hidden: Vec::new(),
        contents: Vec::new(),
    };
    let cfg = Config::new(scenario_walk_request(None, false));
    match recurse::run(cfg, &tree) {
        Err(RecurseError::MissingRoot(p)) => assert_eq!(p, String::from("d")),
        _ => panic!("expected the missing root to be reported"),
    }
}

// With a pattern that matches every text, the content test surfaces
// exactly the files the listing surfaces.
#[test]
fn contains_with_match_all_pattern_equals_listing() {
    let tree = scenario_tree(vec![
        ("d", false, true, 0, None),
        ("d/a.txt", true, false, 1, Some("alpha")),
        ("d/b.md", true, false, 1, Some("")),
        ("d/.h.txt", true, false, 1, Some("gamma")),
    ]);
    let walk_lines = WalkCommand::execute(scenario_walk_request(None, false), &tree).unwrap_or_default();
    let rw = Recurse::Contains {
        extension: None,
        hidden: false,
        mindepth: None,
        maxdepth: None,
        symlinks: false,
        find: String::from(".*"),
        inpath: String::from("d"),
    };
    let contains_lines = ContainsCommand::execute(rw, &tree).unwrap_or_default();
    assert_eq!(walk_lines, contains_lines);
}
