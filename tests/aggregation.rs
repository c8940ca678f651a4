use fileagg::{
    add_file, aggregate_files, select_sink, AggregateError, Report, RunConfig, Sink, WalkEntry,
    WalkedFile, DEFAULT_OUTPUT,
};

fn file(path: &str, body: Option<&str>) -> WalkedFile {
    let name = path.rsplit('/').next().unwrap();
    let ext = match name.rfind('.') {
        Some(i) if i > 0 => Some(name[i + 1..].to_string()),
        _ => None,
    };
    WalkedFile {
        entry: WalkEntry {
            path: path.to_string(),
            file_name: name.to_string(),
            extension: ext,
            is_file: true,
        },
        body: body.map(|b| b.to_string()),
    }
}

fn dir(path: &str) -> WalkedFile {
    let name = path.rsplit('/').next().unwrap();
    WalkedFile {
        entry: WalkEntry {
            path: path.to_string(),
            file_name: name.to_string(),
            extension: None,
            is_file: false,
        },
        body: None,
    }
}

fn text_of(config: &RunConfig, files: &Vec<WalkedFile>) -> (String, Report) {
    match aggregate_files(config, true, files) {
        Ok(a) => (a.text, a.report),
        Err(_) => panic!("the root is a directory"),
    }
}

#[test]
fn python_and_js_files_with_node_modules_left_out() {
    let config = RunConfig::new("root".to_string(), false, true, None);
    let files = vec![
        dir("root"),
        file("root/a.py", Some("print(1)")),
        file("root/b.js", Some("let x=1;")),
        dir("root/node_modules"),
        file("root/node_modules/c.js", Some("var c;")),
    ];
    let (text, report) = text_of(&config, &files);
    assert_eq!(
        text,
        "# File: a.py\n# Path: root/a.py\nprint(1)\n\n// File: b.js\n// Path: root/b.js\nlet x=1;"
    );
    let raw = "\n# File: a.py\n# Path: root/a.py\nprint(1)\n\n// File: b.js\n// Path: root/b.js\nlet x=1;\n";
    assert_eq!(report, Report::Processed(raw.chars().count()));
    assert!(!text.contains("c.js"));
}

#[test]
fn html_and_css_blocks_are_closed() {
    let config = RunConfig::new("r".to_string(), false, true, None);
    let files = vec![file("r/i.html", Some("<p>hi</p>")), file("r/s.css", Some("p {}"))];
    let (text, _) = text_of(&config, &files);
    assert_eq!(
        text,
        "<!-- File: i.html\n<!-- Path: r/i.html\n<p>hi</p>\n-->\n\n/* File: s.css\n/* Path: r/s.css\np {}\n*/"
    );
}

#[test]
fn line_comment_blocks_have_no_closing_line() {
    let config = RunConfig::new("r".to_string(), false, true, None);
    let files = vec![file("r/m.rs", Some("fn main() {}")), file("r/x.sh", Some("ls"))];
    let (text, _) = text_of(&config, &files);
    assert!(!text.contains("-->"));
    assert!(!text.contains("*/"));
    assert_eq!(text, "// File: m.rs\n// Path: r/m.rs\nfn main() {}\n\n# File: x.sh\n# Path: r/x.sh\nls");
}

#[test]
fn unreadable_file_keeps_its_header() {
    let config = RunConfig::new("r".to_string(), false, true, None);
    let files = vec![file("r/bin.dat", None), file("r/p.html", None)];
    let (text, _) = text_of(&config, &files);
    assert_eq!(
        text,
        "// File: bin.dat\n// Path: r/bin.dat\n\n<!-- File: p.html\n<!-- Path: r/p.html\n-->"
    );
}

#[test]
fn allowlist_limits_the_output() {
    let config = RunConfig::new("r".to_string(), false, true, Some("py,md"));
    let files = vec![
        file("r/a.py", Some("A")),
        file("r/b.js", Some("B")),
        file("r/README", Some("C")),
        file("r/d.md", Some("D")),
    ];
    let (text, _) = text_of(&config, &files);
    assert_eq!(text, "# File: a.py\n# Path: r/a.py\nA\n\n// File: d.md\n// Path: r/d.md\nD");
}

#[test]
fn root_that_is_not_a_directory_fails() {
    let config = RunConfig::new("missing/dir".to_string(), false, true, None);
    let files = vec![file("missing/dir/a.py", Some("x"))];
    match aggregate_files(&config, false, &files) {
        Err(e) => {
            assert!(matches!(&e, AggregateError::NotADirectory(p) if p == "missing/dir"));
            assert_eq!(e.message(), "Path is not a directory: \"missing/dir\"");
        }
        Ok(_) => panic!("expected an error"),
    }
}

#[test]
fn no_eligible_files_gives_empty_text() {
    let config = RunConfig::new("r".to_string(), false, true, Some("rs"));
    let files = vec![dir("r"), file("r/a.py", Some("x")), file("r/node_modules/b.rs", Some("y"))];
    let (text, report) = text_of(&config, &files);
    assert_eq!(text, "");
    assert_eq!(report, Report::NoFiles);
    let (text, report) = text_of(&config, &Vec::new());
    assert_eq!(text, "");
    assert_eq!(report, Report::NoFiles);
}

#[test]
fn white_space_only_body_still_reports_characters() {
    let config = RunConfig::new("r".to_string(), false, true, None);
    let files = vec![file("r/e.txt", Some("  \n "))];
    let (text, report) = text_of(&config, &files);
    assert_eq!(text, "// File: e.txt\n// Path: r/e.txt");
    assert_eq!(report, Report::Processed("\n// File: e.txt\n// Path: r/e.txt\n  \n \n".len()));
}

#[test]
fn second_run_gives_identical_output() {
    let config = RunConfig::new("r".to_string(), true, false, None);
    let files = vec![file("r/a.py", Some("1")), file("r/b.css", Some("2")), file("r/c", None)];
    let first = text_of(&config, &files);
    let second = text_of(&config, &files);
    assert_eq!(first, second);
}

#[test]
fn non_ascii_names_and_bodies() {
    let config = RunConfig::new("r".to_string(), false, true, None);
    let files = vec![file("r/é.yml", Some("ключ: значение"))];
    let (text, report) = text_of(&config, &files);
    assert_eq!(text, "# File: é.yml\n# Path: r/é.yml\nключ: значение");
    let raw = "\n# File: é.yml\n# Path: r/é.yml\nключ: значение\n";
    assert_eq!(report, Report::Processed(raw.chars().count()));
}

#[test]
fn add_file_appends_only_taken_files() {
    let config = RunConfig::new("r".to_string(), false, true, None);
    let mut buf = String::from("start");
    add_file(&mut buf, &config, &dir("r/sub"));
    assert_eq!(buf, "start");
    add_file(&mut buf, &config, &file("r/q.rb", Some("puts 1")));
    assert_eq!(buf, "start\n# File: q.rb\n# Path: r/q.rb\nputs 1\n");
}

#[test]
fn sink_precedence() {
    assert!(matches!(select_sink(Some("o.txt".to_string()), true, true), Sink::Terminal));
    assert!(matches!(select_sink(None, true, false), Sink::Terminal));
    assert!(matches!(select_sink(Some("o.txt".to_string()), false, true), Sink::Clipboard));
    assert!(matches!(select_sink(Some("o.txt".to_string()), false, false), Sink::File(p) if p == "o.txt"));
    assert!(matches!(select_sink(None, false, false), Sink::File(p) if p == DEFAULT_OUTPUT));
    assert_eq!(DEFAULT_OUTPUT, "fileagg_output.txt");
}

#[test]
fn error_message_escapes_the_path() {
    let config = RunConfig::new("a\"b\\c\n".to_string(), false, true, None);
    match aggregate_files(&config, false, &Vec::new()) {
        Err(e) => assert_eq!(e.message(), "Path is not a directory: \"a\\\"b\\\\c\\n\""),
        Ok(_) => panic!("expected an error"),
    }
}
