use ruty::files::{
    absorb_results, fd_args, find_args, make_result, output_paths, result_path, search_dirs,
    FileResult, FileSearcher,
};
use ruty::tools::ToolOutput;

#[test]
fn test_file_search() {
    let probe = ToolOutput { success: true, stdout: b"fd 9.0.0\n".to_vec() };
    let searcher = FileSearcher::new(Some(&probe));
    println!("Using fd: {}", searcher.use_fd);

    let steps = searcher.search("rust", 10, false, Some("/home/u"));
    let mut results = Vec::new();
    for step in &steps {
        let limit = searcher.line_limit(10, results.len());
        for path in output_paths(step.dir.as_deref(), "rust-book\nsrc/rust.rs\n", limit) {
            if let Some(r) = searcher.path_to_result(&path, path.ends_with("book")) {
                results.push(r);
            }
        }
        if searcher.is_complete(10, results.len()) {
            break;
        }
    }
    for r in &results {
        println!("{}: {}", if r.is_dir { "DIR" } else { "FILE" }, r.path);
    }
    assert_eq!(results.len(), 10);
    assert_eq!(results[0].path, "/home/u/rust-book");
    assert_eq!(results[1].name, "rust.rs");
}

#[test]
fn searcher_uses_fd_only_if_the_probe_succeeded() {
    let ok = ToolOutput { success: true, stdout: Vec::new() };
    let failed = ToolOutput { success: false, stdout: Vec::new() };
    assert!(FileSearcher::new(Some(&ok)).use_fd);
    assert!(!FileSearcher::new(Some(&failed)).use_fd);
    assert!(!FileSearcher::new(None).use_fd);
    let probe = FileSearcher::probe();
    assert_eq!(probe.program, "fd");
    assert_eq!(probe.args, vec!["--version"]);
}

#[test]
fn empty_query_searches_nothing() {
    assert!(FileSearcher { use_fd: true }.search("", 10, false, None).is_empty());
    assert!(FileSearcher { use_fd: false }.search("", 10, true, None).is_empty());
}

#[test]
fn fd_runs_once_in_each_directory() {
    let steps = FileSearcher { use_fd: true }.search("rust", 10, false, Some("/home/u"));
    let dirs: Vec<&str> = steps.iter().map(|s| s.dir.as_deref().unwrap()).collect();
    assert_eq!(
        dirs,
        vec![
            "/home/u",
            "/home/u/Documents",
            "/home/u/Downloads",
            "/home/u/Desktop",
            "/home/u/Projects"
        ]
    );
    for step in &steps {
        assert_eq!(step.invocation.program, "fd");
        assert_eq!(
            step.invocation.args,
            vec![
                "--hidden",
                "--no-ignore",
                "--max-depth",
                "4",
                "--max-results",
                "10",
                "-i",
                "--type",
                "f",
                "--type",
                "d",
                "rust"
            ]
        );
    }
    assert_eq!(search_dirs("/h")[4], "/h/Projects");
}

#[test]
fn fd_arguments_for_folders() {
    assert_eq!(
        fd_args("a b", 1234, true),
        vec![
            "--hidden",
            "--no-ignore",
            "--max-depth",
            "4",
            "--max-results",
            "1234",
            "-i",
            "--type",
            "d",
            "a b"
        ]
    );
    assert_eq!(fd_args("x", 0, true)[5], "0");
}

#[test]
fn find_runs_once_from_home() {
    let steps = FileSearcher { use_fd: false }.search("rust", 10, true, None);
    assert_eq!(steps.len(), 1);
    assert_eq!(steps[0].dir, None);
    assert_eq!(steps[0].invocation.program, "find");
    assert_eq!(
        steps[0].invocation.args,
        vec!["/home", "-maxdepth", "4", "-type", "d", "-iname", "*rust*", "-print"]
    );
    assert_eq!(
        find_args("/home/u", "x", false),
        vec!["/home/u", "-maxdepth", "4", "-iname", "*x*", "-print"]
    );
}

#[test]
fn line_limits() {
    let fd = FileSearcher { use_fd: true };
    assert_eq!(fd.line_limit(10, 0), 10);
    assert_eq!(fd.line_limit(10, 7), 3);
    assert_eq!(fd.line_limit(10, 10), 0);
    assert_eq!(fd.line_limit(10, 12), 0);
    let find = FileSearcher { use_fd: false };
    assert_eq!(find.line_limit(10, 7), 10);
    assert!(fd.is_complete(10, 10));
    assert!(!fd.is_complete(10, 9));
    assert!(fd.is_complete(0, 0));
}

#[test]
fn output_lines_become_paths() {
    assert_eq!(
        output_paths(Some("/home/u"), "a.txt\r\n/abs/b\nsub/c\n", 10),
        vec!["/home/u/a.txt", "/abs/b", "/home/u/sub/c"]
    );
    assert_eq!(output_paths(Some("/home/u"), "a\nb\nc", 2), vec!["/home/u/a", "/home/u/b"]);
    assert_eq!(output_paths(None, "/x/y\n\nz", 5), vec!["/x/y", "", "z"]);
    assert!(output_paths(None, "", 5).is_empty());
    assert!(output_paths(None, "a\nb", 0).is_empty());
    assert_eq!(result_path(Some("/home/u/"), "a"), "/home/u/a");
    assert_eq!(result_path(Some(""), "a"), "/a");
    assert_eq!(result_path(None, "a"), "a");
}

#[test]
fn results_carry_name_and_extension() {
    let s = FileSearcher { use_fd: true };
    let f = s.path_to_result("/home/u/notes.tar.gz", false).unwrap();
    assert_eq!(f.name, "notes.tar.gz");
    assert_eq!(f.path, "/home/u/notes.tar.gz");
    assert!(!f.is_dir);
    assert_eq!(f.extension.as_deref(), Some("gz"));
    let d = s.path_to_result("/home/u/photos.d", true).unwrap();
    assert_eq!(d.name, "photos.d");
    assert!(d.is_dir);
    assert_eq!(d.extension, None);
    assert!(s.path_to_result("/", false).is_none());
    assert!(s.path_to_result("/home/..", false).is_none());
    assert!(make_result(None, "/x", false, Some("x".to_string())).is_none());
    let m = make_result(Some("n".to_string()), "/n", true, Some("e".to_string())).unwrap();
    assert_eq!(m.extension, None);
}

fn found(path: &str) -> Option<FileResult> {
    make_result(Some("n".to_string()), path, false, None)
}

#[test]
fn collected_results_never_pass_the_limit() {
    let mut results = Vec::new();
    absorb_results(&mut results, &vec![found("/a"), None, found("/b"), found("/c")], 2);
    let paths: Vec<&str> = results.iter().map(|r| r.path.as_str()).collect();
    assert_eq!(paths, vec!["/a", "/b"]);
    absorb_results(&mut results, &vec![found("/d")], 2);
    assert_eq!(results.len(), 2);
    absorb_results(&mut results, &vec![None, found("/d"), None], 3);
    let paths: Vec<&str> = results.iter().map(|r| r.path.as_str()).collect();
    assert_eq!(paths, vec!["/a", "/b", "/d"]);
    let mut none = Vec::new();
    absorb_results(&mut none, &vec![found("/a")], 0);
    assert!(none.is_empty());
    assert_eq!(results[0].clone().path, "/a");
}

#[test]
fn paths_of_a_step_are_taken_in_order() {
    let searcher = FileSearcher { use_fd: true };
    let mut results = Vec::new();
    let step = vec![
        ("/home/u/a.txt".to_string(), false),
        ("/".to_string(), true),
        ("/home/u/dir.d".to_string(), true),
        ("/home/u/b.rs".to_string(), false),
    ];
    searcher.absorb(&mut results, &step, 10);
    let names: Vec<&str> = results.iter().map(|r| r.name.as_str()).collect();
    assert_eq!(names, vec!["a.txt", "dir.d", "b.rs"]);
    assert_eq!(results[1].extension, None);
    assert_eq!(results[2].extension.as_deref(), Some("rs"));
    searcher.absorb(&mut results, &step, 5);
    assert_eq!(results.len(), 5);
    assert_eq!(results[4].name, "dir.d");
    searcher.absorb(&mut results, &step, 5);
    assert_eq!(results.len(), 5);
}
