use harness_runtime::paths::{is_below, path_components, paths_equal};
use harness_runtime::traits::{SearchQuery, Workspace, WorkspaceError};
use harness_runtime::workspace::FakeWorkspace;

fn query(pattern: &str) -> SearchQuery {
    SearchQuery { pattern: pattern.to_string(), path_prefix: None, max_results: None }
}

fn found(ws: &FakeWorkspace, query: &SearchQuery) -> Vec<(String, u64, String)> {
    ws.search(query)
        .expect("search")
        .matches
        .into_iter()
        .map(|m| (m.path, m.line, m.preview))
        .collect()
}

#[test]
fn write_then_read_round_trips() {
    let mut ws = FakeWorkspace::new();
    let content: &[u8] = b"fn main() {}";
    ws.write("/src/main.rs", content.to_vec()).expect("write");
    let data = ws.read("/src/main.rs").expect("read");
    assert_eq!(data, content.to_vec());
}

#[test]
fn read_missing_file_is_not_found() {
    let ws = FakeWorkspace::new();
    let err = ws.read("/missing.txt").unwrap_err();
    assert!(matches!(err, WorkspaceError::NotFound(_)));
}

#[test]
fn read_only_workspace_rejects_writes() {
    let mut ws = FakeWorkspace::new().read_only();
    let content: &[u8] = b"x";
    let err = ws.write("/a.txt", content.to_vec()).unwrap_err();
    assert!(matches!(err, WorkspaceError::PermissionDenied(_)));
}

#[test]
fn search_finds_seeded_content() {
    let content: &[u8] = b"pub fn parse() {}\nfn helper() {}";
    let ws = FakeWorkspace::new().with_file("/src/lib.rs".to_string(), content.to_vec());
    let result = ws
        .search(&SearchQuery {
            pattern: "parse".to_string(),
            path_prefix: None,
            max_results: None,
        })
        .expect("search");
    assert_eq!(result.matches.len(), 1);
    assert_eq!(result.matches[0].path, "/src/lib.rs");
    assert_eq!(result.matches[0].line, 1);
}

#[test]
fn status_reports_file_count_and_writability() {
    let a: &[u8] = b"a";
    let b: &[u8] = b"b";
    let ws = FakeWorkspace::new()
        .with_root("/project".to_string())
        .with_file("/project/a.txt".to_string(), a.to_vec())
        .with_file("/project/b.txt".to_string(), b.to_vec());
    let status = ws.status().expect("status");
    assert_eq!(status.root, Some("/project".to_string()));
    assert_eq!(status.file_count, 2);
    assert!(status.is_writable);
}

#[test]
fn errors_name_the_path() {
    let mut ws = FakeWorkspace::new().read_only();
    assert_eq!(ws.read("/x").unwrap_err().message(), "path not found: /x");
    assert_eq!(ws.write("/x", vec![]).unwrap_err().message(), "permission denied: /x");
    assert_eq!(
        WorkspaceError::Io("disk on fire".to_string()).message(),
        "workspace I/O error: disk on fire"
    );
}

#[test]
fn the_default_workspace_forbids_writes() {
    let mut ws = FakeWorkspace::default();
    assert!(ws.write("/x", vec![1]).is_err());
    let status = ws.status().expect("status");
    assert_eq!(status.file_count, 0);
    assert_eq!(status.root, None);
    assert!(!status.is_writable);
}

#[test]
fn a_read_only_workspace_can_still_be_seeded() {
    let ws = FakeWorkspace::new().read_only().with_file("/a".to_string(), vec![7]);
    assert_eq!(ws.read("/a").expect("read"), vec![7]);
}

#[test]
fn writing_again_replaces_the_data_and_keeps_other_files() {
    let mut ws = FakeWorkspace::new();
    ws.write("/a", vec![1]).expect("write");
    ws.write("/b", vec![2]).expect("write");
    ws.write("/a", vec![3]).expect("write");
    assert_eq!(ws.read("/a").expect("read"), vec![3]);
    assert_eq!(ws.read("/b").expect("read"), vec![2]);
    assert_eq!(ws.status().expect("status").file_count, 2);
}

#[test]
fn one_file_has_many_names() {
    let mut ws = FakeWorkspace::new();
    ws.write("/a//b/./c/", vec![1]).expect("write");
    assert_eq!(ws.read("/a/b/c").expect("read"), vec![1]);
    ws.write("/a/b/c", vec![2]).expect("write");
    assert_eq!(ws.read("/a//b/./c/").expect("read"), vec![2]);
    assert_eq!(ws.status().expect("status").file_count, 1);
}

#[test]
fn paths_compare_by_component() {
    assert_eq!(path_components("/a//b/./c/"), vec!["/", "a", "b", "c"]);
    assert_eq!(path_components("./a/."), vec![".", "a"]);
    assert_eq!(path_components("a/../b"), vec!["a", "..", "b"]);
    assert_eq!(path_components(""), Vec::<String>::new());
    assert_eq!(path_components("/"), vec!["/"]);
    assert!(paths_equal("a/b", "a//b/"));
    assert!(!paths_equal("a/b", "/a/b"));
    assert!(!paths_equal("./a", "a"));
    assert!(is_below("/a/b", "/a"));
    assert!(is_below("/a/b", "/a/b"));
    assert!(!is_below("/ab", "/a"));
    assert!(!is_below("/a", "/a/b"));
    assert!(is_below("a", ""));
}

#[test]
fn components_agree_with_std() {
    let samples =
        ["", "/", ".", "./", "./.", "a", "a/", "/a/../b", "//a", "a//b", "a/./b", "..", "/./a", "/.."];
    for sample in samples {
        let expected: Vec<String> = std::path::Path::new(sample)
            .components()
            .map(|c| c.as_os_str().to_string_lossy().into_owned())
            .collect();
        assert_eq!(path_components(sample), expected, "components of {sample:?}");
    }
}

#[test]
fn a_search_can_be_restricted_to_a_path() {
    let ws = FakeWorkspace::new()
        .with_file("/src/a".to_string(), b"hit".to_vec())
        .with_file("/srcs/b".to_string(), b"hit".to_vec());
    let mut q = query("hit");
    q.path_prefix = Some("/src/".to_string());
    assert_eq!(found(&ws, &q), vec![("/src/a".to_string(), 1, "hit".to_string())]);
}

#[test]
fn a_search_can_be_capped() {
    let ws = FakeWorkspace::new().with_file("/a".to_string(), b"x\nx\nx".to_vec());
    let mut q = query("x");
    q.max_results = Some(2);
    assert_eq!(found(&ws, &q).len(), 2);
    q.max_results = Some(9);
    assert_eq!(found(&ws, &q).len(), 3);
    q.max_results = Some(0);
    assert_eq!(found(&ws, &q).len(), 0);
    q.max_results = Some(1);
    assert_eq!(found(&ws, &q), vec![("/a".to_string(), 1, "x".to_string())]);
}

#[test]
fn lines_end_as_std_has_it() {
    let text = "one\r\n\ntwo\rthree\n\r\nlast\r";
    let ws = FakeWorkspace::new().with_file("/a".to_string(), text.as_bytes().to_vec());
    let expected: Vec<(String, u64, String)> = text
        .lines()
        .enumerate()
        .map(|(i, line)| ("/a".to_string(), (i + 1) as u64, line.to_string()))
        .collect();
    assert_eq!(found(&ws, &query("")), expected);
}

#[test]
fn a_preview_shows_the_first_two_hundred_characters() {
    let line = "\u{e9}".repeat(300);
    let ws = FakeWorkspace::new().with_file("/a".to_string(), line.as_bytes().to_vec());
    let matches = found(&ws, &query("\u{e9}"));
    assert_eq!(matches[0].2, "\u{e9}".repeat(200));
}

#[test]
fn bytes_that_are_no_text_are_replaced() {
    let ws = FakeWorkspace::new().with_file("/a".to_string(), vec![b'a', 0xff, b'b']);
    assert_eq!(
        found(&ws, &query("\u{fffd}")),
        vec![("/a".to_string(), 1, "a\u{fffd}b".to_string())]
    );
}
