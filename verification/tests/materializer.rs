use repo_porter::document::{
    materialize_markdown, materialize_text, DirEntry, FetchOutcome, FileEntry, Node,
};
use repo_porter::response::LlmTxtHandler;

fn text_file(path: &str, content: &str) -> Node {
    Node::File(FileEntry {
        name: path.rsplit('/').next().unwrap().to_string(),
        path: path.to_string(),
        size: None,
        download_url: Some(format!("https://example.test/raw/{}", path)),
        fetched: Some(FetchOutcome::Content(content.to_string())),
    })
}

fn failed_file(path: &str) -> Node {
    Node::File(FileEntry {
        name: path.rsplit('/').next().unwrap().to_string(),
        path: path.to_string(),
        size: None,
        download_url: Some(format!("https://example.test/raw/{}", path)),
        fetched: Some(FetchOutcome::Failed),
    })
}

fn dir(path: &str, children: Vec<Node>) -> Node {
    Node::Dir(DirEntry {
        name: path.rsplit('/').next().unwrap().to_string(),
        path: path.to_string(),
        children,
    })
}

fn sample_tree() -> Vec<Node> {
    vec![
        text_file("a.txt", "alpha\n"),
        dir("b", vec![text_file("b/c.txt", "gamma\n")]),
    ]
}

#[test]
fn two_invocations_are_identical() {
    let tree = sample_tree();
    let one = materialize_text("user", "repo", &tree);
    let two = materialize_text("user", "repo", &tree);
    assert_eq!(one, two);
    let m1 = materialize_markdown("user", "repo", &tree);
    let m2 = materialize_markdown("user", "repo", &tree);
    assert_eq!(m1, m2);
}

#[test]
fn traversal_is_preorder() {
    let tree = sample_tree();
    let out = materialize_text("user", "repo", &tree);
    let alpha = out.find("alpha").unwrap();
    let dir_b = out.find("Directory: b").unwrap();
    let c_header = out.find("File: b/c.txt").unwrap();
    let gamma = out.find("gamma").unwrap();
    assert!(alpha < c_header);
    assert!(dir_b < c_header);
    assert!(dir_b < gamma);
    assert!(c_header < gamma);
}

#[test]
fn failed_fetch_is_isolated() {
    let tree = vec![
        text_file("a.txt", "alpha\n"),
        dir("b", vec![failed_file("b/c.txt")]),
    ];
    let out = materialize_text("user", "repo", &tree);
    assert!(out.contains("alpha\n"));
    assert!(out.contains("File: b/c.txt"));
    assert!(out.contains("Failed to download file content: https://example.test/raw/b/c.txt"));
}

#[test]
fn plain_document_exact() {
    let tree = vec![text_file("README.md", "hi\n")];
    let out = materialize_text("octocat", "hello-world", &tree);
    assert_eq!(
        out,
        "Repository: octocat/hello-world\n\nFile: README.md\n---------------\nhi\n\n\n"
    );
}

#[test]
fn markdown_document_exact() {
    let tree = vec![Node::File(FileEntry {
        name: "main.rs".to_string(),
        path: "src/main.rs".to_string(),
        size: Some(1024),
        download_url: Some("https://example.test/raw/src/main.rs".to_string()),
        fetched: Some(FetchOutcome::Content("fn main() {}".to_string())),
    })];
    let out = materialize_markdown("user", "repo", &tree);
    assert_eq!(
        out,
        "# Repository: user/repo\n\n### File: src/main.rs (1.00 KB)\n\n```rs\nfn main() {}\n```\n\n"
    );
}

#[test]
fn binary_file_is_not_inlined() {
    let tree = vec![Node::File(FileEntry {
        name: "logo.png".to_string(),
        path: "logo.png".to_string(),
        size: Some(2048),
        download_url: Some("https://example.test/raw/logo.png".to_string()),
        fetched: None,
    })];
    let plain = materialize_text("user", "repo", &tree);
    assert!(plain.contains(
        "Binary file, content not included. Download URL: https://example.test/raw/logo.png"
    ));
    assert!(plain.contains("(2.00 KB)"));
    let md = materialize_markdown("user", "repo", &tree);
    assert!(md.contains(
        "Binary file, content not included. [Download link](https://example.test/raw/logo.png)"
    ));
}

#[test]
fn missing_download_url_is_noted() {
    let tree = vec![Node::File(FileEntry {
        name: "ghost.txt".to_string(),
        path: "ghost.txt".to_string(),
        size: None,
        download_url: None,
        fetched: None,
    })];
    let out = materialize_text("user", "repo", &tree);
    assert!(out.contains("No download URL available for this file.\n\n"));
}

#[test]
fn content_gets_trailing_newline() {
    let tree = vec![text_file("a.txt", "no newline at end")];
    let out = materialize_text("user", "repo", &tree);
    assert!(out.contains("no newline at end\n\n\n"));
}

#[test]
fn response_record_matches_document() {
    let tree = vec![text_file("README.md", "hi\n")];
    let doc = materialize_text("octocat", "hello-world", &tree);
    let res = LlmTxtHandler::from(
        "octocat".to_string(),
        "hello-world".to_string(),
        "abc123".to_string(),
        doc.len() as u32,
    );
    assert_eq!(res.user, "octocat");
    assert_eq!(res.repo, "hello-world");
    assert_eq!(res.load0_hash, "abc123");
    assert_eq!(res.size as usize, doc.len());
}
