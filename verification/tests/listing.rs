use repo_porter::listing::contents_url;

#[test]
fn root_listing_has_no_trailing_path() {
    assert_eq!(
        contents_url("https://api.example.test/repos", "octocat", "hello-world", ""),
        "https://api.example.test/repos/octocat/hello-world/contents"
    );
}

#[test]
fn nested_listing_appends_the_path() {
    assert_eq!(
        contents_url("https://api.example.test/repos", "octocat", "hello-world", "src/bin"),
        "https://api.example.test/repos/octocat/hello-world/contents/src/bin"
    );
}
