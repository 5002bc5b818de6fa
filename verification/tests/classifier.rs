use repo_porter::classify::is_text_file;

#[test]
fn allow_list_extensions_are_text() {
    assert!(is_text_file("main.rs"));
    assert!(is_text_file("Cargo.toml"));
    assert!(is_text_file("src/lib.c"));
    assert!(is_text_file("index.html"));
    assert!(is_text_file("script.py"));
    assert!(is_text_file("notes.md"));
    assert!(is_text_file("data.json"));
    assert!(is_text_file("config.yaml"));
    assert!(is_text_file("a/b/c.txt"));
    assert!(is_text_file("Cargo.lock"));
}

#[test]
fn allow_list_is_case_insensitive() {
    assert!(is_text_file("MAIN.RS"));
    assert!(is_text_file("README.MD"));
    assert!(is_text_file("a.TxT"));
}

#[test]
fn deny_list_extensions_are_binary() {
    assert!(!is_text_file("app.exe"));
    assert!(!is_text_file("libfoo.so"));
    assert!(!is_text_file("photo.jpg"));
    assert!(!is_text_file("photo.JPEG"));
    assert!(!is_text_file("archive.ZIP"));
    assert!(!is_text_file("movie.mp4"));
    assert!(!is_text_file("doc.pdf"));
    assert!(!is_text_file("module.wasm"));
    assert!(!is_text_file("a/b/cache.pyc"));
}

#[test]
fn well_known_names_are_text_any_case() {
    assert!(is_text_file("README"));
    assert!(is_text_file("readme"));
    assert!(is_text_file("ReadMe"));
    assert!(is_text_file("LICENSE"));
    assert!(is_text_file("Dockerfile"));
    assert!(is_text_file("Makefile"));
    assert!(is_text_file("makefile"));
    assert!(is_text_file("docs/LICENSE"));
    assert!(is_text_file(".gitignore"));
    assert!(is_text_file("Procfile"));
}

#[test]
fn hook_like_names_are_text() {
    assert!(is_text_file("hooks/pre-push"));
    assert!(is_text_file("post-update"));
    assert!(is_text_file("prepare-commit-msg"));
    assert!(is_text_file("my-hook"));
}

#[test]
fn unknown_extension_defaults_to_text() {
    assert!(is_text_file("notes.xyz"));
    assert!(is_text_file("a/b/custom.zzz"));
}

#[test]
fn extensionless_unknown_defaults_to_binary() {
    assert!(!is_text_file("somebinary"));
    assert!(!is_text_file("bin/tool"));
}

#[test]
fn hidden_files_have_no_extension() {
    // a leading dot opens a hidden file's name, not an extension
    assert!(is_text_file(".gitattributes"));
    assert!(is_text_file(".npmrc"));
    assert!(!is_text_file(".cache"));
}
