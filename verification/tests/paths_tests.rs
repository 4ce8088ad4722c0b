use mdpdf::paths::{file_url, with_extension};

#[test]
fn default_output_replaces_extension() {
    assert_eq!(with_extension("doc.md", "pdf"), "doc.pdf");
    assert_eq!(with_extension("notes/readme.markdown", "pdf"), "notes/readme.pdf");
}

#[test]
fn temp_artifact_path_from_output_path() {
    assert_eq!(with_extension("doc.pdf", "html"), "doc.html");
}

#[test]
fn path_without_extension_gains_one() {
    assert_eq!(with_extension("report", "pdf"), "report.pdf");
    assert_eq!(with_extension("dir.v/file", "pdf"), "dir.v/file.pdf");
}

#[test]
fn leading_dot_is_not_an_extension() {
    assert_eq!(with_extension(".bashrc", "pdf"), ".bashrc.pdf");
    assert_eq!(with_extension("home/.bashrc", "pdf"), "home/.bashrc.pdf");
}

#[test]
fn only_last_extension_is_replaced() {
    assert_eq!(with_extension("a.tar.gz", "pdf"), "a.tar.pdf");
}

#[test]
fn file_url_prefixes_and_encodes_spaces() {
    assert_eq!(file_url("/tmp/my doc.html"), "file:////tmp/my%20doc.html");
    assert_eq!(file_url("plain.html"), "file:///plain.html");
}
