use kaspa_ng::overview::{download_label, download_link, first_chars, redistributable_platforms};

#[test]
fn release_archives() {
    assert_eq!(redistributable_platforms(), vec!["windows-x64", "linux-gnu-amd64", "macos-arm64"]);
    assert_eq!(download_label("0.2.6", "macos-arm64"), "• kaspa-ng-0.2.6-macos-arm64.zip");
    assert_eq!(
        download_link("0.2.6", "windows-x64"),
        "https://github.com/aspectron/kaspa-ng/releases/download/0.2.6/kaspa-ng-0.2.6-windows-x64.zip"
    );
}

#[test]
fn first_characters() {
    assert_eq!(first_chars("0123456789abcdef", 8), "01234567");
    assert_eq!(first_chars("abc", 8), "abc");
    assert_eq!(first_chars("", 8), "");
}
