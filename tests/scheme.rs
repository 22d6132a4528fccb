use nosy::scheme::{detect, InputScheme};

#[test]
fn http() {
    let input = "http://example.com";
    let scheme = detect(input);
    assert_eq!(scheme, InputScheme::Http);
}

#[test]
fn https() {
    let input = "https://example.com";
    let scheme = detect(input);
    assert_eq!(scheme, InputScheme::Http);
}

#[test]
fn file() {
    let input = "file:///path/to/file.txt";
    let scheme = detect(input);
    assert_eq!(scheme, InputScheme::File);
}

#[test]
fn unknown() {
    let input = "fake://example.com";
    let scheme = detect(input);
    assert_eq!(scheme, InputScheme::Unsupported);
}

#[test]
fn no_scheme() {
    let input = "/path/to/file.txt";
    let scheme = detect(input);
    assert_eq!(scheme, InputScheme::File);
}

#[test]
fn scheme_name_ignores_ascii_case() {
    assert_eq!(detect("HTTPS://example.com"), InputScheme::Http);
    assert_eq!(detect("HtTp://example.com"), InputScheme::Http);
    assert_eq!(detect("FILE:///tmp/a.txt"), InputScheme::File);
}

#[test]
fn paths_without_separator_are_files() {
    assert_eq!(detect(""), InputScheme::File);
    assert_eq!(detect("notes.mp3"), InputScheme::File);
    assert_eq!(detect("http:/example.com"), InputScheme::File);
    assert_eq!(detect("C:\\docs\\a.pdf"), InputScheme::File);
}

#[test]
fn split_is_on_first_separator() {
    assert_eq!(detect("ftp://host/http://x"), InputScheme::Unsupported);
    assert_eq!(detect("http://host/ftp://x"), InputScheme::Http);
    assert_eq!(detect("://host"), InputScheme::Unsupported);
    assert_eq!(detect("httpx://host"), InputScheme::Unsupported);
}
