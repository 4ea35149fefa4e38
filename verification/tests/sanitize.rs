use mk_dl_bot::bot::sanitize::{extract_url, parse_url};

#[test]
fn test_extract_url() {
    assert_eq!(extract_url("test http://www.test.com/id/1"), Some("http://www.test.com/id/1"));
    assert_eq!(extract_url("https://www.test.com 3"), Some("https://www.test.com"));
    assert_eq!(extract_url("there is no any url"), None);
}

#[test]
fn test_parse_url() {
    let url = parse_url("https://www.youtube.com/watch?v=00000000000").unwrap();
    assert_eq!(url.host_str().unwrap(), "www.youtube.com");

    let url = parse_url("https://youtu.be/00000000000").unwrap();
    assert_eq!(url.host_str().unwrap(), "youtu.be");
}

#[test]
fn extract_url_finds_link_inside_text() {
    assert_eq!(
        extract_url("look at https://youtu.be/abc?t=10 please"),
        Some("https://youtu.be/abc?t=10")
    );
    assert_eq!(extract_url("ftp://files.example.org/a.txt"), Some("ftp://files.example.org/a.txt"));
    assert_eq!(extract_url("http://localhost/x"), None);
}

#[test]
fn parse_url_serialization_and_host() {
    let url = parse_url("HTTPS://Example.COM/a").unwrap();
    assert_eq!(url.as_str(), "https://example.com/a");
    assert_eq!(url.host_str(), Some("example.com"));
    let url = parse_url("data:text/plain,Stuff").unwrap();
    assert_eq!(url.host_str(), None);
    assert!(parse_url("not a url").is_none());
}
