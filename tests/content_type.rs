use venus_auth::get_content_type;

#[test]
fn content_types_by_extension() {
    assert_eq!(get_content_type("index.html"), "text/html; charset=utf-8");
    assert_eq!(get_content_type("assets/app.css"), "text/css; charset=utf-8");
    assert_eq!(get_content_type("assets/app.js"), "application/javascript; charset=utf-8");
    assert_eq!(get_content_type("logo.svg"), "image/svg+xml");
    assert_eq!(get_content_type("f.woff2"), "font/woff2");
    assert_eq!(get_content_type("f.woff"), "font/woff");
    assert_eq!(get_content_type("a.png"), "image/png");
    assert_eq!(get_content_type("a.jpg"), "image/jpeg");
    assert_eq!(get_content_type("a.jpeg"), "image/jpeg");
    assert_eq!(get_content_type("archive.tar"), "application/octet-stream");
    assert_eq!(get_content_type(""), "application/octet-stream");
    assert_eq!(get_content_type("html"), "application/octet-stream");
}
