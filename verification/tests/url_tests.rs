use ytmusicd::video::VideoRequest;

fn id_of(url: &str) -> Option<String> {
    match VideoRequest::from_yt_url(url) {
        Ok(req) => Some(req.youtube_id),
        Err(_) => None,
    }
}

#[test]
fn watch_url_extracts_id() {
    assert_eq!(id_of("https://www.youtube.com/watch?v=abc123").unwrap(), "abc123");
}

#[test]
fn watch_url_with_extra_params() {
    assert_eq!(
        id_of("https://www.youtube.com/watch?v=dQw4w9WgXcQ&foo=bar&t=42").unwrap(),
        "dQw4w9WgXcQ"
    );
}

#[test]
fn watch_url_v_not_first_param() {
    assert_eq!(
        id_of("https://www.youtube.com/watch?list=PL123&v=abc123").unwrap(),
        "abc123"
    );
}

#[test]
fn v_path_url() {
    assert_eq!(id_of("https://youtube.com/v/abc123?foo=bar").unwrap(), "abc123");
}

#[test]
fn embed_path_url() {
    assert_eq!(id_of("https://www.youtube.com/embed/abc123").unwrap(), "abc123");
}

#[test]
fn e_path_url() {
    assert_eq!(id_of("https://www.youtube.com/e/abc123").unwrap(), "abc123");
}

#[test]
fn shorts_path_url() {
    assert_eq!(id_of("https://www.youtube.com/shorts/xYz-_09").unwrap(), "xYz-_09");
}

#[test]
fn watch_as_two_segment_url() {
    assert_eq!(id_of("https://www.youtube.com/watch/abc123").unwrap(), "abc123");
}

#[test]
fn short_link() {
    assert_eq!(id_of("https://youtu.be/abc123").unwrap(), "abc123");
}

#[test]
fn short_link_with_query() {
    assert_eq!(id_of("https://youtu.be/abc123?t=10").unwrap(), "abc123");
}

#[test]
fn nocookie_host() {
    assert_eq!(
        id_of("https://www.youtube-nocookie.com/embed/abc123").unwrap(),
        "abc123"
    );
}

#[test]
fn plain_http_scheme() {
    assert_eq!(id_of("http://youtu.be/abc123").unwrap(), "abc123");
}

#[test]
fn host_with_port() {
    assert_eq!(id_of("https://www.youtube.com:443/watch?v=abc123").unwrap(), "abc123");
}

#[test]
fn foreign_host_rejected() {
    assert!(id_of("https://vimeo.com/12345").is_none());
    assert!(id_of("https://example.com/watch?v=abc123").is_none());
}

#[test]
fn unknown_path_shape_rejected() {
    assert!(id_of("https://www.youtube.com/playlist?list=PL123").is_none());
    assert!(id_of("https://www.youtube.com/a/b/c").is_none());
    assert!(id_of("https://youtu.be/a/b").is_none());
}

#[test]
fn watch_without_v_param_rejected() {
    assert!(id_of("https://www.youtube.com/watch?list=PL123").is_none());
}

#[test]
fn missing_scheme_rejected() {
    assert!(id_of("www.youtube.com/watch?v=abc123").is_none());
    assert!(id_of("ftp://www.youtube.com/watch?v=abc123").is_none());
}

#[test]
fn scheme_and_host_ignore_ascii_case() {
    assert_eq!(id_of("HTTPS://WWW.YOUTUBE.COM/watch?v=abc123").unwrap(), "abc123");
    assert_eq!(id_of("Http://YouTu.Be/abc123").unwrap(), "abc123");
}

#[test]
fn path_and_query_keep_their_case() {
    // path words and the query key are not normalized
    assert!(id_of("https://www.youtube.com/WATCH?v=abc123").is_none());
    assert!(id_of("https://www.youtube.com/watch?V=abc123").is_none());
}
