use binary_blog::builder::build_shared_state;
use binary_blog::collect::{collect_posts, SourceEntry};
use binary_blog::date::{Date, Moment};
use binary_blog::pages::Site;
use binary_blog::resolver::{
    check_etag_and_return, gen_not_found, healthcheck, view_item, view_nested_item, view_root_item,
};
use binary_blog::response::{Header, RequestHeaders, Response, Status};
use binary_blog::tree::SharedState;

const MARKDOWN: &str = "<meta x-title=\"A binary blog\"/>\n\nThis is my example blog post.\n\nLook it supports **markdown**.\n\n![diagram](diagram.png)\n\nAmazing!\n";

fn example_site(prefix: &str) -> Site {
    let day = Date::new(2023, 7, 9).unwrap();
    Site {
        external_url_prefix: prefix.to_string(),
        name: "binary-blog".to_string(),
        version: "0.1.0".to_string(),
        pid: 4242,
        started: Moment::new(day, 12, 30, 15).unwrap(),
        normalize_css: "html { line-height: 1.15 }".to_string(),
        milligram_css: "body > p { color: #606c76 }".to_string(),
    }
}

fn example_corpus() -> Vec<SourceEntry> {
    vec![
        SourceEntry { path: "normalize.css".to_string(), data: b"html { line-height: 1.15 }".to_vec() },
        SourceEntry {
            path: "posts/20230706-binary-blog/content.md".to_string(),
            data: MARKDOWN.as_bytes().to_vec(),
        },
        SourceEntry {
            path: "posts/20230706-binary-blog/diagram.png".to_string(),
            data: vec![0x89, b'P', b'N', b'G', 1, 2, 3, 4],
        },
        SourceEntry {
            path: "posts/20221130-older/content.md".to_string(),
            data: b"<meta x-title=\"Older & wiser\">\n\nSome *older* text.\n".to_vec(),
        },
    ]
}

fn setup_state(prefix: &str) -> SharedState {
    let site = example_site(prefix);
    let posts = collect_posts(&example_corpus(), site.started.date()).unwrap();
    build_shared_state(posts, &site, vec![0xff, 0xd8, 0xff, 0xe0]).unwrap()
}

fn get(state: &SharedState, uri: &str, headers: &RequestHeaders) -> Response {
    let trimmed = uri.trim_start_matches('/');
    let segments: Vec<&str> = trimmed.split('/').collect();
    match segments.as_slice() {
        [""] => view_root_item(state, headers, uri),
        [a] => view_item(a, state, headers, uri),
        [a, ""] => view_item(a, state, headers, uri),
        [a, b] => view_nested_item(a, b, state, headers, uri),
        _ => gen_not_found(state, headers),
    }
}

fn header_of<'a>(response: &'a Response, name: &str) -> Option<&'a str> {
    response.header(name).map(|v| v.as_str())
}

fn with_accept(value: &str) -> RequestHeaders {
    RequestHeaders { accept: Some(value.to_string()), accept_encoding: None, if_none_match: None }
}

fn with_accept_encoding(value: &str) -> RequestHeaders {
    RequestHeaders { accept: None, accept_encoding: Some(value.to_string()), if_none_match: None }
}

fn with_if_none_match(value: &str) -> RequestHeaders {
    RequestHeaders { accept: None, accept_encoding: None, if_none_match: Some(value.to_string()) }
}

#[test]
fn test_index() {
    let state = setup_state("http://example");
    let resp = get(&state, "/", &RequestHeaders::none());

    assert_eq!(resp.status, Status::Success);
    assert_eq!(resp.status.code(), 200);
    assert_eq!(header_of(&resp, "content-type").unwrap(), "text/html; charset=utf-8");
    assert!(resp.body.len() > 1);
    assert!(header_of(&resp, "etag").is_some());
    assert!(header_of(&resp, "content-encoding").is_none());
    assert_eq!(header_of(&resp, "cache-control").unwrap(), "max-age=300");
}

#[test]
fn test_redirect_slash() {
    let state = setup_state("http://example");
    let resp = get(&state, "/20230706-binary-blog", &RequestHeaders::none());

    assert_eq!(resp.status, Status::TemporaryRedirect);
    assert_eq!(resp.status.code(), 307);
    assert_eq!(header_of(&resp, "location").unwrap(), "/20230706-binary-blog/");
    assert_eq!(resp.body.len(), 0);
    assert_eq!(header_of(&resp, "cache-control").unwrap(), "max-age=300");
}

#[test]
fn test_index_gzipped() {
    let state = setup_state("http://example");
    let resp = get(&state, "/", &with_accept_encoding("deflate,gzip"));

    assert_eq!(resp.status, Status::Success);
    assert_eq!(header_of(&resp, "content-encoding").unwrap(), "deflate");
}

#[test]
fn test_livez() {
    let resp = healthcheck();
    assert_eq!(resp.status, Status::NoContent);
    assert_eq!(resp.status.code(), 204);
    assert_eq!(resp.body.len(), 0);
    assert!(header_of(&resp, "content-type").is_none());
}

#[test]
fn test_readyz() {
    let resp = healthcheck();
    assert_eq!(resp.status, Status::NoContent);
    assert_eq!(resp.body.len(), 0);
    assert!(header_of(&resp, "content-type").is_none());
}

#[test]
fn test_robots() {
    let state = setup_state("http://example");
    let resp = get(&state, "/robots.txt", &RequestHeaders::none());
    assert_eq!(resp.status, Status::Success);
    assert_eq!(resp.body.len(), 77);
    assert_eq!(header_of(&resp, "content-type").unwrap(), "text/plain; charset=utf-8");
    assert!(header_of(&resp, "etag").is_some());
    assert_eq!(header_of(&resp, "cache-control").unwrap(), "max-age=300");
    assert_eq!(
        resp.body,
        b"User-agent: *\nAllow: /\nDisallow: /livez\nDisallow: /readyz\nDisallow: /metricz\n".to_vec()
    );
}

#[test]
fn test_rss() {
    let state = setup_state("http://example");
    let resp = get(&state, "/rss.xml", &RequestHeaders::none());
    assert_eq!(resp.status, Status::Success);
    assert_eq!(header_of(&resp, "content-type").unwrap(), "text/xml");
    assert!(header_of(&resp, "etag").is_some());
    assert_eq!(header_of(&resp, "cache-control").unwrap(), "max-age=300");
}

#[test]
fn test_feed() {
    let state = setup_state("http://example");
    let resp = get(&state, "/feed.xml", &RequestHeaders::none());
    assert_eq!(resp.status, Status::Success);
    assert_eq!(header_of(&resp, "content-type").unwrap(), "text/xml");
    assert!(header_of(&resp, "etag").is_some());
    assert_eq!(header_of(&resp, "cache-control").unwrap(), "max-age=300");
    let rss = get(&state, "/rss.xml", &RequestHeaders::none());
    assert_eq!(resp.body, rss.body);
}

#[test]
fn test_plain_404() {
    let state = setup_state("http://example");
    for uri in ["/a", "/a/", "/a/b", "/a/b/", "/a/b/c"] {
        let resp = get(&state, uri, &RequestHeaders::none());
        assert_eq!(resp.status, Status::NotFound);
        assert_eq!(resp.status.code(), 404);
        assert_eq!(resp.body.len(), 0);
        assert!(header_of(&resp, "content-type").is_none());
        assert!(resp.headers.is_empty());
    }
}

#[test]
fn test_html_404() {
    let state = setup_state("http://example");
    for uri in ["/a", "/a/", "/a/b", "/a/b/", "/a/b/c"] {
        let resp = get(&state, uri, &with_accept("text/html"));
        assert_eq!(resp.status, Status::NotFound);
        assert_eq!(header_of(&resp, "content-type").unwrap(), "text/html; charset=utf-8");
        assert!(resp.body.len() > 1);
        assert!(header_of(&resp, "etag").is_none());
        assert_eq!(header_of(&resp, "cache-control").unwrap(), "max-age=300");
        assert_eq!(resp.body, state.not_found().content().clone());
    }
}

#[test]
fn test_image_assets_are_ok() {
    let blogs: Vec<String> = example_corpus()
        .iter()
        .filter(|e| e.path.contains("content.md"))
        .map(|e| e.path.rsplitn(3, '/').skip(1).take(1).last().unwrap().to_string())
        .collect();
    assert_eq!(blogs, vec!["20230706-binary-blog".to_string(), "20221130-older".to_string()]);

    let link_re = regex::Regex::new("src=\".+?\"").unwrap();
    let state = setup_state("http://example");
    let mut checked = 0;
    for x in blogs {
        let resp = get(&state, &format!("/{}/", x), &RequestHeaders::none());
        assert_eq!(resp.status, Status::Success);
        assert!(header_of(&resp, "etag").is_some());
        assert_eq!(header_of(&resp, "cache-control").unwrap(), "max-age=300");

        let body_str = String::from_utf8_lossy(&resp.body).to_string();
        let links: Vec<&str> = link_re
            .find_iter(&body_str)
            .filter(|m| !m.as_str().contains("://"))
            .map(|m| m.as_str().split('"').skip(1).take(1).last().unwrap())
            .collect();
        for y in links {
            let resp2 = get(&state, &format!("/{}/{}", x, y), &RequestHeaders::none());
            assert_eq!(resp2.status, Status::Success);
            assert!(header_of(&resp2, "etag").is_some());
            assert_eq!(header_of(&resp2, "cache-control").unwrap(), "max-age=300");
            checked += 1;
        }
    }
    assert_eq!(checked, 1);
}

#[test]
fn post_page_is_served_with_trailing_slash() {
    let state = setup_state("http://example");
    let resp = get(&state, "/20230706-binary-blog/", &RequestHeaders::none());
    assert_eq!(resp.status, Status::Success);
    assert_eq!(header_of(&resp, "content-type").unwrap(), "text/html; charset=utf-8");
    let body = String::from_utf8(resp.body).unwrap();
    assert!(!body.is_empty());
    assert!(body.contains("A binary blog"));
    assert!(body.contains("<strong>markdown</strong>"));
}

#[test]
fn resource_responses_carry_the_defensive_headers_in_order() {
    let state = setup_state("http://example");
    let resp = get(&state, "/20230706-binary-blog/diagram.png", &RequestHeaders::none());
    assert_eq!(resp.status, Status::Success);
    let names: Vec<&str> = resp.headers.iter().map(|h| h.name.as_str()).collect();
    assert_eq!(
        names,
        vec![
            "content-type",
            "etag",
            "cache-control",
            "x-frame-options",
            "content-security-policy",
            "referrer-policy",
            "x-content-type-options",
        ]
    );
    assert_eq!(header_of(&resp, "content-type").unwrap(), "image/png");
    assert_eq!(header_of(&resp, "x-frame-options").unwrap(), "DENY");
    assert_eq!(
        header_of(&resp, "content-security-policy").unwrap(),
        "default-src 'none'; style-src 'nonce-123456789'; img-src 'self' data: https:"
    );
    assert_eq!(header_of(&resp, "referrer-policy").unwrap(), "origin-when-cross-origin");
    assert_eq!(header_of(&resp, "x-content-type-options").unwrap(), "nosniff");
    assert_eq!(resp.body, vec![0x89, b'P', b'N', b'G', 1, 2, 3, 4]);
}

#[test]
fn assets_are_not_redirected() {
    let state = setup_state("http://example");
    let resp = get(&state, "/url-image.jpg", &RequestHeaders::none());
    assert_eq!(resp.status, Status::Success);
    assert_eq!(header_of(&resp, "content-type").unwrap(), "image/jpeg");
    assert_eq!(resp.body, vec![0xff, 0xd8, 0xff, 0xe0]);
}

#[test]
fn root_is_not_redirected_whatever_the_path() {
    let state = setup_state("http://example");
    let resp = view_root_item(&state, &RequestHeaders::none(), "");
    assert_eq!(resp.status, Status::Success);
    let nested = view_nested_item("", "ignored", &state, &RequestHeaders::none(), "/x");
    assert_eq!(nested, get(&state, "/", &RequestHeaders::none()));
}

#[test]
fn resolving_twice_gives_identical_bodies_and_etags() {
    let state = setup_state("http://example");
    for uri in ["/", "/20230706-binary-blog/", "/20230706-binary-blog/diagram.png", "/robots.txt", "/nope"] {
        let first = get(&state, uri, &with_accept_encoding("deflate"));
        let second = get(&state, uri, &with_accept_encoding("deflate"));
        assert_eq!(first.body, second.body);
        assert_eq!(header_of(&first, "etag"), header_of(&second, "etag"));
        assert_eq!(first, second);
    }
}

#[test]
fn matching_if_none_match_gives_304_with_empty_body() {
    let state = setup_state("http://example");
    for uri in ["/", "/20230706-binary-blog/", "/20230706-binary-blog/diagram.png", "/feed.xml"] {
        let plain = get(&state, uri, &RequestHeaders::none());
        let etag = header_of(&plain, "etag").unwrap().to_string();
        let resp = get(&state, uri, &with_if_none_match(&etag));
        assert_eq!(resp.status, Status::NotModified);
        assert_eq!(resp.status.code(), 304);
        assert!(resp.body.is_empty());
        assert_eq!(header_of(&resp, "etag").unwrap(), etag);
        assert_eq!(header_of(&resp, "cache-control").unwrap(), "max-age=300");
        assert_eq!(resp.headers, plain.headers);
    }
}

#[test]
fn if_none_match_is_compared_byte_for_byte() {
    let state = setup_state("http://example");
    let plain = get(&state, "/", &RequestHeaders::none());
    let etag = header_of(&plain, "etag").unwrap().to_string();
    for other in [format!("W/{}", etag), format!("\"{}\"", etag), format!("{} ", etag), String::new()] {
        let resp = get(&state, "/", &with_if_none_match(&other));
        assert_eq!(resp.status, Status::Success);
        assert_eq!(resp.body, plain.body);
    }
}

#[test]
fn redirect_comes_before_the_conditional_get() {
    let state = setup_state("http://example");
    let plain = get(&state, "/20230706-binary-blog/", &RequestHeaders::none());
    let etag = header_of(&plain, "etag").unwrap().to_string();
    let resp = get(&state, "/20230706-binary-blog", &with_if_none_match(&etag));
    assert_eq!(resp.status, Status::TemporaryRedirect);
    assert!(header_of(&resp, "etag").is_none());
}

#[test]
fn deflate_body_inflates_to_the_plain_body() {
    let state = setup_state("http://example");
    for uri in ["/", "/20230706-binary-blog/", "/20230706-binary-blog/diagram.png", "/robots.txt", "/rss.xml"] {
        let plain = get(&state, uri, &RequestHeaders::none());
        let packed = get(&state, uri, &with_accept_encoding("gzip, deflate, br"));
        assert_eq!(packed.status, Status::Success);
        assert_eq!(header_of(&packed, "content-encoding").unwrap(), "deflate");
        assert_eq!(packed.body, deflate::deflate_bytes(&plain.body));
        assert_eq!(inflate::inflate_bytes(&packed.body).unwrap(), plain.body);
        assert_eq!(header_of(&packed, "etag"), header_of(&plain, "etag"));
    }
}

#[test]
fn accept_encoding_without_deflate_gives_the_plain_body() {
    let state = setup_state("http://example");
    let plain = get(&state, "/", &RequestHeaders::none());
    for value in ["gzip", "br, gzip", "", "DEFLATE", "defl ate"] {
        let resp = get(&state, "/", &with_accept_encoding(value));
        assert_eq!(resp, plain);
    }
}

#[test]
fn accept_is_tested_by_containment() {
    let state = setup_state("http://example");
    let html = get(&state, "/nope", &with_accept("application/xhtml+xml,text/html;q=0.9,*/*;q=0.8"));
    assert_eq!(html.status, Status::NotFound);
    assert!(!html.body.is_empty());
    for value in ["*/*", "text/plain", "text/htm", ""] {
        let resp = get(&state, "/nope", &with_accept(value));
        assert_eq!(resp.status, Status::NotFound);
        assert!(resp.body.is_empty());
        assert!(resp.headers.is_empty());
    }
}

#[test]
fn unknown_asset_below_a_known_post_is_not_found() {
    let state = setup_state("http://example");
    let resp = get(&state, "/20230706-binary-blog/missing.png", &RequestHeaders::none());
    assert_eq!(resp.status, Status::NotFound);
    let below_leaf = get(&state, "/robots.txt/x", &RequestHeaders::none());
    assert_eq!(below_leaf.status, Status::NotFound);
}

#[test]
fn check_etag_and_return_copies_the_headers() {
    let headers = vec![Header::new("etag", "123"), Header::new("cache-control", "max-age=300")];
    let hit = check_etag_and_return(&"123".to_string(), &with_if_none_match("123"), &headers).unwrap();
    assert_eq!(hit.status, Status::NotModified);
    assert_eq!(hit.headers, headers);
    assert!(hit.body.is_empty());
    assert!(check_etag_and_return(&"123".to_string(), &with_if_none_match("124"), &headers).is_none());
    assert!(check_etag_and_return(&"123".to_string(), &RequestHeaders::none(), &headers).is_none());
}

#[test]
fn response_header_lookup_takes_the_first_of_a_name() {
    let resp = Response {
        status: Status::Success,
        headers: vec![Header::new("a", "1"), Header::new("b", "2"), Header::new("a", "3")],
        body: Vec::new(),
    };
    assert_eq!(header_of(&resp, "a"), Some("1"));
    assert_eq!(header_of(&resp, "b"), Some("2"));
    assert_eq!(header_of(&resp, "c"), None);
}

#[test]
fn status_codes() {
    assert_eq!(Status::Success.code(), 200);
    assert_eq!(Status::NoContent.code(), 204);
    assert_eq!(Status::NotModified.code(), 304);
    assert_eq!(Status::TemporaryRedirect.code(), 307);
    assert_eq!(Status::NotFound.code(), 404);
}
