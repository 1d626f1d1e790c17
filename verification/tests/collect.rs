use binary_blog::collect::{
    choose_date, collect_post, collect_posts, date_of_post, title_from, CollectError, SourceEntry,
    CONTENT_FILE_NAME,
};
use binary_blog::date::Date;

fn build_day(year: i32) -> Date {
    Date::new(year, 7, 9).unwrap()
}

fn entry(path: &str, data: &[u8]) -> SourceEntry {
    SourceEntry { path: path.to_string(), data: data.to_vec() }
}

fn ymd(date: &Date) -> (i32, u8, u8) {
    (date.year(), date.month(), date.day())
}

#[test]
fn document_file_name() {
    assert_eq!(CONTENT_FILE_NAME, "content.md");
}

#[test]
fn title_comes_from_the_marker_or_is_unknown() {
    assert_eq!(title_from(Some("A binary blog".to_string())), "A binary blog");
    assert_eq!(title_from(None), "unknown");
}

#[test]
fn date_comes_from_path_then_marker_then_build() {
    let a = Date::new(2001, 1, 1).unwrap();
    let b = Date::new(2002, 2, 2).unwrap();
    let c = Date::new(2003, 3, 3).unwrap();
    assert_eq!(ymd(&choose_date(Some(a), Some(b), c)), (2001, 1, 1));
    assert_eq!(ymd(&choose_date(Some(a), None, c)), (2001, 1, 1));
    assert_eq!(ymd(&choose_date(None, Some(b), c)), (2002, 2, 2));
    assert_eq!(ymd(&choose_date(None, None, c)), (2003, 3, 3));
}

#[test]
fn date_of_post_reads_prefix_and_marker() {
    let build = Date::new(2024, 12, 24).unwrap();
    let marked = "<meta x-date=\"2021-05-04\"/>\ntext";
    assert_eq!(ymd(&date_of_post("20230706-binary-blog", "text", build)), (2023, 7, 6));
    assert_eq!(ymd(&date_of_post("20230706-binary-blog", marked, build)), (2023, 7, 6));
    assert_eq!(ymd(&date_of_post("20230706", marked, build)), (2023, 7, 6));
    assert_eq!(ymd(&date_of_post("binary-blog", marked, build)), (2021, 5, 4));
    assert_eq!(ymd(&date_of_post("20231306-bad-month", marked, build)), (2021, 5, 4));
    assert_eq!(ymd(&date_of_post("2023076-short", marked, build)), (2021, 5, 4));
    assert_eq!(ymd(&date_of_post("binary-blog", "text", build)), (2024, 12, 24));
    assert_eq!(ymd(&date_of_post("binary-blog", "<meta x-date=\"soon\">", build)), (2024, 12, 24));
    assert_eq!(ymd(&date_of_post("", "", build)), (2024, 12, 24));
    assert_eq!(ymd(&date_of_post("-20230706", "", build)), (2024, 12, 24));
}

#[test]
fn posts_are_collected_in_the_order_of_the_files() {
    let corpus = vec![
        entry("posts/20230706-binary-blog/content.md", b"<meta x-title=\"A binary blog\"/>\nHello **there**.\n"),
        entry("milligram.css", b"body {}"),
        entry("posts/20230706-binary-blog/img/a.png", b"png"),
        entry("posts/20221130-older/content.md", b"no markers here"),
        entry("posts/20230706-binary-blog/notes.txt", b"notes"),
        entry("posts/20230706-binary-blog-two/content.md", b"<meta x-title=\"Two\">\n<meta x-description=\"Second\">\n"),
    ];
    let posts = collect_posts(&corpus, build_day(2024)).unwrap();
    assert_eq!(posts.len(), 3);

    assert_eq!(posts[0].path, "20230706-binary-blog");
    assert_eq!(posts[0].title, "A binary blog");
    assert_eq!(posts[0].description, None);
    assert_eq!(ymd(&posts[0].date), (2023, 7, 6));
    let names: Vec<(&str, &[u8])> = posts[0].assets.iter().map(|a| (a.name.as_str(), a.data.as_slice())).collect();
    assert_eq!(names, vec![("img/a.png", &b"png"[..]), ("notes.txt", &b"notes"[..])]);

    assert_eq!(posts[1].path, "20221130-older");
    assert_eq!(posts[1].title, "unknown");
    assert_eq!(ymd(&posts[1].date), (2022, 11, 30));
    assert!(posts[1].assets.is_empty());

    assert_eq!(posts[2].path, "20230706-binary-blog-two");
    assert_eq!(posts[2].title, "Two");
    assert_eq!(posts[2].description, Some("Second".to_string()));
    assert!(posts[2].assets.is_empty());
}

#[test]
fn collected_body_is_the_rendered_markdown() {
    let raw = "<meta x-title=\"A binary blog\"/>\n\nLook it supports **markdown** and ~~more~~.\n";
    let corpus = vec![entry("20230706-binary-blog/content.md", raw.as_bytes())];
    let posts = collect_posts(&corpus, build_day(2024)).unwrap();
    assert_eq!(
        posts[0].rendered_body,
        "<meta x-title=\"A binary blog\"/>\n<p>Look it supports <strong>markdown</strong> and <del>more</del>.</p>\n"
    );
}

#[test]
fn markdown_tables_and_footnotes_are_rendered() {
    let raw = "| a | b |\n|---|---|\n| 1 | 2 |\n\nText[^1].\n\n[^1]: Note.\n";
    let corpus = vec![entry("p/content.md", raw.as_bytes())];
    let posts = collect_posts(&corpus, build_day(2024)).unwrap();
    assert!(posts[0].rendered_body.contains("<table>"));
    assert!(posts[0].rendered_body.contains("footnote-definition"));
}

#[test]
fn date_falls_back_to_the_build_day() {
    let corpus = vec![entry("notes/content.md", b"plain")];
    let posts = collect_posts(&corpus, build_day(2024)).unwrap();
    assert_eq!(posts[0].path, "notes");
    assert_eq!(ymd(&posts[0].date), (2024, 7, 9));
    let marked = vec![entry("notes/content.md", b"<meta x-date=\"2020-02-29\">")];
    let posts = collect_posts(&marked, build_day(2024)).unwrap();
    assert_eq!(ymd(&posts[0].date), (2020, 2, 29));
}

#[test]
fn every_path_that_ends_in_the_document_name_is_a_document() {
    let corpus = vec![
        entry("a/content.md", b"one"),
        entry("b/mycontent.md", b"two"),
        entry("c/content.md.bak", b"three"),
        entry("c/content.markdown", b"four"),
    ];
    let posts = collect_posts(&corpus, build_day(2024)).unwrap();
    let paths: Vec<&str> = posts.iter().map(|p| p.path.as_str()).collect();
    assert_eq!(paths, vec!["a", "b"]);
}

#[test]
fn assets_share_the_directory_prefix_and_leave_out_the_document() {
    let corpus = vec![
        entry("x/a/content.md", b"doc"),
        entry("x/a/one.png", b"1"),
        entry("x/ab/two.png", b"2"),
        entry("y/x/a/three.png", b"3"),
        entry("x/a/deep/content.md", b"nested"),
        entry("x/a", b"4"),
    ];
    let posts = collect_posts(&corpus, build_day(2024)).unwrap();
    assert_eq!(posts.len(), 2);
    assert_eq!(posts[0].path, "a");
    let names: Vec<&str> = posts[0].assets.iter().map(|a| a.name.as_str()).collect();
    assert_eq!(names, vec!["one.png", "deep/content.md"]);
    assert_eq!(posts[1].path, "deep");
    assert!(posts[1].assets.is_empty());
}

#[test]
fn no_documents_gives_no_posts() {
    assert!(collect_posts(&Vec::new(), build_day(2024)).unwrap().is_empty());
    assert!(collect_posts(&vec![entry("a/b.css", b"x")], build_day(2024)).unwrap().is_empty());
}

#[test]
fn document_without_directory_is_an_error() {
    let corpus = vec![entry("a/content.md", b"fine"), entry("content.md", b"top")];
    assert_eq!(collect_posts(&corpus, build_day(2024)).unwrap_err(), CollectError::NoDirectory(1));
}

#[test]
fn document_that_is_not_utf8_is_an_error() {
    let corpus = vec![entry("style.css", &[0xff]), entry("a/content.md", &[b'a', 0xff, b'b'])];
    assert_eq!(collect_posts(&corpus, build_day(2024)).unwrap_err(), CollectError::NotText(1));
}

#[test]
fn first_error_wins() {
    let corpus = vec![
        entry("a/content.md", &[0xc3]),
        entry("content.md", b"top"),
        entry("b/content.md", b"fine"),
    ];
    assert_eq!(collect_posts(&corpus, build_day(2024)).unwrap_err(), CollectError::NotText(0));
}

#[test]
fn collect_post_takes_one_document() {
    let corpus = vec![entry("x.css", b""), entry("a/content.md", b"no date anywhere")];
    let post = collect_post(&corpus, 1, build_day(1_000_000)).unwrap();
    assert_eq!(post.path, "a");
    assert_eq!(ymd(&post.date), (1_000_000, 7, 9));
    assert_eq!(post.rendered_body, "<p>no date anywhere</p>\n");
    let dated = vec![entry("20230706-a/content.md", b"dated by its path")];
    let post = collect_post(&dated, 0, build_day(2024)).unwrap();
    assert_eq!(ymd(&post.date), (2023, 7, 6));
    assert_eq!(collect_post(&vec![entry("content.md", b"")], 0, build_day(2024)).unwrap_err(), CollectError::NoDirectory(0));
    assert_eq!(collect_post(&vec![entry("a/content.md", &[0x80])], 0, build_day(2024)).unwrap_err(), CollectError::NotText(0));
}
