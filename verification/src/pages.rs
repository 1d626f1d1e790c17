//! The page compiler: the final documents for the index, a post, the feed and the not-found
//! page, assembled from fixed markup and escaped values.

use crate::date::{
    formatted, formatted_date, Date, DateView, Moment, POST_DATE_FORMAT, RFC2822_DATE_FORMAT,
    RFC3339_DATE_FORMAT,
};
use crate::outside::{escape_html, escaped};
use crate::post::{post_views, Post, PostView};
use crate::text::{decimal, decimal_text, option_text, signed_decimal, signed_decimal_text};
use vstd::prelude::*;
use vstd::utf8::encode_utf8;

verus! {

/// The site icon, as a data URL.
pub const ENCODED_FAVICON: &'static str =
    "data:image/svg+xml,%3Csvg version='1.0' xmlns='http://www.w3.org/2000/svg' xmlns:xlink='http://www.w3.org/1999/xlink' viewBox='0 0 64 64' enable-background='new 0 0 64 64' xml:space='preserve'%3E%3Cg%3E%3Cg%3E%3Cpolygon fill='%23F9EBB2' points='46,3.414 46,14 56.586,14 '/%3E%3Cpath fill='%23F9EBB2' d='M45,16c-0.553,0-1-0.447-1-1V2H8C6.896,2,6,2.896,6,4v56c0,1.104,0.896,2,2,2h48c1.104,0,2-0.896,2-2V16 H45z'/%3E%3C/g%3E%3Cpath fill='%23394240' d='M14,26c0,0.553,0.447,1,1,1h34c0.553,0,1-0.447,1-1s-0.447-1-1-1H15C14.447,25,14,25.447,14,26z'/%3E%3Cpath fill='%23394240' d='M49,37H15c-0.553,0-1,0.447-1,1s0.447,1,1,1h34c0.553,0,1-0.447,1-1S49.553,37,49,37z'/%3E%3Cpath fill='%23394240' d='M49,43H15c-0.553,0-1,0.447-1,1s0.447,1,1,1h34c0.553,0,1-0.447,1-1S49.553,43,49,43z'/%3E%3Cpath fill='%23394240' d='M49,49H15c-0.553,0-1,0.447-1,1s0.447,1,1,1h34c0.553,0,1-0.447,1-1S49.553,49,49,49z'/%3E%3Cpath fill='%23394240' d='M49,31H15c-0.553,0-1,0.447-1,1s0.447,1,1,1h34c0.553,0,1-0.447,1-1S49.553,31,49,31z'/%3E%3Cpath fill='%23394240' d='M15,20h16c0.553,0,1-0.447,1-1s-0.447-1-1-1H15c-0.553,0-1,0.447-1,1S14.447,20,15,20z'/%3E%3Cpath fill='%23394240' d='M59.706,14.292L45.708,0.294C45.527,0.112,45.277,0,45,0H8C5.789,0,4,1.789,4,4v56c0,2.211,1.789,4,4,4h48 c2.211,0,4-1.789,4-4V15C60,14.723,59.888,14.473,59.706,14.292z M46,3.414L56.586,14H46V3.414z M58,60c0,1.104-0.896,2-2,2H8 c-1.104,0-2-0.896-2-2V4c0-1.104,0.896-2,2-2h36v13c0,0.553,0.447,1,1,1h13V60z'/%3E%3Cpolygon opacity='0.15' fill='%23231F20' points='46,3.414 56.586,14 46,14 '/%3E%3C/g%3E%3C/svg%3E";

/// What goes into every page besides the posts: where the site lives, what was built, and the
/// style sheets.
#[derive(Clone, Debug)]
pub struct Site {
    pub external_url_prefix: String,
    pub name: String,
    pub version: String,
    pub pid: u32,
    pub started: Moment,
    pub normalize_css: String,
    pub milligram_css: String,
}

/// What the site settings are, as mathematics.
pub struct SiteView {
    pub external_url_prefix: Seq<char>,
    pub name: Seq<char>,
    pub version: Seq<char>,
    pub pid: nat,
    pub started: crate::date::MomentView,
    pub normalize_css: Seq<char>,
    pub milligram_css: Seq<char>,
}

impl View for Site {
    type V = SiteView;

    open spec fn view(&self) -> SiteView {
        SiteView {
            external_url_prefix: self.external_url_prefix@,
            name: self.name@,
            version: self.version@,
            pid: self.pid as nat,
            started: self.started@,
            normalize_css: self.normalize_css@,
            milligram_css: self.milligram_css@,
        }
    }
}

/// The markup that every page carries in its `head`: icon, links, metadata and the style block
/// with both style sheets.
#[verifier::opaque]
pub open spec fn head_markup(normalize_css: Seq<char>, milligram_css: Seq<char>) -> Seq<char> {
    "<link rel=\"shortcut icon\" href=\""@ + escaped(ENCODED_FAVICON@)
        + "\" type=\"image/svg+xml\"><link rel=\"me\" href=\"https://hachyderm.io/@benmeier_\"><link rel=\"alternate\" href=\"/feed.xml\" type=\"application/rss+xml\" title=\"RSS feed\"><meta charset=\"utf-8\"><meta name=\"author\" content=\"Ben Meier\"><meta name=\"keywords\" content=\"golang, rust, distributed systems, programming, security\"><meta name=\"viewport\" content=\"width=device-width, initial-scale=1.0\"><style nonce=\"123456789\">"@
        + escaped(normalize_css) + escaped(milligram_css)
        + "pre code { display: block; white-space: pre-wrap; } ul { list-style: circle outside; } ul li { margin-left: 1em; } .index-nav-ul { margin: 0; list-style: circle outside; } body { background-color: #fdfae9; }.footnote-definition { margin-bottom: 2em; }.footnote-definition p { display: inline; }header.row { justify-content: space-between; }header.row section.column { max-width: fit-content; }</style>"@
}

/// The markup that every page carries in its `head`.
pub fn pre_render_head(normalize_css: &str, milligram_css: &str) -> (head: String)
    ensures
        head@ == head_markup(normalize_css@, milligram_css@),
{
    reveal(head_markup);
    let mut out = "<link rel=\"shortcut icon\" href=\"".to_owned();
    out.append(escape_html(ENCODED_FAVICON).as_str());
    out.append(
        "\" type=\"image/svg+xml\"><link rel=\"me\" href=\"https://hachyderm.io/@benmeier_\"><link rel=\"alternate\" href=\"/feed.xml\" type=\"application/rss+xml\" title=\"RSS feed\"><meta charset=\"utf-8\"><meta name=\"author\" content=\"Ben Meier\"><meta name=\"keywords\" content=\"golang, rust, distributed systems, programming, security\"><meta name=\"viewport\" content=\"width=device-width, initial-scale=1.0\"><style nonce=\"123456789\">",
    );
    out.append(escape_html(normalize_css).as_str());
    out.append(escape_html(milligram_css).as_str());
    out.append(
        "pre code { display: block; white-space: pre-wrap; } ul { list-style: circle outside; } ul li { margin-left: 1em; } .index-nav-ul { margin: 0; list-style: circle outside; } body { background-color: #fdfae9; }.footnote-definition { margin-bottom: 2em; }.footnote-definition p { display: inline; }header.row { justify-content: space-between; }header.row section.column { max-width: fit-content; }</style>",
    );
    out
}

/// The footer of every page, given the start time as text: the year, the note on how the site is
/// built, and what was built and when.
#[verifier::opaque]
pub open spec fn footer_markup(
    year: int,
    name: Seq<char>,
    version: Seq<char>,
    pid: nat,
    start_time: Seq<char>,
) -> Seq<char> {
    "<footer class=\"row\"><section class=\"column\"><hr></hr><p>© Ben Meier "@ + signed_decimal(
        year,
    )
        + "<br><small>This blog is a single Rust binary with all assets embedded and pre-rendered. If you're interested in how it's built, have a look at the code on <a href=\"https://github.com/astromechza/binary-blog\">Github</a>.</small><br><small>name="@
        + escaped(name) + " version="@ + escaped(version) + " pid="@ + decimal(pid)
        + " start-time="@ + escaped(start_time) + "</small></p></section></footer>"@
}

/// The footer of every page; `None` where the start time cannot be written.
pub open spec fn footer_of(site: SiteView) -> Option<Seq<char>> {
    match formatted(RFC3339_DATE_FORMAT@, site.started) {
        Some(start_time) => Some(
            footer_markup(site.started.date.year, site.name, site.version, site.pid, start_time),
        ),
        None => None,
    }
}

/// The footer of every page, given the start time as text.
pub fn footer(year: i32, name: &str, version: &str, pid: u32, start_time: &str) -> (out: String)
    ensures
        out@ == footer_markup(year as int, name@, version@, pid as nat, start_time@),
{
    reveal(footer_markup);
    let mut out = "<footer class=\"row\"><section class=\"column\"><hr></hr><p>© Ben Meier ".to_owned();
    out.append(signed_decimal_text(year).as_str());
    out.append(
        "<br><small>This blog is a single Rust binary with all assets embedded and pre-rendered. If you're interested in how it's built, have a look at the code on <a href=\"https://github.com/astromechza/binary-blog\">Github</a>.</small><br><small>name=",
    );
    out.append(escape_html(name).as_str());
    out.append(" version=");
    out.append(escape_html(version).as_str());
    out.append(" pid=");
    out.append(decimal_text(pid as u64).as_str());
    out.append(" start-time=");
    out.append(escape_html(start_time).as_str());
    out.append("</small></p></section></footer>");
    out
}

/// The footer of every page; `None` where the start time cannot be written.
pub fn pre_render_footer(site: &Site) -> (out: Option<String>)
    ensures
        option_text(out) == footer_of(site@),
{
    match site.started.format(RFC3339_DATE_FORMAT) {
        Some(start_time) => Some(
            footer(
                site.started.date().year(),
                site.name.as_str(),
                site.version.as_str(),
                site.pid,
                start_time.as_str(),
            ),
        ),
        None => None,
    }
}

/// The page of one post: its metadata in the `head`, then title, date and the rendered body
/// between the shared head and footer.
#[verifier::opaque]
pub open spec fn post_markup(
    title: Seq<char>,
    description: Seq<char>,
    long_date: Seq<char>,
    stamp: Seq<char>,
    content: Seq<char>,
    external_url_prefix: Seq<char>,
    path: Seq<char>,
    head: Seq<char>,
    footer: Seq<char>,
) -> Seq<char> {
    "<!DOCTYPE html><html lang=\"en\"><head><title>"@
        + escaped(title)
        + "</title><meta name=\"description\" content=\""@
        + escaped(description)
        + "\"><meta property=\"og:type\" content=\"article\"><meta property=\"og:title\" content=\""@
        + escaped(title)
        + "\"><meta property=\"og:description\" content=\""@
        + escaped(long_date)
        + " - "@
        + escaped(title)
        + "\"><meta property=\"og:url\" content=\""@
        + escaped(external_url_prefix)
        + "/"@
        + escaped(path)
        + "/\"><meta property=\"og:image\" content=\""@
        + escaped(external_url_prefix)
        + "/url-image.jpg\"><meta property=\"article:author\" content=\"Ben Meier\"><meta property=\"article:published_time\" content=\""@
        + escaped(stamp)
        + "\">"@
        + head
        + "</head><body><div class=\"container\"><header class=\"row\"><section class=\"column\"><h1>"@
        + escaped(title)
        + "</h1></section><section class=\"column\"><a href=\"/\">All Posts</a></section></header><main class=\"row\"><section class=\"column\"><small>Ben Meier - <time datetime=\""@
        + escaped(stamp)
        + "\">"@
        + escaped(long_date)
        + "</time></small><hr></hr><article>"@
        + content
        + "</article></section></main>"@
        + footer
        + "</div></body></html>"@
}

/// The page of one post, given its date in both written forms.
pub fn render_post(
    title: &str,
    description: &str,
    long_date: &str,
    stamp: &str,
    content: &str,
    external_url_prefix: &str,
    path: &str,
    head: &str,
    footer: &str,
) -> (out: String)
    ensures
        out@ == post_markup(
            title@,
            description@,
            long_date@,
            stamp@,
            content@,
            external_url_prefix@,
            path@,
            head@,
            footer@,
        ),
{
    reveal(post_markup);
    let mut out = "<!DOCTYPE html><html lang=\"en\"><head><title>".to_owned();
    out.append(escape_html(title).as_str());
    out.append("</title><meta name=\"description\" content=\"");
    out.append(escape_html(description).as_str());
    out.append("\"><meta property=\"og:type\" content=\"article\"><meta property=\"og:title\" content=\"");
    out.append(escape_html(title).as_str());
    out.append("\"><meta property=\"og:description\" content=\"");
    out.append(escape_html(long_date).as_str());
    out.append(" - ");
    out.append(escape_html(title).as_str());
    out.append("\"><meta property=\"og:url\" content=\"");
    out.append(escape_html(external_url_prefix).as_str());
    out.append("/");
    out.append(escape_html(path).as_str());
    out.append("/\"><meta property=\"og:image\" content=\"");
    out.append(escape_html(external_url_prefix).as_str());
    out.append("/url-image.jpg\"><meta property=\"article:author\" content=\"Ben Meier\"><meta property=\"article:published_time\" content=\"");
    out.append(escape_html(stamp).as_str());
    out.append("\">");
    out.append(head);
    out.append("</head><body><div class=\"container\"><header class=\"row\"><section class=\"column\"><h1>");
    out.append(escape_html(title).as_str());
    out.append("</h1></section><section class=\"column\"><a href=\"/\">All Posts</a></section></header><main class=\"row\"><section class=\"column\"><small>Ben Meier - <time datetime=\"");
    out.append(escape_html(stamp).as_str());
    out.append("\">");
    out.append(escape_html(long_date).as_str());
    out.append("</time></small><hr></hr><article>");
    out.append(content);
    out.append("</article></section></main>");
    out.append(footer);
    out.append("</div></body></html>");
    out
}

/// The page shown for a path that leads nowhere.
#[verifier::opaque]
pub open spec fn not_found_markup(head: Seq<char>, footer: Seq<char>) -> Seq<char> {
    "<!DOCTYPE html><html lang=\"en\"><head><title>404 - Not Found</title>"@
        + head
        + "</head><body><div class=\"container\"><header class=\"row\"><section class=\"column\"><h1>Not found</h1></section><section class=\"column\"><a href=\"/\">All Posts</a></section></header><main class=\"row\"><section class=\"column\"><p>Looks like the incoming link is wrong, corrupted, or the post has been removed. Sorry about that.</p></section></main>"@
        + footer
        + "</div></body></html>"@
}

/// The page shown for a path that leads nowhere.
pub fn render_not_found(head: &str, footer: &str) -> (out: String)
    ensures
        out@ == not_found_markup(head@, footer@),
{
    reveal(not_found_markup);
    let mut out = "<!DOCTYPE html><html lang=\"en\"><head><title>404 - Not Found</title>".to_owned();
    out.append(head);
    out.append("</head><body><div class=\"container\"><header class=\"row\"><section class=\"column\"><h1>Not found</h1></section><section class=\"column\"><a href=\"/\">All Posts</a></section></header><main class=\"row\"><section class=\"column\"><p>Looks like the incoming link is wrong, corrupted, or the post has been removed. Sorry about that.</p></section></main>");
    out.append(footer);
    out.append("</div></body></html>");
    out
}

/// One line of the index: a link to the post, with its date and title.
#[verifier::opaque]
pub open spec fn index_entry_markup(
    path: Seq<char>,
    title: Seq<char>,
    long_date: Seq<char>,
    stamp: Seq<char>,
) -> Seq<char> {
    "<li><p><a href=\""@
        + escaped(path)
        + "/\"><time datetime=\""@
        + escaped(stamp)
        + "\">"@
        + escaped(long_date)
        + "</time>"@
        + escaped(": "@)
        + escaped(title)
        + "</a></p></li>"@
}

/// One line of the index, given the date in both written forms.
pub fn render_index_entry(path: &str, title: &str, long_date: &str, stamp: &str) -> (out: String)
    ensures
        out@ == index_entry_markup(path@, title@, long_date@, stamp@),
{
    reveal(index_entry_markup);
    let mut out = "<li><p><a href=\"".to_owned();
    out.append(escape_html(path).as_str());
    out.append("/\"><time datetime=\"");
    out.append(escape_html(stamp).as_str());
    out.append("\">");
    out.append(escape_html(long_date).as_str());
    out.append("</time>");
    out.append(escape_html(": ").as_str());
    out.append(escape_html(title).as_str());
    out.append("</a></p></li>");
    out
}

/// The index page around the list of posts: site metadata, the author line, the introduction,
/// and the navigation list that `listing` fills.
#[verifier::opaque]
pub open spec fn index_markup(
    listing: Seq<char>,
    external_url_prefix: Seq<char>,
    head: Seq<char>,
    footer: Seq<char>,
) -> Seq<char> {
    "<!DOCTYPE html><html lang=\"en\"><head><title>Ben's Blog</title><meta name=\"description\" content=\"Technical blog of Ben Meier\"><meta property=\"og:type\" content=\"website\"><meta property=\"og:title\" content=\"Ben's Blog\"><meta property=\"og:description\" content=\"Technical blog of Ben Meier\"><meta property=\"og:url\" content=\""@
        + escaped(external_url_prefix)
        + "/\"><meta property=\"og:image\" content=\""@
        + escaped(external_url_prefix)
        + "/url-image.jpg\">"@
        + head
        + "</head><body><div class=\"container\"><header class=\"row\"><section class=\"column\"><h1>Ben Meier</h1></section><section class=\"column\">Mastodon: <a href=\"https://hachyderm.io/@benmeier_\">@benmeier_@hachyderm.io</a> | Github: <a href=\"https://github.com/astromechza\">astromechza</a> | rss: <a href=\"/feed.xml\" target=\"_blank\">feed.xml</a> | <a href=\"/\">All Posts</a></section></header><main class=\"row\"><section class=\"column\"><small><p>I'm a software engineer working mostly on distributed systems with an interest in security, networking, correctness, and chaos. All opinions expressed here are my own. This blog contains a wide range of content accrued over time and from multiple previous attempts at technical blogging over the course of my career. I intentionally don't go back and improve or rewrite old posts, so please take old content with a pinch of salt, and I apologise for any broken links!</p></small><hr></hr><nav><ul class=\"index-nav-ul\">"@
        + listing
        + "</ul></nav></section></main>"@
        + footer
        + "</div></body></html>"@
}

/// The index page around an already rendered list of posts.
pub fn render_index(
    listing: &str,
    external_url_prefix: &str,
    head: &str,
    footer: &str,
) -> (out: String)
    ensures
        out@ == index_markup(listing@, external_url_prefix@, head@, footer@),
{
    reveal(index_markup);
    let mut out = "<!DOCTYPE html><html lang=\"en\"><head><title>Ben's Blog</title><meta name=\"description\" content=\"Technical blog of Ben Meier\"><meta property=\"og:type\" content=\"website\"><meta property=\"og:title\" content=\"Ben's Blog\"><meta property=\"og:description\" content=\"Technical blog of Ben Meier\"><meta property=\"og:url\" content=\"".to_owned();
    out.append(escape_html(external_url_prefix).as_str());
    out.append("/\"><meta property=\"og:image\" content=\"");
    out.append(escape_html(external_url_prefix).as_str());
    out.append("/url-image.jpg\">");
    out.append(head);
    out.append("</head><body><div class=\"container\"><header class=\"row\"><section class=\"column\"><h1>Ben Meier</h1></section><section class=\"column\">Mastodon: <a href=\"https://hachyderm.io/@benmeier_\">@benmeier_@hachyderm.io</a> | Github: <a href=\"https://github.com/astromechza\">astromechza</a> | rss: <a href=\"/feed.xml\" target=\"_blank\">feed.xml</a> | <a href=\"/\">All Posts</a></section></header><main class=\"row\"><section class=\"column\"><small><p>I'm a software engineer working mostly on distributed systems with an interest in security, networking, correctness, and chaos. All opinions expressed here are my own. This blog contains a wide range of content accrued over time and from multiple previous attempts at technical blogging over the course of my career. I intentionally don't go back and improve or rewrite old posts, so please take old content with a pinch of salt, and I apologise for any broken links!</p></small><hr></hr><nav><ul class=\"index-nav-ul\">");
    out.append(listing);
    out.append("</ul></nav></section></main>");
    out.append(footer);
    out.append("</div></body></html>");
    out
}

/// One item of the feed: title, link, identifier, publication date and category.
#[verifier::opaque]
pub open spec fn rss_item_markup(
    title: Seq<char>,
    external_url_prefix: Seq<char>,
    path: Seq<char>,
    pub_date: Seq<char>,
) -> Seq<char> {
    "<item><title>"@
        + escaped(title)
        + "</title><link>"@
        + escaped(external_url_prefix)
        + "/"@
        + escaped(path)
        + "/</link><guid>"@
        + escaped(external_url_prefix)
        + "/"@
        + escaped(path)
        + "/</guid><pubDate>"@
        + escaped(pub_date)
        + "</pubDate><category>IT/Technical</category></item>"@
}

/// One item of the feed, given the publication date as text.
pub fn render_rss_item(
    title: &str,
    external_url_prefix: &str,
    path: &str,
    pub_date: &str,
) -> (out: String)
    ensures
        out@ == rss_item_markup(title@, external_url_prefix@, path@, pub_date@),
{
    reveal(rss_item_markup);
    let mut out = "<item><title>".to_owned();
    out.append(escape_html(title).as_str());
    out.append("</title><link>");
    out.append(escape_html(external_url_prefix).as_str());
    out.append("/");
    out.append(escape_html(path).as_str());
    out.append("/</link><guid>");
    out.append(escape_html(external_url_prefix).as_str());
    out.append("/");
    out.append(escape_html(path).as_str());
    out.append("/</guid><pubDate>");
    out.append(escape_html(pub_date).as_str());
    out.append("</pubDate><category>IT/Technical</category></item>");
    out
}

/// The feed document around its items.
#[verifier::opaque]
pub open spec fn rss_markup(items: Seq<char>, external_url_prefix: Seq<char>) -> Seq<char> {
    "<?xml version=\"1.0\" encoding=\"UTF-8\" ?><rss version=\"2.0\" xmlns:atom=\"http://www.w3.org/2005/Atom\"><channel><title>Ben Meier</title><link>"@
        + escaped(external_url_prefix)
        + "/</link><atom:link rel=\"self\" href=\""@
        + external_url_prefix
        + "/rss.xml\" /><language>en</language><description>I'm a software engineer working mostly on distributed systems with an interest in security, networking, correctness, and chaos.</description>"@
        + items
        + "</channel></rss>"@
}

/// The feed document around already rendered items.
pub fn render_rss(items: &str, external_url_prefix: &str) -> (out: String)
    ensures
        out@ == rss_markup(items@, external_url_prefix@),
{
    reveal(rss_markup);
    let mut out = "<?xml version=\"1.0\" encoding=\"UTF-8\" ?><rss version=\"2.0\" xmlns:atom=\"http://www.w3.org/2005/Atom\"><channel><title>Ben Meier</title><link>".to_owned();
    out.append(escape_html(external_url_prefix).as_str());
    out.append("/</link><atom:link rel=\"self\" href=\"");
    out.append(external_url_prefix);
    out.append("/rss.xml\" /><language>en</language><description>I'm a software engineer working mostly on distributed systems with an interest in security, networking, correctness, and chaos.</description>");
    out.append(items);
    out.append("</channel></rss>");
    out
}

/// The bytes of an optional document.
pub open spec fn option_bytes(document: Option<Vec<u8>>) -> Option<Seq<u8>> {
    match document {
        Some(bytes) => Some(bytes@),
        None => None,
    }
}

/// What stands in a post's description tag: its description, or its title where it has none.
pub open spec fn description_text(description: Option<Seq<char>>, title: Seq<char>) -> Seq<char> {
    match description {
        Some(text) => text,
        None => title,
    }
}

/// The finished page of a post, as bytes; `None` where its date cannot be written.
pub open spec fn post_document(
    title: Seq<char>,
    description: Option<Seq<char>>,
    date: DateView,
    content: Seq<char>,
    external_url_prefix: Seq<char>,
    path: Seq<char>,
    head: Seq<char>,
    footer: Seq<char>,
) -> Option<Seq<u8>> {
    match (formatted_date(POST_DATE_FORMAT@, date), formatted_date(RFC3339_DATE_FORMAT@, date)) {
        (Some(long_date), Some(stamp)) => Some(
            encode_utf8(
                post_markup(
                    title,
                    description_text(description, title),
                    long_date,
                    stamp,
                    content,
                    external_url_prefix,
                    path,
                    head,
                    footer,
                ),
            ),
        ),
        _ => None,
    }
}

/// The finished page of a post, as bytes; `None` where its date cannot be written.
pub fn pre_render_post(
    title: &str,
    description: &Option<String>,
    date: &Date,
    content: &str,
    external_url_prefix: &str,
    path: &str,
    head: &str,
    footer: &str,
) -> (document: Option<Vec<u8>>)
    ensures
        option_bytes(document) == post_document(
            title@,
            option_text(*description),
            date@,
            content@,
            external_url_prefix@,
            path@,
            head@,
            footer@,
        ),
{
    let long_date = match date.format(POST_DATE_FORMAT) {
        Some(text) => text,
        None => {
            return None;
        },
    };
    let stamp = match date.format(RFC3339_DATE_FORMAT) {
        Some(text) => text,
        None => {
            return None;
        },
    };
    let described = match description {
        Some(text) => text.as_str(),
        None => title,
    };
    let page = render_post(
        title,
        described,
        long_date.as_str(),
        stamp.as_str(),
        content,
        external_url_prefix,
        path,
        head,
        footer,
    );
    Some(page.as_str().as_bytes_vec())
}

/// The not-found page, as bytes.
pub fn pre_render_not_found(head: &str, footer: &str) -> (document: Vec<u8>)
    ensures
        document@ == encode_utf8(not_found_markup(head@, footer@)),
{
    render_not_found(head, footer).as_str().as_bytes_vec()
}

/// The heading that opens the posts of a year in the index: it closes the list before it and
/// opens the next.
pub open spec fn year_heading_markup(year: int) -> Seq<char> {
    "</ul><h2>"@ + signed_decimal(year) + "</h2><ul class=\"index-nav-ul\">"@
}

/// The heading that opens the posts of a year in the index.
pub fn render_year_heading(year: i32) -> (out: String)
    ensures
        out@ == year_heading_markup(year as int),
{
    let mut out = "</ul><h2>".to_owned();
    out.append(signed_decimal_text(year).as_str());
    out.append("</h2><ul class=\"index-nav-ul\">");
    out
}

/// The year of the post before the `i`-th; 0 before the first.
pub open spec fn previous_year(posts: Seq<PostView>, i: int) -> int {
    if i <= 0 {
        0
    } else {
        posts[i - 1].date.year
    }
}

/// What the `i`-th post adds to the index: a year heading where its year differs from the
/// year before, then its line. `None` where its date cannot be written.
pub open spec fn index_line(posts: Seq<PostView>, i: int) -> Option<Seq<char>> {
    match (
        formatted_date(POST_DATE_FORMAT@, posts[i].date),
        formatted_date(RFC3339_DATE_FORMAT@, posts[i].date),
    ) {
        (Some(long_date), Some(stamp)) => Some(
            (if posts[i].date.year != previous_year(posts, i) {
                year_heading_markup(posts[i].date.year)
            } else {
                Seq::empty()
            }) + index_entry_markup(posts[i].path, posts[i].title, long_date, stamp),
        ),
        _ => None,
    }
}

/// The index lines of the first `n` posts, in order; `None` where one cannot be written.
pub open spec fn index_listing(posts: Seq<PostView>, n: int) -> Option<Seq<char>>
    decreases n,
{
    if n <= 0 {
        Some(Seq::empty())
    } else {
        match (index_listing(posts, n - 1), index_line(posts, n - 1)) {
            (Some(before), Some(line)) => Some(before + line),
            _ => None,
        }
    }
}

/// Once a line cannot be written, no longer listing can.
proof fn lemma_index_listing_fails(posts: Seq<PostView>, i: int, n: int)
    requires
        0 <= i < n,
        index_line(posts, i) is None,
    ensures
        index_listing(posts, n) is None,
    decreases n,
{
    if i < n - 1 {
        lemma_index_listing_fails(posts, i, n - 1);
    }
}

/// The index page, as bytes; `None` where the date of a post cannot be written.
pub open spec fn index_document(
    posts: Seq<PostView>,
    external_url_prefix: Seq<char>,
    head: Seq<char>,
    footer: Seq<char>,
) -> Option<Seq<u8>> {
    match index_listing(posts, posts.len() as int) {
        Some(listing) => Some(
            encode_utf8(index_markup(listing, external_url_prefix, head, footer)),
        ),
        None => None,
    }
}

/// The index page, as bytes: the posts in the order given, a heading before the first post of
/// each run of one year. `None` where the date of a post cannot be written.
pub fn pre_render_index(
    posts: &Vec<Post>,
    external_url_prefix: &str,
    head: &str,
    footer: &str,
) -> (document: Option<Vec<u8>>)
    ensures
        option_bytes(document) == index_document(
            post_views(posts@),
            external_url_prefix@,
            head@,
            footer@,
        ),
{
    let ghost views = post_views(posts@);
    let mut listing = String::new();
    let mut last_year: i32 = 0;
    let mut i: usize = 0;
    while i < posts.len()
        invariant
            i <= posts@.len(),
            views == post_views(posts@),
            index_listing(views, i as int) == Some(listing@),
            last_year == previous_year(views, i as int),
        decreases posts@.len() - i,
    {
        let post = &posts[i];
        assert(views[i as int] == post@);
        let long_date = match post.date.format(POST_DATE_FORMAT) {
            Some(text) => text,
            None => {
                proof {
                    lemma_index_listing_fails(views, i as int, posts@.len() as int);
                }
                return None;
            },
        };
        let stamp = match post.date.format(RFC3339_DATE_FORMAT) {
            Some(text) => text,
            None => {
                proof {
                    lemma_index_listing_fails(views, i as int, posts@.len() as int);
                }
                return None;
            },
        };
        let year = post.date.year();
        let mut line = if year != last_year {
            render_year_heading(year)
        } else {
            String::new()
        };
        line.append(
            render_index_entry(
                post.path.as_str(),
                post.title.as_str(),
                long_date.as_str(),
                stamp.as_str(),
            ).as_str(),
        );
        assert(Some(line@) == index_line(views, i as int));
        listing.append(line.as_str());
        last_year = year;
        i += 1;
    }
    let page = render_index(listing.as_str(), external_url_prefix, head, footer);
    Some(page.as_str().as_bytes_vec())
}

/// What the `i`-th post adds to the feed; `None` where its date cannot be written.
pub open spec fn rss_line(posts: Seq<PostView>, external_url_prefix: Seq<char>, i: int) -> Option<
    Seq<char>,
> {
    match formatted_date(RFC2822_DATE_FORMAT@, posts[i].date) {
        Some(pub_date) => Some(
            rss_item_markup(posts[i].title, external_url_prefix, posts[i].path, pub_date),
        ),
        None => None,
    }
}

/// The feed items of the first `n` posts, in order; `None` where one cannot be written.
pub open spec fn rss_listing(
    posts: Seq<PostView>,
    external_url_prefix: Seq<char>,
    n: int,
) -> Option<
    Seq<char>,
>
    decreases n,
{
    if n <= 0 {
        Some(Seq::empty())
    } else {
        match (
            rss_listing(posts, external_url_prefix, n - 1),
            rss_line(posts, external_url_prefix, n - 1),
        ) {
            (Some(before), Some(line)) => Some(before + line),
            _ => None,
        }
    }
}

/// Once an item cannot be written, no longer listing can.
proof fn lemma_rss_listing_fails(
    posts: Seq<PostView>,
    external_url_prefix: Seq<char>,
    i: int,
    n: int,
)
    requires
        0 <= i < n,
        rss_line(posts, external_url_prefix, i) is None,
    ensures
        rss_listing(posts, external_url_prefix, n) is None,
    decreases n,
{
    if i < n - 1 {
        lemma_rss_listing_fails(posts, external_url_prefix, i, n - 1);
    }
}

/// The feed, as bytes; `None` where the date of a post cannot be written.
pub open spec fn rss_document(posts: Seq<PostView>, external_url_prefix: Seq<char>) -> Option<
    Seq<u8>,
> {
    match rss_listing(posts, external_url_prefix, posts.len() as int) {
        Some(items) => Some(encode_utf8(rss_markup(items, external_url_prefix))),
        None => None,
    }
}

/// The feed, as bytes: one item for each post, in the order given. `None` where the date of a
/// post cannot be written.
pub fn pre_render_rss(posts: &Vec<Post>, external_url_prefix: &str) -> (document: Option<Vec<u8>>)
    ensures
        option_bytes(document) == rss_document(post_views(posts@), external_url_prefix@),
{
    let ghost views = post_views(posts@);
    let mut items = String::new();
    let mut i: usize = 0;
    while i < posts.len()
        invariant
            i <= posts@.len(),
            views == post_views(posts@),
            rss_listing(views, external_url_prefix@, i as int) == Some(items@),
        decreases posts@.len() - i,
    {
        let post = &posts[i];
        assert(views[i as int] == post@);
        let pub_date = match post.date.format(RFC2822_DATE_FORMAT) {
            Some(text) => text,
            None => {
                proof {
                    lemma_rss_listing_fails(
                        views,
                        external_url_prefix@,
                        i as int,
                        posts@.len() as int,
                    );
                }
                return None;
            },
        };
        let item = render_rss_item(
            post.title.as_str(),
            external_url_prefix,
            post.path.as_str(),
            pub_date.as_str(),
        );
        items.append(item.as_str());
        i += 1;
    }
    let page = render_rss(items.as_str(), external_url_prefix);
    Some(page.as_str().as_bytes_vec())
}

} // verus!
