//! The source collector: from the embedded files to the posts, each with its metadata, its
//! rendered body and its assets.

use crate::date::{
    date_of_parts, option_date, Date, DateView, MARKER_DATE_FORMAT, PATH_DATE_FORMAT,
};
use crate::outside::{
    capture_first, decode_text, first_capture, markdown_html, parsed_date, render_markdown,
};
use crate::post::{post_views, Asset, Post, PostView};
use crate::text::{
    chars_of, ends_with, find_first, find_last, first_offset, has_prefix, has_suffix, last_offset,
    option_text, starts_with,
};
use vstd::prelude::*;
use vstd::utf8::{decode_utf8, valid_utf8};

verus! {

/// The name of the file that holds a post's document.
pub const CONTENT_FILE_NAME: &'static str = "content.md";

/// The marker that holds a post's title.
pub const TITLE_PATTERN: &'static str = "<meta x-title=\"(.+)\"/?>";

/// The marker that holds a post's date, where its path does not.
pub const DATE_PATTERN: &'static str = "<meta x-date=\"(.+)\"/?>";

/// The marker that holds a post's description.
pub const DESCRIPTION_PATTERN: &'static str = "<meta x-description=\"(.+)\"/?>";

/// The title of a post without a title marker.
pub const UNKNOWN_TITLE: &'static str = "unknown";

/// One embedded file: its path, with `/` between the segments, and its bytes.
#[derive(Clone, Debug)]
pub struct SourceEntry {
    pub path: String,
    pub data: Vec<u8>,
}

impl View for SourceEntry {
    type V = (Seq<char>, Seq<u8>);

    open spec fn view(&self) -> (Seq<char>, Seq<u8>) {
        (self.path@, self.data@)
    }
}

/// The files of a list, each as a path with its bytes.
pub open spec fn entry_views(entries: Seq<SourceEntry>) -> Seq<(Seq<char>, Seq<u8>)> {
    entries.map_values(|e: SourceEntry| e@)
}

/// Why the posts could not be collected. The number is the position of the document at fault
/// among the embedded files.
#[derive(Clone, Copy, Debug, PartialEq, Eq, Structural)]
pub enum CollectError {
    /// The document lies in no directory, so its post has no path.
    NoDirectory(usize),
    /// The document is not valid UTF-8.
    NotText(usize),
}

/// The path is that of a post's document.
pub open spec fn is_document(path: Seq<char>) -> bool {
    has_suffix(path, CONTENT_FILE_NAME@)
}

/// The directory that holds the file at `path`: what stands before the last `/`.
pub open spec fn parent_dir(path: Seq<char>) -> Seq<char> {
    path.take(last_offset(path, '/'))
}

/// What every file beside the document at `path` begins with: the directory and a `/`.
pub open spec fn asset_prefix(path: Seq<char>) -> Seq<char> {
    path.take(last_offset(path, '/') + 1)
}

/// The last segment of `path`.
pub open spec fn base_name(path: Seq<char>) -> Seq<char> {
    path.skip(last_offset(path, '/') + 1)
}

/// The path of the post whose document lies at `path`: the name of the directory that holds it.
pub open spec fn item_path(path: Seq<char>) -> Seq<char> {
    base_name(parent_dir(path))
}

/// What stands before the first `-` of a post's path.
pub open spec fn date_prefix(item: Seq<char>) -> Seq<char> {
    item.take(first_offset(item, '-'))
}

/// The title, given what the title marker holds.
pub open spec fn title_or_unknown(captured: Option<Seq<char>>) -> Seq<char> {
    match captured {
        Some(title) => title,
        None => UNKNOWN_TITLE@,
    }
}

/// The date of a post: the one in its path; failing that, the one in its date marker; failing
/// that, the day of the build.
pub open spec fn chosen_date(
    from_path: Option<DateView>,
    from_marker: Option<DateView>,
    build_date: DateView,
) -> DateView {
    match from_path {
        Some(date) => date,
        None => match from_marker {
            Some(date) => date,
            None => build_date,
        },
    }
}

/// The date that the date marker of a document holds, if it has one that spells a date.
pub open spec fn marker_date(raw: Seq<char>) -> Option<DateView> {
    match first_capture(DATE_PATTERN@, raw) {
        Some(text) => date_of_parts(parsed_date(MARKER_DATE_FORMAT@, text)),
        None => None,
    }
}

/// The date of the post at `item` whose document reads `raw`.
pub open spec fn post_date(item: Seq<char>, raw: Seq<char>, build_date: DateView) -> DateView {
    chosen_date(
        date_of_parts(parsed_date(PATH_DATE_FORMAT@, date_prefix(item))),
        marker_date(raw),
        build_date,
    )
}

/// The file at `path` is an asset of the document at `document`: it lies in the document's
/// directory or below, and is not the document.
pub open spec fn is_asset_of(path: Seq<char>, document: Seq<char>) -> bool {
    has_prefix(path, asset_prefix(document)) && path != document
}

/// The assets of the document at `document` among the first `n` files, in order, each under its
/// path from the document's directory.
pub open spec fn assets_of(entries: Seq<(Seq<char>, Seq<u8>)>, document: Seq<char>, n: int) -> Seq<
    (Seq<char>, Seq<u8>),
>
    decreases n,
{
    if n <= 0 {
        Seq::empty()
    } else if is_asset_of(entries[n - 1].0, document) {
        assets_of(entries, document, n - 1).push(
            (entries[n - 1].0.skip(asset_prefix(document).len() as int), entries[n - 1].1),
        )
    } else {
        assets_of(entries, document, n - 1)
    }
}

/// The post of the document that is the `k`-th file.
#[verifier::opaque]
pub open spec fn post_of(
    entries: Seq<(Seq<char>, Seq<u8>)>,
    k: int,
    build_date: DateView,
) -> Result<
    PostView,
    CollectError,
> {
    let path = entries[k].0;
    if last_offset(path, '/') < 0 {
        Err(CollectError::NoDirectory(k as usize))
    } else if !valid_utf8(entries[k].1) {
        Err(CollectError::NotText(k as usize))
    } else {
        let raw = decode_utf8(entries[k].1);
        let item = item_path(path);
        Ok(
            PostView {
                path: item,
                title: title_or_unknown(first_capture(TITLE_PATTERN@, raw)),
                description: first_capture(DESCRIPTION_PATTERN@, raw),
                date: post_date(item, raw, build_date),
                rendered_body: markdown_html(raw),
                assets: assets_of(entries, path, entries.len() as int),
            },
        )
    }
}

/// The posts of the documents among the first `n` files, in order; the error of the first
/// document that has one.
pub open spec fn collected_among(
    entries: Seq<(Seq<char>, Seq<u8>)>,
    build_date: DateView,
    n: int,
) -> Result<
    Seq<PostView>,
    CollectError,
>
    decreases n,
{
    if n <= 0 {
        Ok(Seq::empty())
    } else {
        match collected_among(entries, build_date, n - 1) {
            Err(error) => Err(error),
            Ok(posts) => if !is_document(entries[n - 1].0) {
                Ok(posts)
            } else {
                match post_of(entries, n - 1, build_date) {
                    Err(error) => Err(error),
                    Ok(post) => Ok(posts.push(post)),
                }
            },
        }
    }
}

/// The posts of all documents among the files, in the order of the files; the error of the
/// first document that has one.
pub open spec fn collected(entries: Seq<(Seq<char>, Seq<u8>)>, build_date: DateView) -> Result<
    Seq<PostView>,
    CollectError,
> {
    collected_among(entries, build_date, entries.len() as int)
}

/// The view of what was collected.
pub open spec fn collection_view(outcome: Result<Vec<Post>, CollectError>) -> Result<
    Seq<PostView>,
    CollectError,
> {
    match outcome {
        Ok(posts) => Ok(post_views(posts@)),
        Err(error) => Err(error),
    }
}

/// The view of one collected post.
pub open spec fn post_outcome_view(outcome: Result<Post, CollectError>) -> Result<
    PostView,
    CollectError,
> {
    match outcome {
        Ok(post) => Ok(post@),
        Err(error) => Err(error),
    }
}

/// The title, given what the title marker holds.
pub fn title_from(captured: Option<String>) -> (title: String)
    ensures
        title@ == title_or_unknown(option_text(captured)),
{
    match captured {
        Some(title) => title,
        None => UNKNOWN_TITLE.to_owned(),
    }
}

/// The date of a post, given the date in its path, the date in its marker, and the day of the
/// build: the first of the three that is there.
pub fn choose_date(from_path: Option<Date>, from_marker: Option<Date>, build_date: Date) -> (date:
    Date)
    ensures
        date@ == chosen_date(option_date(from_path), option_date(from_marker), build_date@),
{
    match from_path {
        Some(date) => date,
        None => match from_marker {
            Some(date) => date,
            None => build_date,
        },
    }
}

/// The date of the post at `item` whose document reads `raw`.
pub fn date_of_post(item: &str, raw: &str, build_date: Date) -> (date: Date)
    ensures
        date@ == post_date(item@, raw@, build_date@),
{
    let item_chars = chars_of(item);
    let dash = find_first(&item_chars, '-');
    let prefix = item.substring_char(0, dash);
    assert(prefix@ =~= date_prefix(item@));
    let from_path = Date::parse(PATH_DATE_FORMAT, prefix);
    let from_marker = if from_path.is_some() {
        None
    } else {
        match capture_first(DATE_PATTERN, raw) {
            Some(text) => Date::parse(MARKER_DATE_FORMAT, text.as_str()),
            None => None,
        }
    };
    choose_date(from_path, from_marker, build_date)
}

/// The assets of the document at `document`, whose directory and the `/` behind it take up
/// `prefix_length` characters.
fn collect_assets(entries: &Vec<SourceEntry>, document: &String, prefix_length: usize) -> (assets:
    Vec<Asset>)
    requires
        prefix_length == last_offset(document@, '/') + 1,
        prefix_length <= document@.len(),
    ensures
        crate::post::asset_views(assets@) == assets_of(
            entry_views(entries@),
            document@,
            entries@.len() as int,
        ),
{
    let ghost views = entry_views(entries@);
    let prefix = document.as_str().substring_char(0, prefix_length);
    assert(prefix@ =~= asset_prefix(document@));
    let mut assets: Vec<Asset> = Vec::new();
    let mut j: usize = 0;
    while j < entries.len()
        invariant
            j <= entries@.len(),
            views == entry_views(entries@),
            prefix@ == asset_prefix(document@),
            prefix@.len() == prefix_length,
            crate::post::asset_views(assets@) == assets_of(views, document@, j as int),
        decreases entries@.len() - j,
    {
        let entry = &entries[j];
        assert(views[j as int] == entry@);
        if starts_with(entry.path.as_str(), prefix) && entry.path != *document {
            let length = entry.path.as_str().unicode_len();
            let name = entry.path.as_str().substring_char(prefix_length, length);
            assert(name@ =~= entry.path@.skip(asset_prefix(document@).len() as int));
            let ghost before = crate::post::asset_views(assets@);
            assets.push(Asset { name: name.to_owned(), data: entry.data.clone() });
            assert(crate::post::asset_views(assets@) =~= before.push((name@, entry.data@)));
        }
        j += 1;
    }
    assets
}

/// The post of the document that is the `k`-th file.
pub fn collect_post(entries: &Vec<SourceEntry>, k: usize, build_date: Date) -> (outcome: Result<
    Post,
    CollectError,
>)
    requires
        k < entries@.len(),
    ensures
        post_outcome_view(outcome) == post_of(entry_views(entries@), k as int, build_date@),
{
    reveal(post_of);
    let entry = &entries[k];
    assert(entry_views(entries@)[k as int] == entry@);
    let path_chars = chars_of(entry.path.as_str());
    assert(path_chars@.take(path_chars@.len() as int) =~= path_chars@);
    let slash = match find_last(&path_chars, '/', path_chars.len()) {
        Some(offset) => offset,
        None => {
            return Err(CollectError::NoDirectory(k));
        },
    };
    let raw = match decode_text(entry.data.as_slice()) {
        Some(text) => text,
        None => {
            return Err(CollectError::NotText(k));
        },
    };
    let start: usize = match find_last(&path_chars, '/', slash) {
        Some(offset) => offset + 1,
        None => 0,
    };
    let item = entry.path.as_str().substring_char(start, slash);
    assert(item@ =~= item_path(entry.path@));
    let title = title_from(capture_first(TITLE_PATTERN, raw.as_str()));
    let description = capture_first(DESCRIPTION_PATTERN, raw.as_str());
    let date = date_of_post(item, raw.as_str(), build_date);
    let rendered_body = render_markdown(raw.as_str());
    let assets = collect_assets(entries, &entry.path, slash + 1);
    Ok(Post { path: item.to_owned(), title, description, date, rendered_body, assets })
}

/// Collects the posts from the embedded files: one for each file whose path ends in the name of
/// the document file, in the order of the files. A post that carries no date gets `build_date`.
pub fn collect_posts(entries: &Vec<SourceEntry>, build_date: Date) -> (outcome: Result<
    Vec<Post>,
    CollectError,
>)
    ensures
        collection_view(outcome) == collected(entry_views(entries@), build_date@),
{
    let ghost views = entry_views(entries@);
    let mut posts: Vec<Post> = Vec::new();
    let mut k: usize = 0;
    assert(post_views(posts@) =~= Seq::empty());
    while k < entries.len()
        invariant
            k <= entries@.len(),
            views == entry_views(entries@),
            collected_among(views, build_date@, k as int) == Ok::<Seq<PostView>, CollectError>(
                post_views(posts@),
            ),
        decreases entries@.len() - k,
    {
        let entry = &entries[k];
        assert(views[k as int] == entry@);
        proof {
            lemma_collection_step(views, build_date@, k + 1);
        }
        if ends_with(entry.path.as_str(), CONTENT_FILE_NAME) {
            match collect_post(entries, k, build_date) {
                Ok(post) => {
                    let ghost before = post_views(posts@);
                    posts.push(post);
                    assert(post_views(posts@) =~= before.push(post@));
                },
                Err(error) => {
                    proof {
                        assert(collected_among(views, build_date@, k + 1) == Err::<
                            Seq<PostView>,
                            CollectError,
                        >(error));
                        lemma_collection_fails(views, build_date@, k as int, entries@.len() as int);
                    }
                    return Err(error);
                },
            }
        }
        k += 1;
    }
    Ok(posts)
}

/// One step of `collected_among`, spelled out.
proof fn lemma_collection_step(entries: Seq<(Seq<char>, Seq<u8>)>, build_date: DateView, n: int)
    requires
        n > 0,
    ensures
        collected_among(entries, build_date, n) == match collected_among(
            entries,
            build_date,
            n - 1,
        ) {
            Err(error) => Err(error),
            Ok(posts) => if !is_document(entries[n - 1].0) {
                Ok(posts)
            } else {
                match post_of(entries, n - 1, build_date) {
                    Err(error) => Err(error),
                    Ok(post) => Ok(posts.push(post)),
                }
            },
        },
{
}

/// Once a document has an error, every longer collection ends in the first such error.
proof fn lemma_collection_fails(
    entries: Seq<(Seq<char>, Seq<u8>)>,
    build_date: DateView,
    k: int,
    n: int,
)
    requires
        0 <= k < n,
        collected_among(entries, build_date, k + 1) is Err,
    ensures
        collected_among(entries, build_date, n) == collected_among(entries, build_date, k + 1),
    decreases n,
{
    if k + 1 < n {
        lemma_collection_fails(entries, build_date, k, n - 1);
    }
}

} // verus!
