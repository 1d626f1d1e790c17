//! The content tree builder: every page, asset and fixed resource becomes a node, once.

use crate::etag::{content_hash, identity_hash, make_hash, make_hash_of_bytes};
use crate::media::{asset_content_type, guess_content_type, HTML_CONTENT_TYPE, PLAIN_CONTENT_TYPE};
use crate::order::{display_order, order_posts};
use crate::pages::{
    footer_of, head_markup, index_document, not_found_markup, post_document, pre_render_footer,
    pre_render_head, pre_render_index, pre_render_not_found, pre_render_post, pre_render_rss,
    rss_document, Site, SiteView,
};
use crate::post::{post_views, Post, PostView};
use crate::text::{decimal, decimal_text};
use crate::tree::{Node, NodeView, SharedState, SharedStateView};
use vstd::prelude::*;
use vstd::utf8::encode_utf8;

verus! {

/// What crawlers are told.
pub const ROBOTS_TXT: &'static str =
    "User-agent: *\nAllow: /\nDisallow: /livez\nDisallow: /readyz\nDisallow: /metricz\n";

/// Why no tree could be built.
#[derive(Clone, Copy, Debug, PartialEq, Eq, Structural)]
pub enum BuildError {
    /// The start time could not be written into the footer.
    Footer,
    /// The date of a post could not be written into the index or the feed.
    PostDate,
}

/// The identity tag of a resource known by two names.
pub open spec fn identity_tag(version: Seq<char>, x: Seq<char>, y: Seq<char>) -> Seq<char> {
    decimal(identity_hash(version, x, y) as nat)
}

/// The identity tag of a resource known by its bytes alone.
pub open spec fn content_tag(version: Seq<char>, bytes: Seq<u8>) -> Seq<char> {
    decimal(content_hash(version, bytes) as nat)
}

/// The node of one asset of the post called `title`.
pub open spec fn asset_node(
    version: Seq<char>,
    title: Seq<char>,
    asset: (Seq<char>, Seq<u8>),
) -> NodeView {
    NodeView::leaf(asset.1, asset_content_type(asset.0), identity_tag(version, title, asset.0))
}

/// What stands around the body of every page: the address of the site, and the shared head and
/// footer.
pub struct FrameView {
    pub external_url_prefix: Seq<char>,
    pub head: Seq<char>,
    pub footer: Seq<char>,
}

/// The finished page of a post within a frame; `None` where the date of the post cannot be
/// written.
pub open spec fn post_page(post: PostView, frame: FrameView) -> Option<Seq<u8>> {
    post_document(
        post.title,
        post.description,
        post.date,
        post.rendered_body,
        frame.external_url_prefix,
        post.path,
        frame.head,
        frame.footer,
    )
}

/// The page of every post can be written.
pub open spec fn pages_exist(posts: Seq<PostView>, frame: FrameView) -> bool {
    forall|i: int| 0 <= i < posts.len() ==> (#[trigger] post_page(posts[i], frame)) is Some
}

/// The node of a post whose finished page is `page`, with its first `n` assets below it, each
/// under its file name.
pub open spec fn post_node_with(
    version: Seq<char>,
    post: PostView,
    page: Seq<u8>,
    n: int,
) -> NodeView
    decreases n,
{
    if n <= 0 {
        NodeView::leaf(page, HTML_CONTENT_TYPE@, identity_tag(version, post.title, Seq::empty()))
    } else {
        post_node_with(version, post, page, n - 1).with_child(
            post.assets[n - 1].0,
            asset_node(version, post.title, post.assets[n - 1]),
        )
    }
}

/// The node of a post whose finished page is `page`, with all its assets below it.
pub open spec fn post_node(version: Seq<char>, post: PostView, page: Seq<u8>) -> NodeView {
    post_node_with(version, post, page, post.assets.len() as int)
}

/// `root` with the first `n` posts below it, each under its path with its page in the frame.
pub open spec fn with_posts(
    root: NodeView,
    version: Seq<char>,
    posts: Seq<PostView>,
    frame: FrameView,
    n: int,
) -> NodeView
    decreases n,
{
    if n <= 0 {
        root
    } else {
        with_posts(root, version, posts, frame, n - 1).with_child(
            posts[n - 1].path,
            post_node(version, posts[n - 1], post_page(posts[n - 1], frame).unwrap()),
        )
    }
}

/// The content tree: the index at the root; below it the site image, then the posts in the
/// order given, then the robots policy and the feed under its two names. Where two of these
/// share a name, the later one stands.
pub open spec fn content_tree(
    version: Seq<char>,
    posts: Seq<PostView>,
    frame: FrameView,
    index: Seq<u8>,
    url_image: Seq<u8>,
    feed: Seq<u8>,
) -> NodeView {
    with_posts(
        NodeView::leaf(
            index,
            HTML_CONTENT_TYPE@,
            identity_tag(version, Seq::empty(), Seq::empty()),
        ).with_child(
            "url-image.jpg"@,
            NodeView::leaf(
                url_image,
                "image/jpeg"@,
                identity_tag(version, "url-image.jpg"@, Seq::empty()),
            ),
        ),
        version,
        posts,
        frame,
        posts.len() as int,
    ).with_child(
        "robots.txt"@,
        NodeView::leaf(
            encode_utf8(ROBOTS_TXT@),
            PLAIN_CONTENT_TYPE@,
            content_tag(version, encode_utf8(ROBOTS_TXT@)),
        ),
    ).with_child("rss.xml"@, NodeView::leaf(feed, "text/xml"@, content_tag(version, feed))).with_child(
        "feed.xml"@,
        NodeView::leaf(feed, "text/xml"@, content_tag(version, feed)),
    )
}

/// The frame that the site settings give to every page, around a footer.
pub open spec fn frame_of(site: SiteView, footer: Seq<char>) -> FrameView {
    FrameView {
        external_url_prefix: site.external_url_prefix,
        head: head_markup(site.normalize_css, site.milligram_css),
        footer,
    }
}

/// What is built from the posts, given in the order in which they were found, and the site
/// settings: the tree over the posts in display order, and the not-found page beside it. No
/// tree is built where the start time or the date of a post cannot be written.
pub open spec fn built_state(posts: Seq<PostView>, site: SiteView, url_image: Seq<u8>) -> Result<
    SharedStateView,
    BuildError,
> {
    let ordered = display_order(posts);
    match footer_of(site) {
        None => Err(BuildError::Footer),
        Some(footer) => {
            let frame = frame_of(site, footer);
            match (
                index_document(ordered, frame.external_url_prefix, frame.head, frame.footer),
                rss_document(ordered, frame.external_url_prefix),
            ) {
                (Some(index), Some(feed)) => if pages_exist(ordered, frame) {
                    Ok(
                        SharedStateView {
                            root: content_tree(
                                site.version,
                                ordered,
                                frame,
                                index,
                                url_image,
                                feed,
                            ),
                            not_found: NodeView::leaf(
                                encode_utf8(not_found_markup(frame.head, frame.footer)),
                                HTML_CONTENT_TYPE@,
                                identity_tag(site.version, Seq::empty(), Seq::empty()),
                            ),
                        },
                    )
                } else {
                    Err(BuildError::PostDate)
                },
                _ => Err(BuildError::PostDate),
            }
        },
    }
}

/// The view of a build's outcome.
pub open spec fn outcome_view(outcome: Result<SharedState, BuildError>) -> Result<
    SharedStateView,
    BuildError,
> {
    match outcome {
        Ok(state) => Ok(state@),
        Err(error) => Err(error),
    }
}

/// The identity tag of a resource known by two names.
pub fn make_identity_tag(version: &str, x: &str, y: &str) -> (tag: String)
    ensures
        tag@ == identity_tag(version@, x@, y@),
{
    decimal_text(make_hash(version, x, y))
}

/// The identity tag of a resource known by its bytes alone.
pub fn make_content_tag(version: &str, bytes: &[u8]) -> (tag: String)
    ensures
        tag@ == content_tag(version@, bytes@),
{
    decimal_text(make_hash_of_bytes(version, bytes))
}

/// The node of a post whose finished page is `page`: the page, and below it a node for each
/// asset.
pub fn build_post_node(version: &str, post: &Post, page: Vec<u8>) -> (node: Node)
    ensures
        node@ == post_node(version@, post@, page@),
{
    proof {
        reveal_strlit("");
        assert(""@ =~= Seq::<char>::empty());
    }
    let mut node = Node::new(
        page,
        HTML_CONTENT_TYPE.to_owned(),
        make_identity_tag(version, post.title.as_str(), ""),
    );
    let mut i: usize = 0;
    while i < post.assets.len()
        invariant
            i <= post.assets@.len(),
            node@ == post_node_with(version@, post@, page@, i as int),
        decreases post.assets@.len() - i,
    {
        let asset = &post.assets[i];
        assert(post@.assets[i as int] == asset@);
        let child = Node::new(
            asset.data.clone(),
            guess_content_type(asset.name.as_str()),
            make_identity_tag(version, post.title.as_str(), asset.name.as_str()),
        );
        node = node.with_child(asset.name.clone(), child);
        i += 1;
    }
    node
}

/// The UTF-8 encoding of a text that is not empty is not empty.
proof fn lemma_encoding_not_empty(text: Seq<char>)
    requires
        text.len() > 0,
    ensures
        encode_utf8(text).len() > 0,
{
}

/// Builds the shared state from the posts, given in the order in which they were found, and the
/// site settings. The posts are put in display order first, and every page lists them so. No
/// state is built where the start time or the date of a post cannot be written.
pub fn build_shared_state(posts: Vec<Post>, site: &Site, url_image: Vec<u8>) -> (outcome: Result<
    SharedState,
    BuildError,
>)
    ensures
        outcome_view(outcome) == built_state(post_views(posts@), site@, url_image@),
        outcome matches Ok(state) ==> state@.well_formed(),
{
    let listed = order_posts(posts);
    let ghost ordered = post_views(listed@);
    let version = site.version.as_str();
    let prefix = site.external_url_prefix.as_str();
    let head = pre_render_head(site.normalize_css.as_str(), site.milligram_css.as_str());
    let footer = match pre_render_footer(site) {
        Some(footer) => footer,
        None => {
            return Err(BuildError::Footer);
        },
    };
    let root_content = match pre_render_index(&listed, prefix, head.as_str(), footer.as_str()) {
        Some(document) => document,
        None => {
            return Err(BuildError::PostDate);
        },
    };
    let rss_content = match pre_render_rss(&listed, prefix) {
        Some(document) => document,
        None => {
            return Err(BuildError::PostDate);
        },
    };
    proof {
        reveal_strlit("");
        assert(""@ =~= Seq::<char>::empty());
    }
    let mut root = Node::new(
        root_content,
        HTML_CONTENT_TYPE.to_owned(),
        make_identity_tag(version, "", ""),
    );
    let url_image_item = Node::new(
        url_image,
        "image/jpeg".to_owned(),
        make_identity_tag(version, "url-image.jpg", ""),
    );
    root = root.with_child("url-image.jpg".to_owned(), url_image_item);
    let ghost base = root@;
    let ghost frame = frame_of(site@, footer@);

    let mut i: usize = 0;
    while i < listed.len()
        invariant
            i <= listed@.len(),
            ordered == post_views(listed@),
            ordered == display_order(post_views(posts@)),
            version@ == site@.version,
            prefix@ == site@.external_url_prefix,
            frame == frame_of(site@, footer@),
            head@ == frame.head,
            footer_of(site@) == Some(footer@),
            index_document(ordered, frame.external_url_prefix, frame.head, frame.footer) is Some,
            rss_document(ordered, frame.external_url_prefix) is Some,
            forall|j: int| 0 <= j < i ==> (#[trigger] post_page(ordered[j], frame)) is Some,
            root@ == with_posts(base, site@.version, ordered, frame, i as int),
        decreases listed@.len() - i,
    {
        let post = &listed[i];
        assert(ordered[i as int] == post@);
        let page = match pre_render_post(
            post.title.as_str(),
            &post.description,
            &post.date,
            post.rendered_body.as_str(),
            prefix,
            post.path.as_str(),
            head.as_str(),
            footer.as_str(),
        ) {
            Some(page) => page,
            None => {
                assert(post_page(ordered[i as int], frame) is None);
                return Err(BuildError::PostDate);
            },
        };
        let post_item = build_post_node(version, post, page);
        root = root.with_child(post.path.clone(), post_item);
        i += 1;
    }

    let robots_content = ROBOTS_TXT.as_bytes_vec();
    let robots_tag = make_content_tag(version, robots_content.as_slice());
    let robots = Node::new(robots_content, PLAIN_CONTENT_TYPE.to_owned(), robots_tag);
    root = root.with_child("robots.txt".to_owned(), robots);

    let rss_tag = make_content_tag(version, rss_content.as_slice());
    let rss = Node::new(rss_content.clone(), "text/xml".to_owned(), rss_tag);
    root = root.with_child("rss.xml".to_owned(), rss);

    let feed_tag = make_content_tag(version, rss_content.as_slice());
    let feed = Node::new(rss_content, "text/xml".to_owned(), feed_tag);
    root = root.with_child("feed.xml".to_owned(), feed);

    let not_found_content = pre_render_not_found(head.as_str(), footer.as_str());
    proof {
        reveal(not_found_markup);
        reveal_strlit("</div></body></html>");
        assert(not_found_markup(head@, footer@).len() > 0);
        lemma_encoding_not_empty(not_found_markup(head@, footer@));
    }
    let not_found = Node::new(
        not_found_content,
        HTML_CONTENT_TYPE.to_owned(),
        make_identity_tag(version, "", ""),
    );
    Ok(SharedState::assemble(root, not_found))
}

} // verus!
