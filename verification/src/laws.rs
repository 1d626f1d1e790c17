//! What holds of every request, of every tree that is built, and of every text that is escaped.

use crate::builder::{
    asset_node, built_state, content_tag, content_tree, frame_of, identity_tag, post_node,
    post_node_with, post_page, with_posts, BuildError, FrameView, ROBOTS_TXT,
};
use crate::media::{HTML_CONTENT_TYPE, PLAIN_CONTENT_TYPE};
use crate::order::{display_order, display_order_keeps_the_posts};
use crate::outside::{deflated, escaped, escaped_char};
use crate::pages::{footer_of, index_document, rss_document, SiteView};
use crate::post::PostView;
use crate::resolver::{
    needs_slash, redirect_response, resolve, resource_headers, respond, tag_matches, wants_deflate,
    wants_html,
};
use crate::response::{header_value, RequestHeadersView, ResponseView, Status};
use crate::text::has_suffix;
use crate::tree::{NodeView, SharedStateView};
use vstd::prelude::*;
use vstd::utf8::encode_utf8;

verus! {

/// A node reached by a path through a well-formed tree is well formed.
pub proof fn lemma_resolved_node_well_formed(
    root: NodeView,
    segment0: Seq<char>,
    segment1: Seq<char>,
)
    requires
        root.well_formed(),
        resolve(root, segment0, segment1) is Some,
    ensures
        resolve(root, segment0, segment1)->0.well_formed(),
{
    if segment0.len() > 0 {
        assert(root.children.contains_key(segment0));
        let child = root.children[segment0];
        assert(child.well_formed());
        if segment1.len() > 0 {
            assert(child.children.contains_key(segment1));
        }
    }
}

/// Resolving the same path with the same headers twice gives the same response: the same
/// body, byte for byte, and the same identity tag.
pub proof fn resolving_twice_gives_the_same(
    state: SharedStateView,
    segment0: Seq<char>,
    segment1: Seq<char>,
    headers: RequestHeadersView,
    path: Seq<char>,
    first: ResponseView,
    second: ResponseView,
)
    requires
        first == respond(state, segment0, segment1, headers, path),
        second == respond(state, segment0, segment1, headers, path),
    ensures
        first == second,
        first.body == second.body,
        first.header("etag"@) == second.header("etag"@),
{
}

/// A page below the root that is asked for without the trailing slash is answered by a
/// temporary redirect to the same path with the slash appended, and the redirect has no body.
pub proof fn page_without_slash_redirects(
    state: SharedStateView,
    segment0: Seq<char>,
    segment1: Seq<char>,
    headers: RequestHeadersView,
    path: Seq<char>,
)
    requires
        segment0.len() > 0,
        resolve(state.root, segment0, segment1) matches Some(node) && node.content_type
            == HTML_CONTENT_TYPE@,
        !has_suffix(path, "/"@),
    ensures
        respond(state, segment0, segment1, headers, path) == redirect_response(path),
        redirect_response(path).status == Status::TemporaryRedirect,
        redirect_response(path).header("location"@) == Some(path + "/"@),
        redirect_response(path).body.len() == 0,
{
    reveal_with_fuel(header_value, 2);
}

/// A request that names the node's identity tag in `if-none-match` is answered with
/// `304 Not Modified`, an empty body and the same identity tag, unless the trailing-slash
/// redirect comes first.
pub proof fn matching_tag_is_not_modified(
    state: SharedStateView,
    segment0: Seq<char>,
    segment1: Seq<char>,
    headers: RequestHeadersView,
    path: Seq<char>,
)
    requires
        resolve(state.root, segment0, segment1) matches Some(node) && !needs_slash(
            segment0,
            node,
            path,
        ) && headers.if_none_match == Some(node.etag),
    ensures
        respond(state, segment0, segment1, headers, path).status == Status::NotModified,
        respond(state, segment0, segment1, headers, path).body.len() == 0,
        respond(state, segment0, segment1, headers, path).header("etag"@) == Some(
            resolve(state.root, segment0, segment1)->0.etag,
        ),
{
    let node = resolve(state.root, segment0, segment1)->0;
    lemma_etag_header(node);
}

/// Among the headers of a resource, `etag` is the node's identity tag.
proof fn lemma_etag_header(node: NodeView)
    ensures
        header_value(resource_headers(node), "etag"@) == Some(node.etag),
{
    reveal_strlit("etag");
    reveal_strlit("content-type");
    reveal_with_fuel(header_value, 3);
    let headers = resource_headers(node);
    assert("etag"@.len() == 4 && "content-type"@.len() == 12);
    assert(headers[0].0 != "etag"@);
    assert(headers.drop_first()[0].0 == "etag"@);
}

/// A request that accepts `deflate` and is answered with the resource gets the deflated form
/// of the very body that a request without `accept-encoding` gets.
pub proof fn deflate_body_is_the_compressed_content(
    state: SharedStateView,
    segment0: Seq<char>,
    segment1: Seq<char>,
    headers: RequestHeadersView,
    path: Seq<char>,
)
    requires
        state.well_formed(),
        resolve(state.root, segment0, segment1) matches Some(node) && !needs_slash(
            segment0,
            node,
            path,
        ) && !tag_matches(headers, node.etag),
        wants_deflate(headers),
    ensures
        respond(state, segment0, segment1, headers, path).status == Status::Success,
        respond(state, segment0, segment1, headers, path).body == deflated(
            respond(
                state,
                segment0,
                segment1,
                RequestHeadersView { accept_encoding: None, ..headers },
                path,
            ).body,
        ),
{
    lemma_resolved_node_well_formed(state.root, segment0, segment1);
}

/// A path that leads nowhere is answered with `404 Not Found`: with the not-found page, which
/// has a body and is HTML, where the request accepts `text/html`; without body or headers
/// otherwise.
pub proof fn unknown_path_is_not_found(
    state: SharedStateView,
    segment0: Seq<char>,
    segment1: Seq<char>,
    headers: RequestHeadersView,
    path: Seq<char>,
)
    requires
        state.well_formed(),
        resolve(state.root, segment0, segment1) is None,
    ensures
        respond(state, segment0, segment1, headers, path).status == Status::NotFound,
        wants_html(headers) ==> respond(state, segment0, segment1, headers, path).body.len() > 0
            && respond(state, segment0, segment1, headers, path).header("content-type"@) == Some(
            HTML_CONTENT_TYPE@,
        ),
        !wants_html(headers) ==> respond(state, segment0, segment1, headers, path).body.len() == 0
            && respond(state, segment0, segment1, headers, path).headers.len() == 0,
        headers.accept is None ==> !wants_html(headers),
        respond(state, segment0, segment1, headers, path).header("etag"@) is None,
{
    reveal_strlit("etag");
    reveal_strlit("content-type");
    reveal_strlit("cache-control");
    reveal_with_fuel(header_value, 3);
    let r = respond(state, segment0, segment1, headers, path);
    assert("etag"@.len() == 4 && "content-type"@.len() == 12 && "cache-control"@.len() == 13);
    if wants_html(headers) {
        assert(r.headers[0].0 != "etag"@);
        assert(r.headers.drop_first()[0].0 != "etag"@);
        assert(r.headers.drop_first().drop_first().len() == 0);
    }
}

/// Putting posts below a node leaves every child alone whose name no post has.
proof fn lemma_with_posts_keeps(
    root: NodeView,
    version: Seq<char>,
    posts: Seq<PostView>,
    frame: FrameView,
    n: int,
    name: Seq<char>,
)
    requires
        0 <= n <= posts.len(),
        forall|j: int| 0 <= j < n ==> (#[trigger] posts[j]).path != name,
    ensures
        with_posts(root, version, posts, frame, n).children.contains_key(name)
            == root.children.contains_key(name),
        root.children.contains_key(name) ==> with_posts(
            root,
            version,
            posts,
            frame,
            n,
        ).children[name] == root.children[name],
    decreases n,
{
    if n > 0 {
        assert(posts[n - 1].path != name);
        lemma_with_posts_keeps(root, version, posts, frame, n - 1, name);
    }
}

/// A post stands under its path unless a later post has the same path.
proof fn lemma_with_posts_holds(
    root: NodeView,
    version: Seq<char>,
    posts: Seq<PostView>,
    frame: FrameView,
    n: int,
    i: int,
)
    requires
        0 <= i < n <= posts.len(),
        forall|j: int| i < j < n ==> (#[trigger] posts[j]).path != posts[i].path,
    ensures
        with_posts(root, version, posts, frame, n).children.contains_key(posts[i].path),
        with_posts(root, version, posts, frame, n).children[posts[i].path] == post_node(
            version,
            posts[i],
            post_page(posts[i], frame).unwrap(),
        ),
    decreases n,
{
    if i < n - 1 {
        assert(posts[n - 1].path != posts[i].path);
        lemma_with_posts_holds(root, version, posts, frame, n - 1, i);
    }
}

/// Putting assets below a post's page changes nothing but its children, and an asset stands
/// under its name unless a later asset has the same name.
proof fn lemma_post_node_holds(version: Seq<char>, post: PostView, page: Seq<u8>, n: int, a: int)
    requires
        0 <= a < n <= post.assets.len(),
        forall|j: int| a < j < n ==> (#[trigger] post.assets[j]).0 != post.assets[a].0,
    ensures
        post_node_with(version, post, page, n).children.contains_key(post.assets[a].0),
        post_node_with(version, post, page, n).children[post.assets[a].0] == asset_node(
            version,
            post.title,
            post.assets[a],
        ),
    decreases n,
{
    if a < n - 1 {
        assert(post.assets[n - 1].0 != post.assets[a].0);
        lemma_post_node_holds(version, post, page, n - 1, a);
    }
}

/// The node of a post holds its finished page, served as HTML under the tag of its title.
pub proof fn post_node_is_the_page(version: Seq<char>, post: PostView, page: Seq<u8>, n: int)
    ensures
        post_node_with(version, post, page, n).content == page,
        post_node_with(version, post, page, n).compressed == deflated(page),
        post_node_with(version, post, page, n).content_type == HTML_CONTENT_TYPE@,
        post_node_with(version, post, page, n).etag == identity_tag(
            version,
            post.title,
            Seq::empty(),
        ),
    decreases n,
{
    if n > 0 {
        post_node_is_the_page(version, post, page, n - 1);
    }
}

/// The four fixed names differ from each other, and none is empty.
proof fn lemma_fixed_names()
    ensures
        "url-image.jpg"@.len() == 13,
        "robots.txt"@.len() == 10,
        "rss.xml"@.len() == 7,
        "feed.xml"@.len() == 8,
{
    reveal_strlit("url-image.jpg");
    reveal_strlit("robots.txt");
    reveal_strlit("rss.xml");
    reveal_strlit("feed.xml");
}

/// In the content tree, the root is the index, and the robots policy and the feed under its two
/// names stand below it, whatever the posts are called.
pub proof fn tree_serves_the_fixed_resources(
    version: Seq<char>,
    posts: Seq<PostView>,
    frame: FrameView,
    index: Seq<u8>,
    url_image: Seq<u8>,
    feed: Seq<u8>,
)
    ensures
        resolve(
            content_tree(version, posts, frame, index, url_image, feed),
            Seq::empty(),
            Seq::empty(),
        ) matches Some(root) && root.content == index && root.content_type == HTML_CONTENT_TYPE@
            && root.etag == identity_tag(version, Seq::empty(), Seq::empty()),
        resolve(
            content_tree(version, posts, frame, index, url_image, feed),
            "robots.txt"@,
            Seq::empty(),
        ) == Some(
            NodeView::leaf(
                encode_utf8(ROBOTS_TXT@),
                PLAIN_CONTENT_TYPE@,
                content_tag(version, encode_utf8(ROBOTS_TXT@)),
            ),
        ),
        resolve(content_tree(version, posts, frame, index, url_image, feed), "rss.xml"@, Seq::empty())
            == Some(NodeView::leaf(feed, "text/xml"@, content_tag(version, feed))),
        resolve(content_tree(version, posts, frame, index, url_image, feed), "feed.xml"@, Seq::empty())
            == Some(NodeView::leaf(feed, "text/xml"@, content_tag(version, feed))),
{
    lemma_fixed_names();
    let base = NodeView::leaf(
        index,
        HTML_CONTENT_TYPE@,
        identity_tag(version, Seq::empty(), Seq::empty()),
    ).with_child(
        "url-image.jpg"@,
        NodeView::leaf(url_image, "image/jpeg"@, identity_tag(version, "url-image.jpg"@, Seq::empty())),
    );
    lemma_with_posts_fields(base, version, posts, frame, posts.len() as int);
}

/// Putting posts below a node changes nothing but its children.
proof fn lemma_with_posts_fields(
    root: NodeView,
    version: Seq<char>,
    posts: Seq<PostView>,
    frame: FrameView,
    n: int,
)
    ensures
        with_posts(root, version, posts, frame, n).content == root.content,
        with_posts(root, version, posts, frame, n).compressed == root.compressed,
        with_posts(root, version, posts, frame, n).content_type == root.content_type,
        with_posts(root, version, posts, frame, n).etag == root.etag,
    decreases n,
{
    if n > 0 {
        lemma_with_posts_fields(root, version, posts, frame, n - 1);
    }
}

/// In the content tree, the site image stands under its name unless a post has that path.
pub proof fn tree_serves_the_site_image(
    version: Seq<char>,
    posts: Seq<PostView>,
    frame: FrameView,
    index: Seq<u8>,
    url_image: Seq<u8>,
    feed: Seq<u8>,
)
    requires
        forall|j: int| 0 <= j < posts.len() ==> (#[trigger] posts[j]).path != "url-image.jpg"@,
    ensures
        resolve(
            content_tree(version, posts, frame, index, url_image, feed),
            "url-image.jpg"@,
            Seq::empty(),
        ) == Some(
            NodeView::leaf(
                url_image,
                "image/jpeg"@,
                identity_tag(version, "url-image.jpg"@, Seq::empty()),
            ),
        ),
{
    lemma_fixed_names();
    let base = NodeView::leaf(
        index,
        HTML_CONTENT_TYPE@,
        identity_tag(version, Seq::empty(), Seq::empty()),
    ).with_child(
        "url-image.jpg"@,
        NodeView::leaf(url_image, "image/jpeg"@, identity_tag(version, "url-image.jpg"@, Seq::empty())),
    );
    lemma_with_posts_keeps(base, version, posts, frame, posts.len() as int, "url-image.jpg"@);
}

/// In the content tree, every post stands under its path, with its finished page in the frame,
/// unless a post listed after it has the same path or the path is that of the robots policy or
/// the feed.
pub proof fn tree_serves_each_post(
    version: Seq<char>,
    posts: Seq<PostView>,
    frame: FrameView,
    index: Seq<u8>,
    url_image: Seq<u8>,
    feed: Seq<u8>,
    i: int,
)
    requires
        0 <= i < posts.len(),
        posts[i].path.len() > 0,
        forall|j: int| i < j < posts.len() ==> (#[trigger] posts[j]).path != posts[i].path,
        posts[i].path != "robots.txt"@,
        posts[i].path != "rss.xml"@,
        posts[i].path != "feed.xml"@,
    ensures
        resolve(
            content_tree(version, posts, frame, index, url_image, feed),
            posts[i].path,
            Seq::empty(),
        ) == Some(post_node(version, posts[i], post_page(posts[i], frame).unwrap())),
        post_node(version, posts[i], post_page(posts[i], frame).unwrap()).content == post_page(
            posts[i],
            frame,
        ).unwrap(),
        post_node(version, posts[i], post_page(posts[i], frame).unwrap()).content_type
            == HTML_CONTENT_TYPE@,
{
    let base = NodeView::leaf(
        index,
        HTML_CONTENT_TYPE@,
        identity_tag(version, Seq::empty(), Seq::empty()),
    ).with_child(
        "url-image.jpg"@,
        NodeView::leaf(url_image, "image/jpeg"@, identity_tag(version, "url-image.jpg"@, Seq::empty())),
    );
    lemma_with_posts_holds(base, version, posts, frame, posts.len() as int, i);
    post_node_is_the_page(
        version,
        posts[i],
        post_page(posts[i], frame).unwrap(),
        posts[i].assets.len() as int,
    );
}

/// In the content tree, every asset of a post that stands under its path stands below it under
/// its file name, with its bytes, unless a later asset of the post has the same name.
pub proof fn tree_serves_each_asset(
    version: Seq<char>,
    posts: Seq<PostView>,
    frame: FrameView,
    index: Seq<u8>,
    url_image: Seq<u8>,
    feed: Seq<u8>,
    i: int,
    a: int,
)
    requires
        0 <= i < posts.len(),
        posts[i].path.len() > 0,
        forall|j: int| i < j < posts.len() ==> (#[trigger] posts[j]).path != posts[i].path,
        posts[i].path != "robots.txt"@,
        posts[i].path != "rss.xml"@,
        posts[i].path != "feed.xml"@,
        0 <= a < posts[i].assets.len(),
        posts[i].assets[a].0.len() > 0,
        forall|b: int|
            a < b < posts[i].assets.len() ==> (#[trigger] posts[i].assets[b]).0
                != posts[i].assets[a].0,
    ensures
        resolve(
            content_tree(version, posts, frame, index, url_image, feed),
            posts[i].path,
            posts[i].assets[a].0,
        ) == Some(asset_node(version, posts[i].title, posts[i].assets[a])),
        asset_node(version, posts[i].title, posts[i].assets[a]).content == posts[i].assets[a].1,
{
    tree_serves_each_post(version, posts, frame, index, url_image, feed, i);
    lemma_post_node_holds(
        version,
        posts[i],
        post_page(posts[i], frame).unwrap(),
        posts[i].assets.len() as int,
        a,
    );
}

/// The robots policy is 77 bytes of ASCII.
pub proof fn robots_policy_is_77_bytes()
    ensures
        encode_utf8(ROBOTS_TXT@).len() == 77,
{
    reveal_strlit("User-agent: *\nAllow: /\nDisallow: /livez\nDisallow: /readyz\nDisallow: /metricz\n");
    assert(vstd::utf8::is_ascii_chars(ROBOTS_TXT@));
    vstd::utf8::is_ascii_chars_encode_utf8(ROBOTS_TXT@);
}

/// Whatever the posts are, a read of `robots.txt` that names no identity tag is answered with
/// the robots policy as plain text: 77 bytes where the request does not accept `deflate`.
pub proof fn robots_policy_is_served(
    posts: Seq<PostView>,
    site: SiteView,
    url_image: Seq<u8>,
    state: SharedStateView,
    headers: RequestHeadersView,
    path: Seq<char>,
)
    requires
        built_state(posts, site, url_image) == Ok::<SharedStateView, BuildError>(state),
        headers.if_none_match is None,
    ensures
        respond(state, "robots.txt"@, Seq::empty(), headers, path).status == Status::Success,
        respond(state, "robots.txt"@, Seq::empty(), headers, path).header("content-type"@) == Some(
            PLAIN_CONTENT_TYPE@,
        ),
        !wants_deflate(headers) ==> respond(state, "robots.txt"@, Seq::empty(), headers, path).body
            == encode_utf8(ROBOTS_TXT@) && respond(
            state,
            "robots.txt"@,
            Seq::empty(),
            headers,
            path,
        ).body.len() == 77,
{
    let ordered = display_order(posts);
    robots_policy_is_77_bytes();
    reveal_strlit("text/html; charset=utf-8");
    reveal_strlit("text/plain; charset=utf-8");
    assert(HTML_CONTENT_TYPE@.len() == 24 && PLAIN_CONTENT_TYPE@.len() == 25);
    let frame = frame_of(site, footer_of(site).unwrap());
    let index = index_document(
        ordered,
        frame.external_url_prefix,
        frame.head,
        frame.footer,
    ).unwrap();
    let feed = rss_document(ordered, frame.external_url_prefix).unwrap();
    tree_serves_the_fixed_resources(site.version, ordered, frame, index, url_image, feed);
    reveal_with_fuel(header_value, 2);
}

/// The node of the `i`-th post in display order, as the site settings frame its page.
pub open spec fn served_post_node(posts: Seq<PostView>, site: SiteView, i: int) -> NodeView {
    post_node(
        site.version,
        display_order(posts)[i],
        post_page(display_order(posts)[i], frame_of(site, footer_of(site).unwrap())).unwrap(),
    )
}

/// A post that stands under its path is answered, where the path ends in a slash and the
/// request names no identity tag and does not accept `deflate`, with its finished page as HTML;
/// and where the path does not end in a slash, with the redirect to the path that does.
pub proof fn post_page_is_served(
    posts: Seq<PostView>,
    site: SiteView,
    url_image: Seq<u8>,
    state: SharedStateView,
    i: int,
    headers: RequestHeadersView,
    path: Seq<char>,
)
    requires
        built_state(posts, site, url_image) == Ok::<SharedStateView, BuildError>(state),
        0 <= i < posts.len(),
        display_order(posts)[i].path.len() > 0,
        forall|j: int|
            i < j < posts.len() ==> (#[trigger] display_order(posts)[j]).path != display_order(
                posts,
            )[i].path,
        display_order(posts)[i].path != "robots.txt"@,
        display_order(posts)[i].path != "rss.xml"@,
        display_order(posts)[i].path != "feed.xml"@,
        headers.if_none_match is None,
        !wants_deflate(headers),
    ensures
        has_suffix(path, "/"@) ==> respond(
            state,
            display_order(posts)[i].path,
            Seq::empty(),
            headers,
            path,
        ) == (ResponseView {
            status: Status::Success,
            headers: resource_headers(served_post_node(posts, site, i)),
            body: served_post_node(posts, site, i).content,
        }),
        !has_suffix(path, "/"@) ==> respond(
            state,
            display_order(posts)[i].path,
            Seq::empty(),
            headers,
            path,
        ) == redirect_response(path),
        resource_headers(served_post_node(posts, site, i))[0] == (
            "content-type"@,
            HTML_CONTENT_TYPE@,
        ),
{
    let ordered = display_order(posts);
    display_order_keeps_the_posts(posts);
    let frame = frame_of(site, footer_of(site).unwrap());
    let index = index_document(
        ordered,
        frame.external_url_prefix,
        frame.head,
        frame.footer,
    ).unwrap();
    let feed = rss_document(ordered, frame.external_url_prefix).unwrap();
    tree_serves_each_post(site.version, ordered, frame, index, url_image, feed, i);
}

/// Escaped text cannot end or begin markup: it holds no `<`, no `>` and no `"`, whatever the
/// text was.
pub proof fn escaped_text_holds_no_markup(text: Seq<char>)
    ensures
        forall|i: int|
            0 <= i < escaped(text).len() ==> (#[trigger] escaped(text)[i]) != '<' && escaped(
                text,
            )[i] != '>' && escaped(text)[i] != '"',
    decreases text.len(),
{
    if text.len() > 0 {
        escaped_text_holds_no_markup(text.drop_last());
        let front = escaped(text.drop_last());
        let tail = escaped_char(text.last());
        reveal_strlit("&amp;");
        reveal_strlit("&lt;");
        reveal_strlit("&gt;");
        reveal_strlit("&quot;");
        assert forall|k: int| 0 <= k < tail.len() implies (#[trigger] tail[k]) != '<' && tail[k]
            != '>' && tail[k] != '"' by {}
        assert forall|i: int| 0 <= i < escaped(text).len() implies (#[trigger] escaped(text)[i])
            != '<' && escaped(text)[i] != '>' && escaped(text)[i] != '"' by {
            if i < front.len() {
                assert(escaped(text)[i] == front[i]);
            } else {
                assert(escaped(text)[i] == tail[i - front.len()]);
            }
        }
    }
}

/// Text without any of `&`, `<`, `>` and `"` is its own escaped form.
pub proof fn plain_text_escapes_to_itself(text: Seq<char>)
    requires
        forall|i: int|
            0 <= i < text.len() ==> (#[trigger] text[i]) != '&' && text[i] != '<' && text[i] != '>'
                && text[i] != '"',
    ensures
        escaped(text) == text,
    decreases text.len(),
{
    if text.len() > 0 {
        let front = text.drop_last();
        assert forall|i: int| 0 <= i < front.len() implies (#[trigger] front[i]) != '&' && front[i]
            != '<' && front[i] != '>' && front[i] != '"' by {
            assert(front[i] == text[i]);
        }
        plain_text_escapes_to_itself(front);
        assert(text.last() == text[text.len() - 1]);
        assert(escaped(text) =~= text);
    }
}

} // verus!
