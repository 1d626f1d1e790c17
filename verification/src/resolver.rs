//! Resolving a request against the content tree: path lookup, trailing-slash canonicalization,
//! conditional GET, encoding negotiation, and the not-found page.

use crate::media::HTML_CONTENT_TYPE;
use crate::response::{
    header_views, Header, RequestHeaders, RequestHeadersView, Response, ResponseView, Status,
};
use crate::text::{contains, ends_with, has_substring, has_suffix};
use crate::tree::{Node, NodeView, SharedState, SharedStateView};
use vstd::prelude::*;

verus! {

/// The caching directive sent with every resource, redirect and not-found page.
pub const CACHE_CONTROL: &'static str = "max-age=300";

/// The content security policy sent with every resource.
pub const CONTENT_SECURITY_POLICY: &'static str =
    "default-src 'none'; style-src 'nonce-123456789'; img-src 'self' data: https:";

/// The node that the two path segments lead to. An empty first segment means the root; an empty
/// second segment means the child itself.
pub open spec fn resolve(root: NodeView, segment0: Seq<char>, segment1: Seq<char>) -> Option<
    NodeView,
> {
    if segment0.len() == 0 {
        Some(root)
    } else if !root.children.contains_key(segment0) {
        None
    } else if segment1.len() == 0 {
        Some(root.children[segment0])
    } else if !root.children[segment0].children.contains_key(segment1) {
        None
    } else {
        Some(root.children[segment0].children[segment1])
    }
}

/// The request accepts an HTML error page.
pub open spec fn wants_html(headers: RequestHeadersView) -> bool {
    headers.accept matches Some(value) && has_substring(value, "text/html"@)
}

/// The request accepts a deflated body.
pub open spec fn wants_deflate(headers: RequestHeadersView) -> bool {
    headers.accept_encoding matches Some(value) && has_substring(value, "deflate"@)
}

/// The request carries exactly this identity tag in `if-none-match`.
pub open spec fn tag_matches(headers: RequestHeadersView, etag: Seq<char>) -> bool {
    headers.if_none_match == Some(etag)
}

/// A page below the root was asked for under a path that lacks the trailing slash.
pub open spec fn needs_slash(segment0: Seq<char>, node: NodeView, path: Seq<char>) -> bool {
    &&& segment0.len() > 0
    &&& !has_suffix(path, "/"@)
    &&& node.content_type == HTML_CONTENT_TYPE@
}

/// The headers of every response that stands for a resource.
pub open spec fn resource_headers(node: NodeView) -> Seq<(Seq<char>, Seq<char>)> {
    seq![
        ("content-type"@, node.content_type),
        ("etag"@, node.etag),
        ("cache-control"@, CACHE_CONTROL@),
        ("x-frame-options"@, "DENY"@),
        ("content-security-policy"@, CONTENT_SECURITY_POLICY@),
        ("referrer-policy"@, "origin-when-cross-origin"@),
        ("x-content-type-options"@, "nosniff"@),
    ]
}

/// The answer to a request whose path leads nowhere.
pub open spec fn not_found_response(
    state: SharedStateView,
    headers: RequestHeadersView,
) -> ResponseView {
    if wants_html(headers) {
        ResponseView {
            status: Status::NotFound,
            headers: seq![
                ("content-type"@, state.not_found.content_type),
                ("cache-control"@, CACHE_CONTROL@),
            ],
            body: state.not_found.content,
        }
    } else {
        ResponseView { status: Status::NotFound, headers: Seq::empty(), body: Seq::empty() }
    }
}

/// The redirect from `path` to the same path with a slash appended.
pub open spec fn redirect_response(path: Seq<char>) -> ResponseView {
    ResponseView {
        status: Status::TemporaryRedirect,
        headers: seq![("location"@, path + "/"@), ("cache-control"@, CACHE_CONTROL@)],
        body: Seq::empty(),
    }
}

/// The answer for a node that was found and needs no redirect.
pub open spec fn resource_response(node: NodeView, headers: RequestHeadersView) -> ResponseView {
    if tag_matches(headers, node.etag) {
        ResponseView {
            status: Status::NotModified,
            headers: resource_headers(node),
            body: Seq::empty(),
        }
    } else if wants_deflate(headers) {
        ResponseView {
            status: Status::Success,
            headers: resource_headers(node).push(("content-encoding"@, "deflate"@)),
            body: node.compressed,
        }
    } else {
        ResponseView {
            status: Status::Success,
            headers: resource_headers(node),
            body: node.content,
        }
    }
}

/// The answer to a read of `path`, whose segments are `segment0` and `segment1`.
pub open spec fn respond(
    state: SharedStateView,
    segment0: Seq<char>,
    segment1: Seq<char>,
    headers: RequestHeadersView,
    path: Seq<char>,
) -> ResponseView {
    match resolve(state.root, segment0, segment1) {
        None => not_found_response(state, headers),
        Some(node) => if needs_slash(segment0, node, path) {
            redirect_response(path)
        } else {
            resource_response(node, headers)
        },
    }
}

/// Whether an optional header value holds `token`.
fn mentions(value: &Option<String>, token: &str) -> (found: bool)
    ensures
        found == (value matches Some(text) && has_substring(text@, token@)),
{
    match value {
        Some(text) => contains(text.as_str(), token),
        None => false,
    }
}

/// The `304 Not Modified` response with `resp_headers`, if the request names `etag` in
/// `if-none-match`, byte for byte.
pub fn check_etag_and_return(
    etag: &String,
    req_headers: &RequestHeaders,
    resp_headers: &Vec<Header>,
) -> (response: Option<Response>)
    ensures
        match response {
            Some(r) => tag_matches(req_headers@, etag@) && r@ == (ResponseView {
                status: Status::NotModified,
                headers: header_views(resp_headers@),
                body: Seq::empty(),
            }),
            None => !tag_matches(req_headers@, etag@),
        },
{
    let matched = match &req_headers.if_none_match {
        Some(tag) => *tag == *etag,
        None => false,
    };
    if matched {
        let headers = copy_headers(resp_headers);
        Some(Response { status: Status::NotModified, headers, body: Vec::new() })
    } else {
        None
    }
}

/// A copy of a list of headers.
fn copy_headers(headers: &Vec<Header>) -> (copy: Vec<Header>)
    ensures
        header_views(copy@) == header_views(headers@),
{
    let mut copy: Vec<Header> = Vec::new();
    let mut i: usize = 0;
    while i < headers.len()
        invariant
            i <= headers@.len(),
            copy@.len() == i,
            forall|j: int| 0 <= j < i ==> copy@[j]@ == headers@[j]@,
        decreases headers@.len() - i,
    {
        copy.push(Header::new(headers[i].name.as_str(), headers[i].value.as_str()));
        i += 1;
    }
    assert(header_views(copy@) =~= header_views(headers@));
    copy
}

/// The answer to a request whose path leads nowhere: the not-found page where the request
/// accepts HTML, an empty body otherwise. Neither carries an identity tag.
pub fn gen_not_found(state: &SharedState, req_headers: &RequestHeaders) -> (response: Response)
    ensures
        response@ == not_found_response(state@, req_headers@),
        state@.well_formed(),
{
    let page = state.not_found();
    if mentions(&req_headers.accept, "text/html") {
        let mut headers: Vec<Header> = Vec::new();
        headers.push(Header::new("content-type", page.content_type().as_str()));
        headers.push(Header::new("cache-control", CACHE_CONTROL));
        assert(header_views(headers@) =~= seq![
            ("content-type"@, state@.not_found.content_type),
            ("cache-control"@, CACHE_CONTROL@),
        ]);
        Response { status: Status::NotFound, headers, body: page.content().clone() }
    } else {
        let headers: Vec<Header> = Vec::new();
        assert(header_views(headers@) =~= Seq::empty());
        Response { status: Status::NotFound, headers, body: Vec::new() }
    }
}

/// The answer to a read of the root.
pub fn view_root_item(state: &SharedState, req_headers: &RequestHeaders, path: &str) -> (response: Response)
    ensures
        response@ == respond(state@, Seq::empty(), Seq::empty(), req_headers@, path@),
        state@.well_formed(),
{
    proof {
        reveal_strlit("");
        assert(""@ =~= Seq::<char>::empty());
    }
    view_nested_item("", "", state, req_headers, path)
}

/// The answer to a read of the page called `key`.
pub fn view_item(
    key: &str,
    state: &SharedState,
    req_headers: &RequestHeaders,
    path: &str,
) -> (response: Response)
    ensures
        response@ == respond(state@, key@, Seq::empty(), req_headers@, path@),
        state@.well_formed(),
{
    proof {
        reveal_strlit("");
        assert(""@ =~= Seq::<char>::empty());
    }
    view_nested_item(key, "", state, req_headers, path)
}

/// The answer to a read of `path`, whose segments are `key0` and `key1`; an empty segment is an
/// absent one.
pub fn view_nested_item(
    key0: &str,
    key1: &str,
    state: &SharedState,
    req_headers: &RequestHeaders,
    path: &str,
) -> (response: Response)
    ensures
        response@ == respond(state@, key0@, key1@, req_headers@, path@),
        state@.well_formed(),
{
    let mut x: &Node = state.root();
    if !key0.is_empty() {
        match x.get_child(key0) {
            Some(y) => {
                x = y;
                if !key1.is_empty() {
                    match x.get_child(key1) {
                        Some(z) => {
                            x = z;
                        },
                        None => {
                            return gen_not_found(state, req_headers);
                        },
                    }
                }
                if !ends_with(path, "/") && *x.content_type() == HTML_CONTENT_TYPE.to_owned() {
                    let mut newpath = path.to_owned();
                    newpath.append("/");
                    let mut headers: Vec<Header> = Vec::new();
                    headers.push(Header::new("location", newpath.as_str()));
                    headers.push(Header::new("cache-control", CACHE_CONTROL));
                    assert(header_views(headers@) =~= seq![
                        ("location"@, path@ + "/"@),
                        ("cache-control"@, CACHE_CONTROL@),
                    ]);
                    return Response {
                        status: Status::TemporaryRedirect,
                        headers,
                        body: Vec::new(),
                    };
                }
            },
            None => {
                return gen_not_found(state, req_headers);
            },
        }
    }
    let mut headers: Vec<Header> = Vec::new();
    headers.push(Header::new("content-type", x.content_type().as_str()));
    headers.push(Header::new("etag", x.etag().as_str()));
    headers.push(Header::new("cache-control", CACHE_CONTROL));
    headers.push(Header::new("x-frame-options", "DENY"));
    headers.push(Header::new("content-security-policy", CONTENT_SECURITY_POLICY));
    headers.push(Header::new("referrer-policy", "origin-when-cross-origin"));
    headers.push(Header::new("x-content-type-options", "nosniff"));
    assert(header_views(headers@) =~= resource_headers(x@));

    if let Some(not_modified) = check_etag_and_return(x.etag(), req_headers, &headers) {
        return not_modified;
    }
    if mentions(&req_headers.accept_encoding, "deflate") {
        headers.push(Header::new("content-encoding", "deflate"));
        assert(header_views(headers@) =~= resource_headers(x@).push(
            ("content-encoding"@, "deflate"@),
        ));
        return Response { status: Status::Success, headers, body: x.compressed().clone() };
    }
    Response { status: Status::Success, headers, body: x.content().clone() }
}

/// The answer to a liveness or readiness probe.
pub fn healthcheck() -> (response: Response)
    ensures
        response@ == (ResponseView {
            status: Status::NoContent,
            headers: Seq::empty(),
            body: Seq::empty(),
        }),
{
    let headers: Vec<Header> = Vec::new();
    assert(header_views(headers@) =~= Seq::empty());
    Response { status: Status::NoContent, headers, body: Vec::new() }
}

} // verus!
