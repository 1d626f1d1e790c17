//! Posts: one document each, with the files that lie beside it.

use crate::date::{Date, DateView};
use crate::text::option_text;
use vstd::prelude::*;

verus! {

/// A file that lies beside a post's document.
#[derive(Clone, Debug)]
pub struct Asset {
    pub name: String,
    pub data: Vec<u8>,
}

impl View for Asset {
    type V = (Seq<char>, Seq<u8>);

    open spec fn view(&self) -> (Seq<char>, Seq<u8>) {
        (self.name@, self.data@)
    }
}

/// The assets of a list, each as a name with its bytes.
pub open spec fn asset_views(assets: Seq<Asset>) -> Seq<(Seq<char>, Seq<u8>)> {
    assets.map_values(|a: Asset| a@)
}

/// What a post is, as mathematics.
pub struct PostView {
    pub path: Seq<char>,
    pub title: Seq<char>,
    pub description: Option<Seq<char>>,
    pub date: DateView,
    pub rendered_body: Seq<char>,
    pub assets: Seq<(Seq<char>, Seq<u8>)>,
}

/// One post: where it lives, what it is called, when it was written, its body rendered as an
/// HTML fragment, and its assets by file name.
#[derive(Clone, Debug)]
pub struct Post {
    pub path: String,
    pub title: String,
    pub description: Option<String>,
    pub date: Date,
    pub rendered_body: String,
    pub assets: Vec<Asset>,
}

impl View for Post {
    type V = PostView;

    open spec fn view(&self) -> PostView {
        PostView {
            path: self.path@,
            title: self.title@,
            description: option_text(self.description),
            date: self.date@,
            rendered_body: self.rendered_body@,
            assets: asset_views(self.assets@),
        }
    }
}

/// The posts of a list, each as its view.
pub open spec fn post_views(posts: Seq<Post>) -> Seq<PostView> {
    posts.map_values(|p: Post| p@)
}

} // verus!
