//! Media types of the resources.

use crate::outside::{guess_media_type, guessed_media_type};
use vstd::prelude::*;

verus! {

/// The media type of every rendered page.
pub const HTML_CONTENT_TYPE: &'static str = "text/html; charset=utf-8";

/// The media type of plain-text resources.
pub const PLAIN_CONTENT_TYPE: &'static str = "text/plain; charset=utf-8";

/// The media type of an asset, given what its file name suggests: the suggestion, or
/// `text/plain` where there is none.
pub open spec fn media_type_or_plain(guess: Option<Seq<char>>) -> Seq<char> {
    match guess {
        Some(media_type) => media_type,
        None => "text/plain"@,
    }
}

/// The media type under which an asset called `name` is served.
pub open spec fn asset_content_type(name: Seq<char>) -> Seq<char> {
    media_type_or_plain(guessed_media_type(name))
}

/// The media type of an asset, given what its file name suggests.
pub fn content_type_of_guess(guess: Option<String>) -> (media_type: String)
    ensures
        media_type@ == media_type_or_plain(crate::text::option_text(guess)),
{
    match guess {
        Some(media_type) => media_type,
        None => "text/plain".to_owned(),
    }
}

/// The media type under which an asset called `name` is served: guessed from the extension of
/// the name, `text/plain` where the extension says nothing.
pub fn guess_content_type(name: &str) -> (media_type: String)
    ensures
        media_type@ == asset_content_type(name@),
{
    content_type_of_guess(guess_media_type(name))
}

} // verus!
