//! The calls this library makes into other crates and into parts of the standard library that
//! have no specification. Each function here is believed, not proved: its contract says what the
//! called code is relied on to do.

use crate::text::option_text;
use vstd::prelude::*;
use vstd::utf8::{decode_utf8, valid_utf8};

verus! {

/// The DEFLATE stream that `deflate::deflate_bytes` produces for `input` at the default
/// compression level.
pub uninterp spec fn deflated(input: Seq<u8>) -> Seq<u8>;

/// Calls `deflate::deflate_bytes`. The compressor keeps no state between calls and reads
/// nothing but its input, so the output is a function of the input bytes alone.
#[verifier::external_body]
pub(crate) fn deflate(input: &[u8]) -> (out: Vec<u8>)
    ensures
        out@ == deflated(input@),
{
    deflate::deflate_bytes(input)
}

/// The first media type that `mime_guess` has on record for the extension of `path`, as the
/// `mime` crate prints it; `None` where the path has no extension or the extension is unknown.
pub uninterp spec fn guessed_media_type(path: Seq<char>) -> Option<Seq<char>>;

/// Calls `mime_guess::from_path` and `MimeGuess::first`. The guess is a lookup of the path's
/// extension in a table compiled into that crate; no file is touched.
#[verifier::external_body]
pub(crate) fn guess_media_type(path: &str) -> (guess: Option<String>)
    ensures
        option_text(guess) == guessed_media_type(path@),
{
    match mime_guess::from_path(path).first() {
        Some(media_type) => Some(media_type.to_string()),
        None => None,
    }
}

/// What capture group 1 holds in the leftmost match of the regular expression `pattern` in
/// `haystack`, as the `regex` crate finds it; `None` where `pattern` is no valid expression,
/// where nothing matches, or where group 1 took no part in the match.
pub uninterp spec fn first_capture(pattern: Seq<char>, haystack: Seq<char>) -> Option<Seq<char>>;

/// Calls `regex::Regex::new`, `Regex::captures` and `Captures::get(1)`. A search depends on the
/// pattern and the haystack alone.
#[verifier::external_body]
pub(crate) fn capture_first(pattern: &str, haystack: &str) -> (found: Option<String>)
    ensures
        option_text(found) == first_capture(pattern@, haystack@),
{
    match regex::Regex::new(pattern) {
        Ok(expression) => match expression.captures(haystack) {
            Some(captures) => match captures.get(1) {
                Some(group) => Some(group.as_str().to_owned()),
                None => None,
            },
            None => None,
        },
        Err(_) => None,
    }
}

/// The calendar date (year, month, day of month) that `time::Date::parse` reads from `input`
/// under the format description `format`; `None` where the description or the input is
/// rejected.
pub uninterp spec fn parsed_date(format: Seq<char>, input: Seq<char>) -> Option<(i32, u8, u8)>;

/// Calls `time::format_description::parse_borrowed::<1>` and `time::Date::parse`, and takes the
/// date apart with `Date::year`, `Date::month` and `Date::day`. Parsing reads no clock and no
/// locale.
#[verifier::external_body]
pub(crate) fn parse_date(format: &str, input: &str) -> (date: Option<(i32, u8, u8)>)
    ensures
        date == parsed_date(format@, input@),
{
    let items = time::format_description::parse_borrowed::<1>(format).ok()?;
    let date = time::Date::parse(input, &items).ok()?;
    Some((date.year(), u8::from(date.month()), date.day()))
}

/// The text that `time::PrimitiveDateTime::format` gives for the moment made of the seven
/// numbers under the format description `format`; `None` where the description is rejected,
/// where the numbers are no date and time of day, or where formatting fails.
pub uninterp spec fn formatted_moment(
    format: Seq<char>,
    year: i32,
    month: u8,
    day: u8,
    hour: u8,
    minute: u8,
    second: u8,
) -> Option<Seq<char>>;

/// Calls `time::format_description::parse_borrowed::<1>`, builds the moment with
/// `Month::try_from`, `Date::from_calendar_date`, `Time::from_hms` and `PrimitiveDateTime::new`,
/// and calls `PrimitiveDateTime::format`. Month and weekday names are fixed English words; no
/// clock, locale or time zone is read.
#[verifier::external_body]
pub(crate) fn format_moment(
    format: &str,
    year: i32,
    month: u8,
    day: u8,
    hour: u8,
    minute: u8,
    second: u8,
) -> (text: Option<String>)
    ensures
        option_text(text) == formatted_moment(format@, year, month, day, hour, minute, second),
{
    let items = time::format_description::parse_borrowed::<1>(format).ok()?;
    let month = time::Month::try_from(month).ok()?;
    let date = time::Date::from_calendar_date(year, month, day).ok()?;
    let clock = time::Time::from_hms(hour, minute, second).ok()?;
    time::PrimitiveDateTime::new(date, clock).format(&items).ok()
}

/// The HTML that `pulldown_cmark` renders for the markdown text `raw` with strikethrough,
/// tables and footnotes switched on.
pub uninterp spec fn markdown_html(raw: Seq<char>) -> Seq<char>;

/// Calls `pulldown_cmark::Parser::new_ext` with the three extensions and
/// `pulldown_cmark::html::push_html`. Rendering depends on the text alone.
#[verifier::external_body]
pub(crate) fn render_markdown(raw: &str) -> (html: String)
    ensures
        html@ == markdown_html(raw@),
{
    let mut options = pulldown_cmark::Options::empty();
    options.insert(pulldown_cmark::Options::ENABLE_STRIKETHROUGH);
    options.insert(pulldown_cmark::Options::ENABLE_TABLES);
    options.insert(pulldown_cmark::Options::ENABLE_FOOTNOTES);
    let parser = pulldown_cmark::Parser::new_ext(raw, options);
    let mut html = String::new();
    pulldown_cmark::html::push_html(&mut html, parser);
    html
}

/// What one character becomes when text is escaped for HTML.
pub open spec fn escaped_char(c: char) -> Seq<char> {
    if c == '&' {
        "&amp;"@
    } else if c == '<' {
        "&lt;"@
    } else if c == '>' {
        "&gt;"@
    } else if c == '"' {
        "&quot;"@
    } else {
        seq![c]
    }
}

/// `text` escaped for HTML: the four characters `&`, `<`, `>` and `"` are replaced by their
/// entities, every other character stays.
pub open spec fn escaped(text: Seq<char>) -> Seq<char>
    decreases text.len(),
{
    if text.len() == 0 {
        Seq::empty()
    } else {
        escaped(text.drop_last()) + escaped_char(text.last())
    }
}

/// Calls `maud::Render::render` on a string slice, which escapes it as `maud`'s templates
/// escape every spliced string: byte by byte, replacing `&`, `<`, `>` and `"`.
#[verifier::external_body]
pub(crate) fn escape_html(text: &str) -> (out: String)
    ensures
        out@ == escaped(text@),
{
    maud::Render::render(text).into_string()
}

/// Calls `std::str::from_utf8`: the text that `bytes` encode, if they are valid UTF-8.
#[verifier::external_body]
pub(crate) fn decode_text(bytes: &[u8]) -> (text: Option<String>)
    ensures
        text is Some <==> valid_utf8(bytes@),
        text matches Some(t) ==> t@ == decode_utf8(bytes@),
{
    match std::str::from_utf8(bytes) {
        Ok(text) => Some(text.to_owned()),
        Err(_) => None,
    }
}

} // verus!
