//! Content-tree build and cache-aware delivery engine of a static blog server.
//!
//! The embedded files are collected into posts ([`collect`]), the posts are put in display
//! order ([`order`]) and compiled into pages ([`pages`]), and every page, asset and fixed
//! resource becomes a node of the content tree ([`builder`], [`tree`]). Requests are resolved
//! against that tree ([`resolver`]), which never changes once it is built. What holds of every
//! request and of every tree is stated and proved in [`laws`]; the calls into other crates are
//! gathered in [`outside`].

pub mod builder;
pub mod collect;
pub mod date;
pub mod etag;
pub mod laws;
pub mod media;
pub mod order;
pub mod outside;
pub mod pages;
pub mod post;
pub mod resolver;
pub mod response;
pub mod sampling;
pub mod text;
pub mod tree;
