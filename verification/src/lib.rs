//! A typed model of the Tumblr REST API: the NPF ("Neue Post Format")
//! content-block codec, the post and response envelopes, and the OAuth2
//! token lifecycle.
//!
//! JSON documents are modeled by the [`json::Json`] tree; every codec in
//! this crate is a verified function between typed values and such trees.
//! Text is brought into tree form through `serde_json` at a narrow,
//! clearly-marked boundary in [`json`].

pub mod api;
pub mod auth;
pub mod client;
pub mod json;
pub mod npf;
pub mod text;

use vstd::prelude::*;

verus! {

} // verus!
