//! The rows and requests of clip storage, as plain values.

use crate::shortcode::ShortCode;
use vstd::prelude::*;

verus! {

/// A stored clip. Times are seconds since the Unix epoch, in UTC.
#[derive(Clone, Debug, PartialEq, Eq)]
pub struct Clip {
    pub clip_id: String,
    pub shortcode: String,
    pub content: String,
    pub title: Option<String>,
    pub posted: i64,
    pub expires: Option<i64>,
    pub password: Option<String>,
    pub hits: i64,
}

/// The request for one clip by its short code.
#[derive(Clone, Debug, PartialEq, Eq)]
pub struct GetClip {
    pub shortcode: String,
}

impl From<ShortCode> for GetClip {
    fn from(shortcode: ShortCode) -> (model: GetClip) {
        GetClip { shortcode: shortcode.into_inner() }
    }
}

impl vstd::std_specs::convert::FromSpecImpl<ShortCode> for GetClip {
    open spec fn obeys_from_spec() -> bool {
        true
    }

    open spec fn from_spec(shortcode: ShortCode) -> GetClip {
        GetClip { shortcode: shortcode.text() }
    }
}

impl From<String> for GetClip {
    fn from(shortcode: String) -> (model: GetClip) {
        GetClip { shortcode }
    }
}

impl vstd::std_specs::convert::FromSpecImpl<String> for GetClip {
    open spec fn obeys_from_spec() -> bool {
        true
    }

    open spec fn from_spec(shortcode: String) -> GetClip {
        GetClip { shortcode }
    }
}

/// A clip to be stored. Times are seconds since the Unix epoch, in UTC.
#[derive(Clone, Debug, PartialEq, Eq)]
pub struct NewClip {
    pub clip_id: String,
    pub shortcode: String,
    pub content: String,
    pub title: Option<String>,
    pub posted: i64,
    pub expires: Option<i64>,
    pub password: Option<String>,
}

/// The new contents of a stored clip; its identity and the time it was posted
/// stay as they are.
#[derive(Clone, Debug, PartialEq, Eq)]
pub struct UpdateClip {
    pub shortcode: String,
    pub content: String,
    pub title: Option<String>,
    pub expires: Option<i64>,
    pub password: Option<String>,
}

} // verus!
