//! What a client of the API sends: the addresses of its requests and the
//! cookie that carries a clip's password.

use crate::shortcode::ShortCode;
use vstd::prelude::*;
use vstd::string::StringExecFns;

verus! {

/// The path under which the API serves clips.
pub open spec fn clips_path() -> Seq<char> {
    "/api/clip"@
}

/// The address of the clips of the server at `addr`: where clips are created
/// and changed.
pub fn clips_url(addr: &str) -> (url: String)
    ensures
        url@ == addr@ + clips_path(),
{
    addr.to_owned().concat("/api/clip")
}

/// The address of the clip named `shortcode` on the server at `addr`.
pub fn clip_url(addr: &str, shortcode: &ShortCode) -> (url: String)
    ensures
        url@ == addr@ + clips_path() + "/"@ + shortcode@,
{
    clips_url(addr).concat("/").concat(shortcode.as_str())
}

/// The cookie that presents `password` with a request.
pub fn password_cookie(password: &str) -> (cookie: String)
    ensures
        cookie@ == "password="@ + password@,
{
    "password=".to_owned().concat(password)
}

} // verus!
