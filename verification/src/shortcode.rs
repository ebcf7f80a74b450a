//! The short code that names a clip.

use vstd::prelude::*;

verus! {

/// The token by which a clip is found. Two short codes name the same clip
/// exactly when their characters are the same.
#[derive(Clone, Debug, PartialEq, Eq, Hash)]
pub struct ShortCode(String);

impl View for ShortCode {
    type V = Seq<char>;

    closed spec fn view(&self) -> Seq<char> {
        self.0@
    }
}

impl ShortCode {
    /// The text that the short code wraps.
    pub closed spec fn text(self) -> String {
        self.0
    }

    /// Wraps the given text as a short code.
    pub fn from_string(code: String) -> (shortcode: ShortCode)
        ensures
            shortcode@ == code@,
    {
        ShortCode(code)
    }

    /// The characters of the short code.
    pub fn as_str(&self) -> (code: &str)
        ensures
            code@ == self@,
    {
        self.0.as_str()
    }

    /// Gives back the text that was wrapped.
    pub fn into_inner(self) -> (code: String)
        ensures
            code == self.text(),
            code@ == self@,
    {
        self.0
    }

    /// Whether both short codes name the same clip.
    pub fn same(&self, other: &ShortCode) -> (same: bool)
        ensures
            same == (self@ == other@),
    {
        self.0 == other.0
    }

    /// Whether `text` is the text of this short code.
    pub fn is_text(&self, text: &String) -> (same: bool)
        ensures
            same == (self@ == text@),
    {
        self.0 == *text
    }

    /// A second short code for the same clip.
    pub fn duplicate(&self) -> (copy: ShortCode)
        ensures
            copy@ == self@,
    {
        ShortCode(self.0.clone())
    }
}

} // verus!
